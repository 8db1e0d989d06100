//! The states of the application: no profile yet, viewing the profile, or
//! editing one new entry of it.

use crate::profile::Profile;
use crate::ui::{
    create_bank_account, create_id_card, create_key_value_item, create_post_number,
    create_profile, create_social_security_number, create_tax_id,
};
use vstd::prelude::*;

verus! {

/// The section of the profile on display.
#[derive(Clone, Copy, PartialEq, Eq, Structural, Debug)]
pub enum Nav {
    Home,
    BankAccounts,
    Miscellaneous,
}

/// Viewing the profile.
#[derive(Clone, PartialEq, Debug)]
pub struct HomeState {
    pub profile: Profile,
    pub nav: Nav,
}

/// Editing one entry: the draft, and the view that the edit started from.
#[derive(Clone, PartialEq, Debug)]
pub struct ProcessState<F> {
    pub home_state: HomeState,
    pub form_state: F,
}

impl<F> ProcessState<F> {
    /// Drops the draft and goes back to the view the edit started from.
    pub fn cancel(self) -> (r: HomeState)
        ensures
            r == self.home_state,
    {
        self.home_state
    }
}

pub type CreatePostNumberState = ProcessState<create_post_number::FormState>;

pub type CreateTaxIdState = ProcessState<create_tax_id::FormState>;

pub type CreateIdCardState = ProcessState<create_id_card::FormState>;

pub type CreateSocialSecurityNumberState = ProcessState<create_social_security_number::FormState>;

pub type CreateBankAccountState = ProcessState<create_bank_account::FormState>;

pub type CreateKeyValueItemState = ProcessState<create_key_value_item::FormState>;

/// The kinds of entry that an edit creates or replaces.
#[derive(Clone, Copy, PartialEq, Eq, Structural, Debug)]
pub enum Process {
    CreateTaxId,
    CreatePostNumber,
    CreateIdCard,
    CreateBankAccount,
    CreateSocialSecurityNumber,
    CreateKeyValueItem,
}

/// Viewing the profile, or editing exactly one entry of it: a second edit
/// cannot be held at the same time.
#[derive(Clone, PartialEq, Debug)]
pub enum MainState {
    Home(HomeState),
    CreateSocialSecurityNumber(CreateSocialSecurityNumberState),
    CreateTaxId(CreateTaxIdState),
    CreatePostNumber(CreatePostNumberState),
    CreateIdCard(CreateIdCardState),
    CreateBankAccount(CreateBankAccountState),
    CreateKeyValueItem(CreateKeyValueItemState),
}

impl MainState {
    /// The view on display, or the one that the running edit started from.
    pub open spec fn home(self) -> HomeState {
        match self {
            MainState::Home(h) => h,
            MainState::CreateSocialSecurityNumber(s) => s.home_state,
            MainState::CreateTaxId(s) => s.home_state,
            MainState::CreatePostNumber(s) => s.home_state,
            MainState::CreateIdCard(s) => s.home_state,
            MainState::CreateBankAccount(s) => s.home_state,
            MainState::CreateKeyValueItem(s) => s.home_state,
        }
    }

    /// The edit that is running, if one is.
    pub open spec fn process(self) -> Option<Process> {
        match self {
            MainState::Home(_) => None,
            MainState::CreateSocialSecurityNumber(_) => Some(Process::CreateSocialSecurityNumber),
            MainState::CreateTaxId(_) => Some(Process::CreateTaxId),
            MainState::CreatePostNumber(_) => Some(Process::CreatePostNumber),
            MainState::CreateIdCard(_) => Some(Process::CreateIdCard),
            MainState::CreateBankAccount(_) => Some(Process::CreateBankAccount),
            MainState::CreateKeyValueItem(_) => Some(Process::CreateKeyValueItem),
        }
    }

    /// Every field of the draft is empty and carries no error.
    pub open spec fn has_blank_draft(self) -> bool {
        match self {
            MainState::Home(_) => true,
            MainState::CreateSocialSecurityNumber(s) => s.form_state.input.is_blank(),
            MainState::CreateTaxId(s) => s.form_state.input.is_blank(),
            MainState::CreatePostNumber(s) => s.form_state.input.is_blank(),
            MainState::CreateIdCard(s) => s.form_state.id.is_blank()
                && s.form_state.valid_until.is_blank(),
            MainState::CreateBankAccount(s) => s.form_state.name.is_blank()
                && s.form_state.iban.is_blank(),
            MainState::CreateKeyValueItem(s) => s.form_state.key.is_blank()
                && s.form_state.value.is_blank(),
        }
    }

    pub fn is_home(&self) -> (r: bool)
        ensures
            r == (self.process() is None),
    {
        match self {
            MainState::Home(_) => true,
            _ => false,
        }
    }
}

/// Before and after the profile exists.
#[derive(Clone, PartialEq, Debug)]
pub enum AppState {
    Create(create_profile::FormState),
    Main(MainState),
}

impl AppState {
    /// No profile yet: the form for a new one, empty.
    pub fn new() -> (r: AppState)
        ensures
            r matches AppState::Create(f) && f.first_name.is_blank() && f.last_name.is_blank(),
    {
        AppState::Create(create_profile::FormState::new())
    }

    /// Viewing `profile`, at its first section.
    pub fn from_profile(profile: Profile) -> (r: AppState)
        ensures
            r == AppState::Main(MainState::Home(HomeState { profile, nav: Nav::Home })),
    {
        AppState::Main(MainState::Home(HomeState { profile, nav: Nav::Home }))
    }

    /// The state to start in: viewing the stored profile where there is one,
    /// else the form for a new profile.
    pub fn bootstrap(stored: Option<Profile>) -> (r: AppState)
        ensures
            match stored {
                Some(profile) => r == AppState::Main(
                    MainState::Home(HomeState { profile, nav: Nav::Home }),
                ),
                None => r matches AppState::Create(f) && f.first_name.is_blank()
                    && f.last_name.is_blank(),
            },
    {
        match stored {
            Some(profile) => AppState::from_profile(profile),
            None => AppState::new(),
        }
    }
}

} // verus!
