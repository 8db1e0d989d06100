//! The transitions of the edit workflow. Each one that changes the profile
//! hands back a copy of the new profile, to be stored.

use crate::id_card::{id_card_number_from_text, midnight_of_date, IdCard, Timestamp};
use crate::post_number::{post_number_from_text, PostNumber};
use crate::profile::{
    accounts_without_iban, fresh_profile, items_without_key, BankAccount, KeyValueItem, Name,
    Profile, ProfileView,
};
use crate::social_security_number::{social_security_number_from_text, SocialSecurityNumber};
use crate::state::{
    AppState, CreateBankAccountState, CreateIdCardState, CreateKeyValueItemState,
    CreatePostNumberState, CreateSocialSecurityNumberState, CreateTaxIdState, HomeState,
    MainState, Nav, Process, ProcessState,
};
use crate::tax_id::{tax_id_from_text, TaxId};
use crate::ui::{
    create_bank_account, create_id_card, create_key_value_item, create_post_number,
    create_social_security_number, create_tax_id,
};
use vstd::prelude::*;

verus! {

/// Why an edit could not be started.
#[derive(Clone, Copy, PartialEq, Eq, Structural, Debug)]
pub enum WorkflowError {
    /// Another edit is running; it has to be submitted or cancelled first.
    AlreadyEditing,
}

/// `after` views `profile`, in the section that `before` showed, and `saved`
/// holds a copy of it to be stored.
pub open spec fn commits(
    before: HomeState,
    after: MainState,
    saved: Option<Profile>,
    profile: ProfileView,
) -> bool {
    &&& after is Home
    &&& after.home().nav == before.nav
    &&& after.home().profile@ == profile
    &&& saved matches Some(p) && p@ == profile
}

impl MainState {
    /// What a submit of the running edit does: the new entry goes into the
    /// profile and the view comes back, or the draft stays with its errors
    /// reported and nothing is stored.
    pub open spec fn submitted(self, after: MainState, saved: Option<Profile>) -> bool {
        match self {
            MainState::Home(_) => after == self && saved is None,
            MainState::CreateTaxId(s) => {
                let h = s.home_state;
                let input = s.form_state.input;
                match tax_id_from_text(input.value@) {
                    Ok(v) => after.home().profile.tax_id matches Some(t) && t@ == v && commits(
                        h,
                        after,
                        saved,
                        ProfileView { tax_id: after.home().profile.tax_id, ..h.profile@ },
                    ),
                    Err(_) => after matches MainState::CreateTaxId(s2)
                        && s2.home_state == h && s2.form_state.input.reports(input, true) && saved is None,
                }
            },
            MainState::CreatePostNumber(s) => {
                let h = s.home_state;
                let input = s.form_state.input;
                match post_number_from_text(input.value@) {
                    Ok(v) => after.home().profile.post_number matches Some(n) && n@ == v
                        && commits(
                        h,
                        after,
                        saved,
                        ProfileView { post_number: after.home().profile.post_number, ..h.profile@ },
                    ),
                    Err(_) => after matches MainState::CreatePostNumber(s2)
                        && s2.home_state == h && s2.form_state.input.reports(input, true) && saved is None,
                }
            },
            MainState::CreateSocialSecurityNumber(s) => {
                let h = s.home_state;
                let input = s.form_state.input;
                match social_security_number_from_text(input.value@) {
                    Ok(v) => after.home().profile.social_security_number matches Some(n) && n@
                        == v && commits(
                        h,
                        after,
                        saved,
                        ProfileView {
                            social_security_number: after.home().profile.social_security_number,
                            ..h.profile@
                        },
                    ),
                    Err(_) => after matches MainState::CreateSocialSecurityNumber(
                        s2,
                    ) && s2.home_state == h && s2.form_state.input.reports(input, true) && saved is None,
                }
            },
            MainState::CreateIdCard(s) => {
                let h = s.home_state;
                let form = s.form_state;
                let expiry = midnight_of_date(form.valid_until.value@);
                if form.accepts(expiry) {
                    after.home().profile.id_card matches Some(c) && c.card_number@
                        == form.id.value@ && c.expires_after == (Timestamp {
                        unix_seconds: expiry->0,
                        nanoseconds: 0,
                    }) && commits(
                        h,
                        after,
                        saved,
                        ProfileView { id_card: after.home().profile.id_card, ..h.profile@ },
                    )
                } else {
                    after matches MainState::CreateIdCard(s2) && s2.home_state
                        == h && s2.form_state.id.reports(
                        form.id,
                        id_card_number_from_text(form.id.value@) is Err,
                    ) && s2.form_state.valid_until.reports(form.valid_until, expiry is None) && saved is None
                }
            },
            MainState::CreateBankAccount(s) => {
                let h = s.home_state;
                let form = s.form_state;
                if form.is_complete() {
                    commits(
                        h,
                        after,
                        saved,
                        ProfileView {
                            bank_accounts: h.profile@.bank_accounts.push(
                                BankAccount { name: form.name.value, iban: form.iban.value },
                            ),
                            ..h.profile@
                        },
                    )
                } else {
                    after matches MainState::CreateBankAccount(s2)
                        && s2.home_state == h && s2.form_state.name.reports(
                        form.name,
                        form.name.value@.len() == 0,
                    ) && s2.form_state.iban.reports(form.iban, form.iban.value@.len() == 0) && saved is None
                }
            },
            MainState::CreateKeyValueItem(s) => {
                let h = s.home_state;
                let form = s.form_state;
                if form.is_complete() {
                    commits(
                        h,
                        after,
                        saved,
                        ProfileView {
                            key_value_items: h.profile@.key_value_items.push(
                                KeyValueItem { key: form.key.value, value: form.value.value },
                            ),
                            ..h.profile@
                        },
                    )
                } else {
                    after matches MainState::CreateKeyValueItem(s2)
                        && s2.home_state == h && s2.form_state.key.reports(
                        form.key,
                        form.key.value@.len() == 0,
                    ) && s2.form_state.value.reports(form.value, form.value.value@.len() == 0) && saved is None
                }
            },
        }
    }

    /// A stand-in value, held for a moment while the real state is taken apart.
    fn placeholder() -> MainState {
        MainState::Home(HomeState { profile: Profile::new(String::new(), String::new()), nav: Nav::Home })
    }
}

/// Starts, cancels and submits the edits.
pub struct MainController;

impl MainController {
    /// Starts an edit of the given kind with an empty draft. Only from the view:
    /// while another edit runs, nothing changes and `AlreadyEditing` comes back.
    pub fn start_process(data: &mut MainState, process: Process) -> (r: Result<(), WorkflowError>)
        ensures
            old(data).process() is None ==> r is Ok && final(data).process() == Some(process)
                && final(data).home() == old(data).home() && final(data).has_blank_draft(),
            old(data).process() is Some ==> r == Err::<(), WorkflowError>(
                WorkflowError::AlreadyEditing,
            ) && *final(data) == *old(data),
    {
        if !data.is_home() {
            return Err(WorkflowError::AlreadyEditing);
        }
        let mut current = MainState::placeholder();
        std::mem::swap(data, &mut current);
        let next = match current {
            MainState::Home(home_state) => match process {
                Process::CreateTaxId => MainState::CreateTaxId(
                    ProcessState { home_state, form_state: create_tax_id::FormState::new() },
                ),
                Process::CreatePostNumber => MainState::CreatePostNumber(
                    ProcessState { home_state, form_state: create_post_number::FormState::new() },
                ),
                Process::CreateIdCard => MainState::CreateIdCard(
                    ProcessState { home_state, form_state: create_id_card::FormState::new() },
                ),
                Process::CreateBankAccount => MainState::CreateBankAccount(
                    ProcessState { home_state, form_state: create_bank_account::FormState::new() },
                ),
                Process::CreateSocialSecurityNumber => MainState::CreateSocialSecurityNumber(
                    ProcessState {
                        home_state,
                        form_state: create_social_security_number::FormState::new(),
                    },
                ),
                Process::CreateKeyValueItem => MainState::CreateKeyValueItem(
                    ProcessState {
                        home_state,
                        form_state: create_key_value_item::FormState::new(),
                    },
                ),
            },
            other => other,
        };
        *data = next;
        Ok(())
    }

    /// Drops the running edit and goes back, unchanged, to the view it started
    /// from. On the view itself nothing changes.
    pub fn cancel(data: &mut MainState)
        ensures
            *final(data) == MainState::Home(old(data).home()),
    {
        let mut current = MainState::placeholder();
        std::mem::swap(data, &mut current);
        let home = match current {
            MainState::Home(h) => h,
            MainState::CreateSocialSecurityNumber(s) => s.cancel(),
            MainState::CreateTaxId(s) => s.cancel(),
            MainState::CreatePostNumber(s) => s.cancel(),
            MainState::CreateIdCard(s) => s.cancel(),
            MainState::CreateBankAccount(s) => s.cancel(),
            MainState::CreateKeyValueItem(s) => s.cancel(),
        };
        *data = MainState::Home(home);
    }

    /// Checks the draft of the running edit. Where it checks out, the entry goes
    /// into the profile, the view comes back and the new profile is returned to
    /// be stored; else the draft stays, with its errors, and nothing is returned.
    pub fn submit(data: &mut MainState) -> (saved: Option<Profile>)
        ensures
            old(data).submitted(*final(data), saved),
    {
        if data.is_home() {
            return None;
        }
        let mut current = MainState::placeholder();
        std::mem::swap(data, &mut current);
        let (next, saved) = match current {
            MainState::Home(h) => (MainState::Home(h), None),
            MainState::CreateTaxId(mut s) => match s.form_state.submit() {
                Some(value) => {
                    let (home, saved) = CreateTaxIdController::created(s, value);
                    (MainState::Home(home), Some(saved))
                },
                None => (MainState::CreateTaxId(s), None),
            },
            MainState::CreatePostNumber(mut s) => match s.form_state.submit() {
                Some(value) => {
                    let (home, saved) = CreatePostNumberController::created(s, value);
                    (MainState::Home(home), Some(saved))
                },
                None => (MainState::CreatePostNumber(s), None),
            },
            MainState::CreateSocialSecurityNumber(mut s) => match s.form_state.submit() {
                Some(value) => {
                    let (home, saved) = CreateSocialSecurityNumberController::created(s, value);
                    (MainState::Home(home), Some(saved))
                },
                None => (MainState::CreateSocialSecurityNumber(s), None),
            },
            MainState::CreateIdCard(mut s) => match s.form_state.submit() {
                Some(value) => {
                    let (home, saved) = CreateIdCardController::created(s, value);
                    (MainState::Home(home), Some(saved))
                },
                None => (MainState::CreateIdCard(s), None),
            },
            MainState::CreateBankAccount(mut s) => match s.form_state.submit() {
                Some(value) => {
                    let (home, saved) = CreateBankAccountController::created(s, value);
                    (MainState::Home(home), Some(saved))
                },
                None => (MainState::CreateBankAccount(s), None),
            },
            MainState::CreateKeyValueItem(mut s) => match s.form_state.submit() {
                Some(value) => {
                    let (home, saved) = CreateKeyValueItemController::created(s, value);
                    (MainState::Home(home), Some(saved))
                },
                None => (MainState::CreateKeyValueItem(s), None),
            },
        };
        *data = next;
        saved
    }
}

/// Ends the edit of a tax ID.
pub struct CreateTaxIdController;

impl CreateTaxIdController {
    /// The view the edit started from, its profile holding `tax_id`, and a copy
    /// of that profile.
    pub fn created(data: CreateTaxIdState, tax_id: TaxId) -> (r: (HomeState, Profile))
        ensures
            r.0.nav == data.home_state.nav,
            r.0.profile@ == (ProfileView { tax_id: Some(tax_id), ..data.home_state.profile@ }),
            r.1@ == r.0.profile@,
    {
        let mut home = data.home_state;
        home.profile.tax_id = Some(tax_id);
        let saved = home.profile.copy();
        (home, saved)
    }
}

/// Ends the edit of a post number.
pub struct CreatePostNumberController;

impl CreatePostNumberController {
    /// The view the edit started from, its profile holding `post_number`, and a
    /// copy of that profile.
    pub fn created(data: CreatePostNumberState, post_number: PostNumber) -> (r: (HomeState, Profile))
        ensures
            r.0.nav == data.home_state.nav,
            r.0.profile@ == (ProfileView {
                post_number: Some(post_number),
                ..data.home_state.profile@
            }),
            r.1@ == r.0.profile@,
    {
        let mut home = data.home_state;
        home.profile.post_number = Some(post_number);
        let saved = home.profile.copy();
        (home, saved)
    }
}

/// Ends the edit of a social security number.
pub struct CreateSocialSecurityNumberController;

impl CreateSocialSecurityNumberController {
    /// The view the edit started from, its profile holding `number`, and a copy
    /// of that profile.
    pub fn created(data: CreateSocialSecurityNumberState, number: SocialSecurityNumber) -> (r: (
        HomeState,
        Profile,
    ))
        ensures
            r.0.nav == data.home_state.nav,
            r.0.profile@ == (ProfileView {
                social_security_number: Some(number),
                ..data.home_state.profile@
            }),
            r.1@ == r.0.profile@,
    {
        let mut home = data.home_state;
        home.profile.social_security_number = Some(number);
        let saved = home.profile.copy();
        (home, saved)
    }
}

/// Ends the edit of an identity card.
pub struct CreateIdCardController;

impl CreateIdCardController {
    /// The view the edit started from, its profile holding `id_card`, and a copy
    /// of that profile.
    pub fn created(data: CreateIdCardState, id_card: IdCard) -> (r: (HomeState, Profile))
        ensures
            r.0.nav == data.home_state.nav,
            r.0.profile@ == (ProfileView { id_card: Some(id_card), ..data.home_state.profile@ }),
            r.1@ == r.0.profile@,
    {
        let mut home = data.home_state;
        home.profile.id_card = Some(id_card);
        let saved = home.profile.copy();
        (home, saved)
    }
}

/// Ends the edit of a bank account.
pub struct CreateBankAccountController;

impl CreateBankAccountController {
    /// The view the edit started from, `account` added at the end of its
    /// profile's accounts, and a copy of that profile. An account with the same
    /// IBAN may already be there: both are kept.
    pub fn created(data: CreateBankAccountState, account: BankAccount) -> (r: (HomeState, Profile))
        ensures
            r.0.nav == data.home_state.nav,
            r.0.profile@ == (ProfileView {
                bank_accounts: data.home_state.profile@.bank_accounts.push(account),
                ..data.home_state.profile@
            }),
            r.1@ == r.0.profile@,
    {
        let mut home = data.home_state;
        home.profile.bank_accounts.push(account);
        let saved = home.profile.copy();
        (home, saved)
    }
}

/// Ends the edit of a note.
pub struct CreateKeyValueItemController;

impl CreateKeyValueItemController {
    /// The view the edit started from, `item` added at the end of its profile's
    /// notes, and a copy of that profile.
    pub fn created(data: CreateKeyValueItemState, item: KeyValueItem) -> (r: (HomeState, Profile))
        ensures
            r.0.nav == data.home_state.nav,
            r.0.profile@ == (ProfileView {
                key_value_items: data.home_state.profile@.key_value_items.push(item),
                ..data.home_state.profile@
            }),
            r.1@ == r.0.profile@,
    {
        let mut home = data.home_state;
        home.profile.key_value_items.push(item);
        let saved = home.profile.copy();
        (home, saved)
    }
}

/// Changes the profile from the view, with no draft in between.
pub struct HomeController;

impl HomeController {
    pub fn clear_id_card(data: &mut HomeState) -> (saved: Profile)
        ensures
            final(data).nav == old(data).nav,
            final(data).profile@ == (ProfileView { id_card: None, ..old(data).profile@ }),
            saved@ == final(data).profile@,
    {
        data.profile.id_card = None;
        data.profile.copy()
    }

    pub fn clear_social_security_number(data: &mut HomeState) -> (saved: Profile)
        ensures
            final(data).nav == old(data).nav,
            final(data).profile@ == (ProfileView {
                social_security_number: None,
                ..old(data).profile@
            }),
            saved@ == final(data).profile@,
    {
        data.profile.social_security_number = None;
        data.profile.copy()
    }

    pub fn clear_tax_id(data: &mut HomeState) -> (saved: Profile)
        ensures
            final(data).nav == old(data).nav,
            final(data).profile@ == (ProfileView { tax_id: None, ..old(data).profile@ }),
            saved@ == final(data).profile@,
    {
        data.profile.tax_id = None;
        data.profile.copy()
    }

    pub fn clear_post_number(data: &mut HomeState) -> (saved: Profile)
        ensures
            final(data).nav == old(data).nav,
            final(data).profile@ == (ProfileView { post_number: None, ..old(data).profile@ }),
            saved@ == final(data).profile@,
    {
        data.profile.post_number = None;
        data.profile.copy()
    }

    /// Takes out every bank account with the IBAN `iban`.
    pub fn remove_bank_account(data: &mut HomeState, iban: &String) -> (saved: Profile)
        ensures
            final(data).nav == old(data).nav,
            final(data).profile@ == (ProfileView {
                bank_accounts: accounts_without_iban(old(data).profile@.bank_accounts, iban@),
                ..old(data).profile@
            }),
            saved@ == final(data).profile@,
    {
        data.profile.remove_bank_account(iban);
        data.profile.copy()
    }

    /// Takes out every note with the key `key`.
    pub fn remove_key_value_item(data: &mut HomeState, key: &String) -> (saved: Profile)
        ensures
            final(data).nav == old(data).nav,
            final(data).profile@ == (ProfileView {
                key_value_items: items_without_key(old(data).profile@.key_value_items, key@),
                ..old(data).profile@
            }),
            saved@ == final(data).profile@,
    {
        data.profile.remove_key_value_item(key);
        data.profile.copy()
    }
}

/// Switches the section on display.
pub struct NavController;

impl NavController {
    pub fn navigate(data: &mut HomeState, nav: Nav)
        ensures
            final(data).profile == old(data).profile,
            final(data).nav == nav,
    {
        data.nav = nav;
    }
}

impl AppState {
    /// Submits the form for a new profile. Where both names were typed, the new
    /// profile is viewed at its first section and a copy of it is returned to be
    /// stored; else the form stays, each empty name reported. Once a profile
    /// exists nothing changes.
    pub fn create_profile(&mut self) -> (saved: Option<Profile>)
        ensures
            match *old(self) {
                AppState::Main(_) => *final(self) == *old(self) && saved is None,
                AppState::Create(f) => if f.is_complete() {
                    let name = Name { first_name: f.first_name.value, last_name: f.last_name.value };
                    &&& *final(self) matches AppState::Main(MainState::Home(h))
                    &&& h.nav == Nav::Home
                    &&& h.profile@ == fresh_profile(name)
                    &&& saved matches Some(p) && p@ == fresh_profile(name)
                } else {
                    &&& *final(self) matches AppState::Create(f2)
                    &&& f2.first_name.reports(f.first_name, f.first_name.value@.len() == 0)
                    &&& f2.last_name.reports(f.last_name, f.last_name.value@.len() == 0)
                    &&& saved is None
                },
            },
    {
        match self {
            AppState::Main(_) => None,
            AppState::Create(form) => match form.submit() {
                Some(profile) => {
                    let saved = profile.copy();
                    *self = AppState::from_profile(profile);
                    Some(saved)
                },
                None => None,
            },
        }
    }
}

} // verus!
