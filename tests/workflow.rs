use stammdaten::id_card::Timestamp;
use stammdaten::profile::{BankAccount, KeyValueItem, Profile};
use stammdaten::state::{AppState, HomeState, MainState, Nav, Process};
use stammdaten::tax_id::TaxId;
use stammdaten::workflow::{HomeController, MainController, NavController, WorkflowError};

fn viewing(profile: Profile) -> MainState {
    MainState::Home(HomeState { profile, nav: Nav::Home })
}

fn home_of(state: &MainState) -> &HomeState {
    match state {
        MainState::Home(home) => home,
        _ => panic!("not viewing the profile"),
    }
}

fn account(name: &str, iban: &str) -> BankAccount {
    BankAccount { name: name.to_string(), iban: iban.to_string() }
}

#[test]
fn create_profile_then_add_a_tax_id() {
    let mut app = AppState::new();
    if let AppState::Create(form) = &mut app {
        form.first_name.value = "Max".to_string();
        form.last_name.value = "Mustermann".to_string();
    }
    let saved = app.create_profile().unwrap();
    assert_eq!(saved, Profile::new("Max".to_string(), "Mustermann".to_string()));
    let mut main = match app {
        AppState::Main(main) => main,
        AppState::Create(_) => panic!("the profile was not created"),
    };
    {
        let home = home_of(&main);
        assert_eq!(home.profile.name.first_name, "Max");
        assert_eq!(home.profile.name.last_name, "Mustermann");
        assert_eq!(home.profile.id_card, None);
        assert_eq!(home.profile.social_security_number, None);
        assert_eq!(home.profile.tax_id, None);
        assert_eq!(home.profile.post_number, None);
        assert!(home.profile.bank_accounts.is_empty());
        assert!(home.profile.key_value_items.is_empty());
    }

    MainController::start_process(&mut main, Process::CreateTaxId).unwrap();
    if let MainState::CreateTaxId(state) = &mut main {
        state.form_state.input.value = "12123456789".to_string();
    }
    let saved = MainController::submit(&mut main).unwrap();
    let home = home_of(&main);
    assert_eq!(home.profile.tax_id, Some(TaxId::from_u64(12123456789).unwrap()));
    assert_eq!(saved, home.profile);
}

#[test]
fn create_profile_reports_each_empty_name() {
    let mut app = AppState::new();
    if let AppState::Create(form) = &mut app {
        form.last_name.value = "Mustermann".to_string();
    }
    assert_eq!(app.create_profile(), None);
    match &app {
        AppState::Create(form) => {
            assert!(form.first_name.error.is_some());
            assert_eq!(form.last_name.error, None);
            assert_eq!(form.last_name.value, "Mustermann");
        }
        AppState::Main(_) => panic!("a profile without a first name was created"),
    }
}

#[test]
fn bank_account_with_empty_iban_stays_in_the_draft() {
    let profile = Profile::new("Max".to_string(), "Mustermann".to_string());
    let mut main = viewing(profile.clone());
    MainController::start_process(&mut main, Process::CreateBankAccount).unwrap();
    if let MainState::CreateBankAccount(state) = &mut main {
        state.form_state.name.value = "Girokonto".to_string();
    }
    assert_eq!(MainController::submit(&mut main), None);
    match &main {
        MainState::CreateBankAccount(state) => {
            assert!(state.form_state.iban.error.is_some());
            assert_eq!(state.form_state.name.error, None);
            assert_eq!(state.home_state.profile, profile);
        }
        _ => panic!("the draft was left"),
    }
}

#[test]
fn bank_account_is_appended_and_removed_by_iban() {
    let mut main = viewing(Profile::new("Max".to_string(), "Mustermann".to_string()));
    for (name, iban) in [("A", "DE01"), ("B", "DE02"), ("C", "DE01")] {
        MainController::start_process(&mut main, Process::CreateBankAccount).unwrap();
        if let MainState::CreateBankAccount(state) = &mut main {
            state.form_state.name.value = name.to_string();
            state.form_state.iban.value = iban.to_string();
        }
        assert!(MainController::submit(&mut main).is_some());
    }
    assert_eq!(
        home_of(&main).profile.bank_accounts,
        vec![account("A", "DE01"), account("B", "DE02"), account("C", "DE01")]
    );
    let mut home = match main {
        MainState::Home(home) => home,
        _ => panic!("not viewing the profile"),
    };
    let saved = HomeController::remove_bank_account(&mut home, &"DE01".to_string());
    assert_eq!(home.profile.bank_accounts, vec![account("B", "DE02")]);
    assert_eq!(saved, home.profile);
}

#[test]
fn key_value_items_are_appended_and_removed_by_key() {
    let mut main = viewing(Profile::new("Max".to_string(), "Mustermann".to_string()));
    MainController::start_process(&mut main, Process::CreateKeyValueItem).unwrap();
    if let MainState::CreateKeyValueItem(state) = &mut main {
        state.form_state.key.value = "Versicherung".to_string();
    }
    assert_eq!(MainController::submit(&mut main), None);
    if let MainState::CreateKeyValueItem(state) = &mut main {
        assert!(state.form_state.value.error.is_some());
        state.form_state.value.value = "1234".to_string();
    }
    let saved = MainController::submit(&mut main).unwrap();
    let item = KeyValueItem { key: "Versicherung".to_string(), value: "1234".to_string() };
    assert_eq!(saved.key_value_items, vec![item]);
    let mut home = match main {
        MainState::Home(home) => home,
        _ => panic!("not viewing the profile"),
    };
    let saved = HomeController::remove_key_value_item(&mut home, &"Versicherung".to_string());
    assert!(saved.key_value_items.is_empty());
    assert!(home.profile.key_value_items.is_empty());
}

#[test]
fn second_edit_is_rejected() {
    let mut main = viewing(Profile::new("Max".to_string(), "Mustermann".to_string()));
    MainController::start_process(&mut main, Process::CreateTaxId).unwrap();
    if let MainState::CreateTaxId(state) = &mut main {
        state.form_state.input.value = "1".to_string();
    }
    let before = main.clone();
    assert_eq!(
        MainController::start_process(&mut main, Process::CreatePostNumber),
        Err(WorkflowError::AlreadyEditing)
    );
    assert_eq!(main, before);
}

#[test]
fn cancel_returns_to_the_captured_view() {
    let profile = Profile::new("Max".to_string(), "Mustermann".to_string());
    let mut main = MainState::Home(HomeState { profile: profile.clone(), nav: Nav::BankAccounts });
    MainController::start_process(&mut main, Process::CreatePostNumber).unwrap();
    if let MainState::CreatePostNumber(state) = &mut main {
        state.form_state.input.value = "123 456 789".to_string();
    }
    MainController::cancel(&mut main);
    assert_eq!(main, MainState::Home(HomeState { profile, nav: Nav::BankAccounts }));
}

#[test]
fn invalid_post_number_is_reported_and_nothing_saved() {
    let profile = Profile::new("Max".to_string(), "Mustermann".to_string());
    let mut main = viewing(profile.clone());
    MainController::start_process(&mut main, Process::CreatePostNumber).unwrap();
    if let MainState::CreatePostNumber(state) = &mut main {
        state.form_state.input.value = "12 34".to_string();
    }
    assert_eq!(MainController::submit(&mut main), None);
    match &main {
        MainState::CreatePostNumber(state) => {
            assert!(state.form_state.input.error.is_some());
            assert_eq!(state.form_state.input.value, "12 34");
            assert_eq!(state.home_state.profile, profile);
        }
        _ => panic!("the draft was left"),
    }
}

#[test]
fn social_security_number_and_post_number_are_set_and_cleared() {
    let mut main = viewing(Profile::new("Max".to_string(), "Mustermann".to_string()));
    MainController::start_process(&mut main, Process::CreateSocialSecurityNumber).unwrap();
    if let MainState::CreateSocialSecurityNumber(state) = &mut main {
        state.form_state.input.value = "50010101N012".to_string();
    }
    MainController::submit(&mut main).unwrap();
    MainController::start_process(&mut main, Process::CreatePostNumber).unwrap();
    if let MainState::CreatePostNumber(state) = &mut main {
        state.form_state.input.value = "123456789".to_string();
    }
    let saved = MainController::submit(&mut main).unwrap();
    assert_eq!(
        saved.social_security_number.unwrap().to_string(),
        "50 010101 N012"
    );
    assert_eq!(saved.post_number.unwrap().to_string(), "123 456 789");
    let mut home = match main {
        MainState::Home(home) => home,
        _ => panic!("not viewing the profile"),
    };
    let saved = HomeController::clear_social_security_number(&mut home);
    assert_eq!(saved.social_security_number, None);
    let saved = HomeController::clear_post_number(&mut home);
    assert_eq!(saved.post_number, None);
    let saved = HomeController::clear_tax_id(&mut home);
    assert_eq!(saved, Profile::new("Max".to_string(), "Mustermann".to_string()));
}

#[test]
fn id_card_draft_reads_the_expiry_day() {
    let mut main = viewing(Profile::new("Max".to_string(), "Mustermann".to_string()));
    MainController::start_process(&mut main, Process::CreateIdCard).unwrap();
    if let MainState::CreateIdCard(state) = &mut main {
        state.form_state.id.value = "48328FGW9".to_string();
        state.form_state.valid_until.value = "2030-12-31".to_string();
    }
    assert_eq!(MainController::submit(&mut main), None);
    if let MainState::CreateIdCard(state) = &mut main {
        assert!(state.form_state.valid_until.error.is_some());
        assert_eq!(state.form_state.id.error, None);
        state.form_state.valid_until.value = "31.12.2030".to_string();
    }
    let saved = MainController::submit(&mut main).unwrap();
    let card = saved.id_card.unwrap();
    assert_eq!(card.card_number.to_string(), "48328FGW9");
    assert_eq!(
        card.expires_after,
        Timestamp { unix_seconds: 1_924_905_600, nanoseconds: 0 }
    );
    let mut home = match main {
        MainState::Home(home) => home,
        _ => panic!("not viewing the profile"),
    };
    assert_eq!(HomeController::clear_id_card(&mut home).id_card, None);
}

#[test]
fn id_card_draft_reports_both_fields() {
    let mut main = viewing(Profile::new("Max".to_string(), "Mustermann".to_string()));
    MainController::start_process(&mut main, Process::CreateIdCard).unwrap();
    if let MainState::CreateIdCard(state) = &mut main {
        state.form_state.id.value = "0O".to_string();
        state.form_state.valid_until.value = "31.02.2030".to_string();
    }
    assert_eq!(MainController::submit(&mut main), None);
    match &main {
        MainState::CreateIdCard(state) => {
            assert!(state.form_state.id.error.is_some());
            assert!(state.form_state.valid_until.error.is_some());
        }
        _ => panic!("the draft was left"),
    }
}

#[test]
fn submit_and_cancel_on_the_view_change_nothing() {
    let profile = Profile::new("Max".to_string(), "Mustermann".to_string());
    let mut main = viewing(profile.clone());
    assert_eq!(MainController::submit(&mut main), None);
    MainController::cancel(&mut main);
    assert_eq!(main, viewing(profile));
}

#[test]
fn navigation_keeps_the_profile() {
    let profile = Profile::new("Max".to_string(), "Mustermann".to_string());
    let mut home = HomeState { profile: profile.clone(), nav: Nav::Home };
    NavController::navigate(&mut home, Nav::Miscellaneous);
    assert_eq!(home.nav, Nav::Miscellaneous);
    assert_eq!(home.profile, profile);
}

#[test]
fn bootstrap_picks_the_initial_state() {
    let profile = Profile::new("Max".to_string(), "Mustermann".to_string());
    assert_eq!(AppState::bootstrap(Some(profile.clone())), AppState::from_profile(profile));
    match AppState::bootstrap(None) {
        AppState::Create(form) => {
            assert!(form.first_name.value.is_empty());
            assert!(form.last_name.value.is_empty());
        }
        AppState::Main(_) => panic!("a profile appeared from nowhere"),
    }
    let mut app = AppState::bootstrap(Some(Profile::new("A".to_string(), "B".to_string())));
    assert_eq!(app.create_profile(), None);
}
