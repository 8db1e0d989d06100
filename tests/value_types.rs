use stammdaten::error::FormatError;
use stammdaten::id_card::{IdCard, IdCardNumber, Timestamp};
use stammdaten::post_number::PostNumber;
use stammdaten::social_security_number::SocialSecurityNumber;
use stammdaten::tax_id::TaxId;
use std::time::{SystemTime, UNIX_EPOCH};

fn now() -> Timestamp {
    let since = SystemTime::now().duration_since(UNIX_EPOCH).unwrap();
    Timestamp {
        unix_seconds: since.as_secs() as i64,
        nanoseconds: since.subsec_nanos(),
    }
}

fn create_id_card(expires_after: Timestamp) -> IdCard {
    IdCard {
        card_number: IdCardNumber::parse("48328FGW9").unwrap(),
        expires_after,
    }
}

#[test]
fn should_correctly_cast_to_string() {
    let post_number = PostNumber::from_u32(123456789).unwrap();

    assert_eq!("123 456 789", post_number.to_string());
}

#[test]
fn social_security_number_should_parse_valid_social_security_numbers() {
    SocialSecurityNumber::parse("50 01 0101 N012").unwrap();
    SocialSecurityNumber::parse("50010101N012").unwrap();
    SocialSecurityNumber::parse("50  010101N012").unwrap();
}

#[test]
fn should_correctly_print_the_social_security_number_for_bund_braunschweig_hannover() {
    let value = SocialSecurityNumber::parse("50 010 101 N012").unwrap();

    assert_eq!(value.to_string(), "50 010101 N012")
}

#[test]
fn should_correctly_print_the_social_security_number_for_schleswig_holstein() {
    let value = SocialSecurityNumber::parse("26 010 101 N012").unwrap();

    assert_eq!(value.to_string(), "26 010101 N012")
}

#[test]
fn should_correctly_print_the_social_security_number() {
    let value = SocialSecurityNumber::parse("50 010 101 N012").unwrap();

    assert_eq!(value.to_string(), "50 010101 N012")
}

#[test]
fn should_reject_invalid_id_card_numbers() {
    let value = IdCardNumber::parse("0O");

    assert_eq!(value.is_err(), true);
}

#[test]
fn should_correctly_detect_expired_id_cards() {
    let mut expires_after = now();
    expires_after.unix_seconds -= 60;
    let card = create_id_card(expires_after);

    assert_eq!(card.has_expired(), true);
}

#[test]
fn should_correctly_detect_unexpired_id_cards() {
    let mut expires_after = now();
    expires_after.unix_seconds += 60;
    let card = create_id_card(expires_after);

    assert_eq!(card.has_expired(), false);
}

#[test]
fn id_card_number_accepts_nine_symbols_of_the_alphabet() {
    let number = IdCardNumber::parse("CFGHJKLM1").unwrap();
    assert_eq!(number.to_string(), "CFGHJKLM1");
    assert!(IdCardNumber::parse("NPRTVWXYZ").is_ok());
    assert!(IdCardNumber::parse("123456789").is_ok());
}

#[test]
fn id_card_number_rejects_other_texts() {
    assert_eq!(IdCardNumber::parse("9321CFG"), Err(FormatError::WrongLength));
    assert_eq!(IdCardNumber::parse(""), Err(FormatError::WrongLength));
    assert_eq!(IdCardNumber::parse("48328FGW9X"), Err(FormatError::WrongLength));
    assert_eq!(IdCardNumber::parse("48328FGW0"), Err(FormatError::InvalidCharacter));
    assert_eq!(IdCardNumber::parse("48328FGWA"), Err(FormatError::InvalidCharacter));
    assert_eq!(IdCardNumber::parse("48328fgw9"), Err(FormatError::InvalidCharacter));
    assert_eq!(IdCardNumber::parse("48328 GW9"), Err(FormatError::InvalidCharacter));
}

#[test]
fn id_card_expiry_at_given_instants() {
    let expires_after = Timestamp { unix_seconds: 1_000, nanoseconds: 500 };
    let card = create_id_card(expires_after);
    assert!(card.has_expired_at(Timestamp { unix_seconds: 1_000, nanoseconds: 500 }));
    assert!(card.has_expired_at(Timestamp { unix_seconds: 1_060, nanoseconds: 0 }));
    assert!(!card.has_expired_at(Timestamp { unix_seconds: 940, nanoseconds: 0 }));
    assert_eq!(
        card.time_until_expiration_at(Timestamp { unix_seconds: 940, nanoseconds: 0 }),
        60_000_000_500
    );
    assert_eq!(
        card.time_until_expiration_at(Timestamp { unix_seconds: 1_001, nanoseconds: 500 }),
        -1_000_000_000
    );
}

#[test]
fn id_card_time_until_expiration_uses_the_clock() {
    let mut expires_after = now();
    expires_after.unix_seconds += 3_600;
    let card = create_id_card(expires_after);
    let left = card.time_until_expiration();
    assert!(left > 3_500 * 1_000_000_000 && left <= 3_600 * 1_000_000_000);
}

#[test]
fn post_number_groups_digits_in_threes() {
    let value = PostNumber::parse("123 456789").unwrap();
    assert_eq!(value.to_string(), "123 456 789");
    assert_eq!(value.value(), 123_456_789);
    assert_eq!(PostNumber::parse("100000007").unwrap().to_string(), "100 000 007");
}

#[test]
fn post_number_range_and_format() {
    assert_eq!(PostNumber::from_u32(99_999_999), Err(FormatError::TooSmall));
    assert_eq!(PostNumber::from_u32(1_000_000_000), Err(FormatError::TooLarge));
    assert_eq!(PostNumber::from_u32(100_000_000).unwrap().value(), 100_000_000);
    assert_eq!(PostNumber::from_u32(999_999_999).unwrap().value(), 999_999_999);
    assert_eq!(PostNumber::parse("12345678"), Err(FormatError::TooSmall));
    assert_eq!(PostNumber::parse("1234567890"), Err(FormatError::TooLarge));
    assert_eq!(PostNumber::parse("123 45x 789"), Err(FormatError::NotANumber));
    assert_eq!(PostNumber::parse("   "), Err(FormatError::NotANumber));
}

#[test]
fn tax_id_tolerates_white_space() {
    let value = TaxId::parse("12 123 456 789").unwrap();
    assert_eq!(value.to_string(), "12123456789");
    assert_eq!(value.value(), 12_123_456_789);
    assert_eq!(TaxId::parse("\t12123\n456789 ").unwrap().value(), 12_123_456_789);
}

#[test]
fn leading_plus_sign_is_accepted() {
    assert_eq!(TaxId::parse("+12123456789").unwrap().value(), 12_123_456_789);
    assert_eq!(TaxId::parse("+ 12 123 456 789").unwrap().to_string(), "12123456789");
    assert_eq!(PostNumber::parse("+123456789").unwrap().to_string(), "123 456 789");
    assert_eq!(TaxId::parse("+"), Err(FormatError::NotANumber));
    assert_eq!(TaxId::parse("++12123456789"), Err(FormatError::NotANumber));
    assert_eq!(TaxId::parse("-12123456789"), Err(FormatError::NotANumber));
    assert_eq!(PostNumber::parse("123+456789"), Err(FormatError::NotANumber));
    assert_eq!(PostNumber::parse("+12345678"), Err(FormatError::TooSmall));
}

#[test]
fn tax_id_rejects_short_long_and_non_numbers() {
    assert_eq!(TaxId::parse("1"), Err(FormatError::TooSmall));
    assert_eq!(TaxId::parse("121234567890"), Err(FormatError::TooLarge));
    assert_eq!(TaxId::parse("99999999999999999999999"), Err(FormatError::TooLarge));
    assert_eq!(TaxId::parse(""), Err(FormatError::NotANumber));
    assert_eq!(TaxId::parse("12-123456789"), Err(FormatError::NotANumber));
    assert_eq!(TaxId::from_u64(9_999_999_999), Err(FormatError::TooSmall));
    assert_eq!(TaxId::from_u64(100_000_000_000), Err(FormatError::TooLarge));
    assert_eq!(TaxId::from_u64(10_000_000_000).unwrap().to_string(), "10000000000");
    assert_eq!(TaxId::from_u64(99_999_999_999).unwrap().to_string(), "99999999999");
}

#[test]
fn social_security_number_canonical_round_trip() {
    let value = SocialSecurityNumber::parse("50 010101 N012").unwrap();
    assert_eq!(value.to_string(), "50 010101 N012");
    let again = SocialSecurityNumber::parse(&value.to_string()).unwrap();
    assert_eq!(again, value);
    assert_eq!(
        SocialSecurityNumber::parse("02 311299 A995").unwrap().to_string(),
        "02 311299 A995"
    );
    assert_eq!(
        SocialSecurityNumber::parse("89 000000 Z000").unwrap().to_string(),
        "89 000000 Z000"
    );
}

#[test]
fn social_security_number_errors() {
    assert_eq!(
        SocialSecurityNumber::parse("99 010101 N012"),
        Err(FormatError::UnknownRegionCode)
    );
    assert_eq!(
        SocialSecurityNumber::parse("01 010101 N012"),
        Err(FormatError::UnknownRegionCode)
    );
    assert_eq!(
        SocialSecurityNumber::parse("5X 010101 N012"),
        Err(FormatError::UnknownRegionCode)
    );
    assert_eq!(
        SocialSecurityNumber::parse("50 010101 N01"),
        Err(FormatError::WrongLength)
    );
    assert_eq!(
        SocialSecurityNumber::parse("50 010101 N0123"),
        Err(FormatError::WrongLength)
    );
    assert_eq!(
        SocialSecurityNumber::parse("50 0A0101 N012"),
        Err(FormatError::InvalidDayOfBirth)
    );
    assert_eq!(
        SocialSecurityNumber::parse("50 01A101 N012"),
        Err(FormatError::InvalidMonthOfBirth)
    );
    assert_eq!(
        SocialSecurityNumber::parse("50 0101A1 N012"),
        Err(FormatError::InvalidYearOfBirth)
    );
    assert_eq!(
        SocialSecurityNumber::parse("50 010101 NX12"),
        Err(FormatError::InvalidSerialNumber)
    );
    assert_eq!(
        SocialSecurityNumber::parse("50 010101 N01X"),
        Err(FormatError::InvalidCheckDigit)
    );
}

#[test]
fn error_messages_are_sentences() {
    assert!(FormatError::UnknownRegionCode.message().ends_with('.'));
    assert!(!FormatError::TooSmall.message().is_empty());
}
