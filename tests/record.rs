use stammdaten::error::FormatError;
use stammdaten::id_card::{IdCard, IdCardNumber, Timestamp};
use stammdaten::post_number::PostNumber;
use stammdaten::profile::{BankAccount, KeyValueItem, Name, Profile};
use stammdaten::record::{IdCardRecord, ProfileRecord};
use stammdaten::social_security_number::SocialSecurityNumber;
use stammdaten::tax_id::TaxId;

fn full_profile() -> Profile {
    Profile {
        name: Name { first_name: "Test".into(), last_name: "Name".into() },
        id_card: Some(IdCard {
            card_number: IdCardNumber::parse("48328FGW9").unwrap(),
            expires_after: Timestamp { unix_seconds: 1_700_000_000, nanoseconds: 123_456_789 },
        }),
        social_security_number: Some(SocialSecurityNumber::parse("50 010101 N012").unwrap()),
        tax_id: Some(TaxId::from_u64(12_123_456_789).unwrap()),
        post_number: Some(PostNumber::from_u32(123_456_789).unwrap()),
        bank_accounts: vec![BankAccount {
            name: "Some Account Name".into(),
            iban: "DE10 1010 1010 1010 1010 10".into(),
        }],
        key_value_items: vec![KeyValueItem { key: "Versicherung".into(), value: "1234".into() }],
    }
}

#[test]
fn profile_record_round_trip_keeps_every_field() {
    let profile = full_profile();
    let record = profile.to_record();
    assert_eq!(record.social_security_number, Some("50 010101 N012".to_string()));
    assert_eq!(record.tax_id, Some(12_123_456_789));
    assert_eq!(record.post_number, Some(123_456_789));
    assert_eq!(record.id_card.as_ref().unwrap().card_number, "48328FGW9");
    let loaded = Profile::from_record(record).unwrap();
    assert_eq!(loaded, profile);
}

#[test]
fn empty_profile_record_round_trip() {
    let profile = Profile::new("Max".to_string(), "Mustermann".to_string());
    let record = profile.to_record();
    assert_eq!(record.id_card, None);
    assert_eq!(record.social_security_number, None);
    assert!(record.bank_accounts.is_empty());
    assert_eq!(Profile::from_record(record).unwrap(), profile);
}

#[test]
fn record_with_an_invalid_identifier_is_refused() {
    let base = full_profile().to_record();

    let mut record = base.clone();
    record.id_card = Some(IdCardRecord {
        card_number: "0O".to_string(),
        expires_after: Timestamp { unix_seconds: 0, nanoseconds: 0 },
    });
    assert_eq!(Profile::from_record(record), Err(FormatError::WrongLength));

    let mut record = base.clone();
    record.social_security_number = Some("99 010101 N012".to_string());
    assert_eq!(Profile::from_record(record), Err(FormatError::UnknownRegionCode));

    let mut record = base.clone();
    record.post_number = Some(12);
    assert_eq!(Profile::from_record(record), Err(FormatError::TooSmall));

    let mut record = base.clone();
    record.tax_id = Some(100_000_000_000);
    assert_eq!(Profile::from_record(record), Err(FormatError::TooLarge));

    let mut record = base;
    record.social_security_number = Some("50010101N01X".to_string());
    record.tax_id = Some(1);
    assert_eq!(Profile::from_record(record), Err(FormatError::InvalidCheckDigit));
}
