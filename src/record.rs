//! The stored form of a profile: the same content in plain text and numbers,
//! as the profile file holds it. Reading a record checks every identifier again,
//! so a damaged file cannot bring an invalid value in.

use crate::error::FormatError;
use crate::id_card::{id_card_number_from_text, IdCard, IdCardNumber, Timestamp};
use crate::post_number::{post_number_from_number, PostNumber};
use crate::profile::{copy_accounts, copy_items, BankAccount, KeyValueItem, Name, Profile};
use crate::social_security_number::{
    lemma_social_security_number_text_round_trip, social_security_number_from_text,
    social_security_number_text, SocialSecurityNumber, SocialSecurityNumberView,
};
use crate::tax_id::{tax_id_from_number, TaxId};
use vstd::prelude::*;

verus! {

/// An identity card as text and instant.
pub struct IdCardModel {
    pub card_number: Seq<char>,
    pub expires_after: Timestamp,
}

/// What a profile holds, each identifier seen through its value.
pub struct ProfileModel {
    pub name: Name,
    pub id_card: Option<IdCardModel>,
    pub social_security_number: Option<SocialSecurityNumberView>,
    pub post_number: Option<nat>,
    pub tax_id: Option<nat>,
    pub bank_accounts: Seq<BankAccount>,
    pub key_value_items: Seq<KeyValueItem>,
}

impl ProfileModel {
    /// Every identifier satisfies the rules of its type.
    pub open spec fn is_valid(self) -> bool {
        &&& (self.id_card matches Some(c) ==> id_card_number_from_text(c.card_number) is Ok)
        &&& (self.social_security_number matches Some(v) ==> v.is_valid())
        &&& (self.post_number matches Some(n) ==> post_number_from_number(n) is Ok)
        &&& (self.tax_id matches Some(n) ==> tax_id_from_number(n) is Ok)
    }
}

/// What a record holds.
pub struct ProfileRecordView {
    pub name: Name,
    pub id_card: Option<IdCardModel>,
    pub social_security_number: Option<Seq<char>>,
    pub post_number: Option<nat>,
    pub tax_id: Option<nat>,
    pub bank_accounts: Seq<BankAccount>,
    pub key_value_items: Seq<KeyValueItem>,
}

/// The stored form of an identity card.
#[derive(Clone, PartialEq, Eq, Debug)]
pub struct IdCardRecord {
    pub card_number: String,
    pub expires_after: Timestamp,
}

/// The stored form of a profile: the social security number as its canonical
/// text, the post number and the tax ID as numbers.
#[derive(Clone, PartialEq, Eq, Debug)]
pub struct ProfileRecord {
    pub name: Name,
    pub id_card: Option<IdCardRecord>,
    pub social_security_number: Option<String>,
    pub post_number: Option<u32>,
    pub tax_id: Option<u64>,
    pub bank_accounts: Vec<BankAccount>,
    pub key_value_items: Vec<KeyValueItem>,
}

impl View for ProfileRecord {
    type V = ProfileRecordView;

    open spec fn view(&self) -> ProfileRecordView {
        ProfileRecordView {
            name: self.name,
            id_card: match self.id_card {
                Some(c) => Some(
                    IdCardModel { card_number: c.card_number@, expires_after: c.expires_after },
                ),
                None => None,
            },
            social_security_number: match self.social_security_number {
                Some(s) => Some(s@),
                None => None,
            },
            post_number: match self.post_number {
                Some(n) => Some(n as nat),
                None => None,
            },
            tax_id: match self.tax_id {
                Some(n) => Some(n as nat),
                None => None,
            },
            bank_accounts: self.bank_accounts@,
            key_value_items: self.key_value_items@,
        }
    }
}

/// The record that stores the profile `m`.
pub open spec fn encode(m: ProfileModel) -> ProfileRecordView {
    ProfileRecordView {
        name: m.name,
        id_card: m.id_card,
        social_security_number: match m.social_security_number {
            Some(v) => Some(social_security_number_text(v)),
            None => None,
        },
        post_number: m.post_number,
        tax_id: m.tax_id,
        bank_accounts: m.bank_accounts,
        key_value_items: m.key_value_items,
    }
}

/// The profile that the record `r` is read as, or the first identifier that
/// does not check out, in the order card number, social security number, post
/// number, tax ID.
pub open spec fn decode(r: ProfileRecordView) -> Result<ProfileModel, FormatError> {
    let card = match r.id_card {
        Some(c) => match id_card_number_from_text(c.card_number) {
            Ok(_) => Ok(Some(c)),
            Err(e) => Err(e),
        },
        None => Ok(None),
    };
    let ssn = match r.social_security_number {
        Some(t) => match social_security_number_from_text(t) {
            Ok(v) => Ok(Some(v)),
            Err(e) => Err(e),
        },
        None => Ok(None),
    };
    let post = match r.post_number {
        Some(n) => match post_number_from_number(n) {
            Ok(v) => Ok(Some(v)),
            Err(e) => Err(e),
        },
        None => Ok(None),
    };
    let tax = match r.tax_id {
        Some(n) => match tax_id_from_number(n) {
            Ok(v) => Ok(Some(v)),
            Err(e) => Err(e),
        },
        None => Ok(None),
    };
    if card is Err {
        Err(card->Err_0)
    } else if ssn is Err {
        Err(ssn->Err_0)
    } else if post is Err {
        Err(post->Err_0)
    } else if tax is Err {
        Err(tax->Err_0)
    } else {
        Ok(
            ProfileModel {
                name: r.name,
                id_card: card->Ok_0,
                social_security_number: ssn->Ok_0,
                post_number: post->Ok_0,
                tax_id: tax->Ok_0,
                bank_accounts: r.bank_accounts,
                key_value_items: r.key_value_items,
            },
        )
    }
}

/// Storing a valid profile and reading the record back gives the same profile.
pub proof fn lemma_record_round_trip(m: ProfileModel)
    requires
        m.is_valid(),
    ensures
        decode(encode(m)) == Ok::<ProfileModel, FormatError>(m),
{
    if let Some(v) = m.social_security_number {
        lemma_social_security_number_text_round_trip(v);
    }
}

impl Profile {
    pub open spec fn model(self) -> ProfileModel {
        ProfileModel {
            name: self.name,
            id_card: match self.id_card {
                Some(c) => Some(
                    IdCardModel { card_number: c.card_number@, expires_after: c.expires_after },
                ),
                None => None,
            },
            social_security_number: match self.social_security_number {
                Some(n) => Some(n@),
                None => None,
            },
            post_number: match self.post_number {
                Some(n) => Some(n@),
                None => None,
            },
            tax_id: match self.tax_id {
                Some(t) => Some(t@),
                None => None,
            },
            bank_accounts: self.bank_accounts@,
            key_value_items: self.key_value_items@,
        }
    }

    /// The stored form of the profile. Every profile is valid, so reading the
    /// record back gives the same profile (see `lemma_record_round_trip`).
    pub fn to_record(&self) -> (r: ProfileRecord)
        ensures
            r@ == encode(self.model()),
            self.model().is_valid(),
            decode(r@) == Ok::<ProfileModel, FormatError>(self.model()),
    {
        let id_card = match &self.id_card {
            Some(card) => Some(
                IdCardRecord {
                    card_number: card.card_number.to_string(),
                    expires_after: card.expires_after,
                },
            ),
            None => None,
        };
        let social_security_number = match &self.social_security_number {
            Some(n) => Some(n.to_string()),
            None => None,
        };
        let post_number = match &self.post_number {
            Some(n) => Some(n.value()),
            None => None,
        };
        let tax_id = match &self.tax_id {
            Some(t) => Some(t.value()),
            None => None,
        };
        let r = ProfileRecord {
            name: self.name.copy(),
            id_card,
            social_security_number,
            post_number,
            tax_id,
            bank_accounts: copy_accounts(&self.bank_accounts),
            key_value_items: copy_items(&self.key_value_items),
        };
        proof {
            assert(r@ =~= encode(self.model()));
            lemma_record_round_trip(self.model());
        }
        r
    }

    /// Reads a profile from its stored form, checking every identifier again.
    pub fn from_record(record: ProfileRecord) -> (r: Result<Profile, FormatError>)
        ensures
            match decode(record@) {
                Ok(m) => r matches Ok(p) && p.model() == m,
                Err(e) => r == Err::<Profile, FormatError>(e),
            },
    {
        let ghost rv = record@;
        let id_card = match record.id_card {
            Some(card) => match IdCardNumber::parse(card.card_number.as_str()) {
                Ok(card_number) => Some(IdCard { card_number, expires_after: card.expires_after }),
                Err(e) => return Err(e),
            },
            None => None,
        };
        let social_security_number = match record.social_security_number {
            Some(text) => match SocialSecurityNumber::parse(text.as_str()) {
                Ok(n) => Some(n),
                Err(e) => return Err(e),
            },
            None => None,
        };
        let post_number = match record.post_number {
            Some(n) => match PostNumber::from_u32(n) {
                Ok(p) => Some(p),
                Err(e) => return Err(e),
            },
            None => None,
        };
        let tax_id = match record.tax_id {
            Some(n) => match TaxId::from_u64(n) {
                Ok(t) => Some(t),
                Err(e) => return Err(e),
            },
            None => None,
        };
        let p = Profile {
            name: record.name,
            id_card,
            social_security_number,
            post_number,
            tax_id,
            bank_accounts: record.bank_accounts,
            key_value_items: record.key_value_items,
        };
        proof {
            assert(decode(rv) is Ok);
            assert(p.model() =~= decode(rv)->Ok_0);
        }
        Ok(p)
    }
}

} // verus!
