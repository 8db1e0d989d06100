//! The profile: one person's name, identifiers, bank accounts and notes.

use crate::id_card::IdCard;
use crate::post_number::PostNumber;
use crate::social_security_number::SocialSecurityNumber;
use crate::tax_id::TaxId;
use vstd::prelude::*;

verus! {

/// A free-form note: a label and its text.
#[derive(Clone, PartialEq, Eq, Debug)]
pub struct KeyValueItem {
    pub key: String,
    pub value: String,
}

impl KeyValueItem {
    pub fn copy(&self) -> (r: KeyValueItem)
        ensures
            r == *self,
    {
        KeyValueItem { key: self.key.clone(), value: self.value.clone() }
    }
}

#[derive(Clone, PartialEq, Eq, Debug)]
pub struct Name {
    pub first_name: String,
    pub last_name: String,
}

impl Name {
    pub fn copy(&self) -> (r: Name)
        ensures
            r == *self,
    {
        Name { first_name: self.first_name.clone(), last_name: self.last_name.clone() }
    }
}

#[derive(Clone, PartialEq, Eq, Debug)]
pub struct BankAccount {
    pub name: String,
    pub iban: String,
}

impl BankAccount {
    pub fn copy(&self) -> (r: BankAccount)
        ensures
            r == *self,
    {
        BankAccount { name: self.name.clone(), iban: self.iban.clone() }
    }
}

/// The profile, with its lists seen as sequences.
pub struct ProfileView {
    pub name: Name,
    pub id_card: Option<IdCard>,
    pub social_security_number: Option<SocialSecurityNumber>,
    pub post_number: Option<PostNumber>,
    pub tax_id: Option<TaxId>,
    pub bank_accounts: Seq<BankAccount>,
    pub key_value_items: Seq<KeyValueItem>,
}

/// One person's record. Each identifier is there at most once; the lists keep
/// the order in which their entries were added.
#[derive(Clone, PartialEq, Debug)]
pub struct Profile {
    pub name: Name,
    pub id_card: Option<IdCard>,
    pub social_security_number: Option<SocialSecurityNumber>,
    pub post_number: Option<PostNumber>,
    pub tax_id: Option<TaxId>,
    pub bank_accounts: Vec<BankAccount>,
    pub key_value_items: Vec<KeyValueItem>,
}

impl View for Profile {
    type V = ProfileView;

    open spec fn view(&self) -> ProfileView {
        ProfileView {
            name: self.name,
            id_card: self.id_card,
            social_security_number: self.social_security_number,
            post_number: self.post_number,
            tax_id: self.tax_id,
            bank_accounts: self.bank_accounts@,
            key_value_items: self.key_value_items@,
        }
    }
}

/// A new profile: the name, and nothing else yet.
pub open spec fn fresh_profile(name: Name) -> ProfileView {
    ProfileView {
        name,
        id_card: None,
        social_security_number: None,
        post_number: None,
        tax_id: None,
        bank_accounts: Seq::empty(),
        key_value_items: Seq::empty(),
    }
}

/// The accounts whose IBAN is not `iban`, in their order.
pub open spec fn accounts_without_iban(s: Seq<BankAccount>, iban: Seq<char>) -> Seq<BankAccount>
    decreases s.len(),
{
    if s.len() == 0 {
        Seq::empty()
    } else if s.last().iban@ == iban {
        accounts_without_iban(s.drop_last(), iban)
    } else {
        accounts_without_iban(s.drop_last(), iban).push(s.last())
    }
}

/// The notes whose key is not `key`, in their order.
pub open spec fn items_without_key(s: Seq<KeyValueItem>, key: Seq<char>) -> Seq<KeyValueItem>
    decreases s.len(),
{
    if s.len() == 0 {
        Seq::empty()
    } else if s.last().key@ == key {
        items_without_key(s.drop_last(), key)
    } else {
        items_without_key(s.drop_last(), key).push(s.last())
    }
}

pub(crate) fn copy_accounts(v: &Vec<BankAccount>) -> (r: Vec<BankAccount>)
    ensures
        r@ == v@,
{
    let mut out: Vec<BankAccount> = Vec::new();
    let mut i: usize = 0;
    while i < v.len()
        invariant
            i <= v@.len(),
            out@ == v@.subrange(0, i as int),
        decreases v.len() - i,
    {
        out.push(v[i].copy());
        i = i + 1;
        assert(out@ =~= v@.subrange(0, i as int));
    }
    assert(v@.subrange(0, v@.len() as int) =~= v@);
    out
}

pub(crate) fn copy_items(v: &Vec<KeyValueItem>) -> (r: Vec<KeyValueItem>)
    ensures
        r@ == v@,
{
    let mut out: Vec<KeyValueItem> = Vec::new();
    let mut i: usize = 0;
    while i < v.len()
        invariant
            i <= v@.len(),
            out@ == v@.subrange(0, i as int),
        decreases v.len() - i,
    {
        out.push(v[i].copy());
        i = i + 1;
        assert(out@ =~= v@.subrange(0, i as int));
    }
    assert(v@.subrange(0, v@.len() as int) =~= v@);
    out
}

impl Profile {
    /// A profile with the given name and nothing else.
    pub fn new(first_name: String, last_name: String) -> (r: Profile)
        ensures
            r@ == fresh_profile(Name { first_name, last_name }),
    {
        let r = Profile {
            name: Name { first_name, last_name },
            id_card: None,
            social_security_number: None,
            post_number: None,
            tax_id: None,
            bank_accounts: Vec::new(),
            key_value_items: Vec::new(),
        };
        assert(r@ =~= fresh_profile(Name { first_name, last_name }));
        r
    }

    pub fn copy(&self) -> (r: Profile)
        ensures
            r@ == self@,
    {
        let id_card = match &self.id_card {
            Some(card) => Some(card.copy()),
            None => None,
        };
        Profile {
            name: self.name.copy(),
            id_card,
            social_security_number: self.social_security_number,
            post_number: self.post_number,
            tax_id: self.tax_id,
            bank_accounts: copy_accounts(&self.bank_accounts),
            key_value_items: copy_items(&self.key_value_items),
        }
    }

    /// Takes out every bank account whose IBAN is `iban`.
    pub fn remove_bank_account(&mut self, iban: &String)
        ensures
            final(self)@ == (ProfileView {
                bank_accounts: accounts_without_iban(old(self).bank_accounts@, iban@),
                ..old(self)@
            }),
    {
        let mut kept: Vec<BankAccount> = Vec::new();
        let mut i: usize = 0;
        while i < self.bank_accounts.len()
            invariant
                i <= self.bank_accounts@.len(),
                kept@ == accounts_without_iban(self.bank_accounts@.subrange(0, i as int), iban@),
            decreases self.bank_accounts.len() - i,
        {
            let account = &self.bank_accounts[i];
            proof {
                let next = self.bank_accounts@.subrange(0, i + 1);
                assert(next.drop_last() =~= self.bank_accounts@.subrange(0, i as int));
            }
            if !(account.iban == *iban) {
                kept.push(account.copy());
            }
            i = i + 1;
        }
        assert(self.bank_accounts@.subrange(0, self.bank_accounts@.len() as int)
            =~= self.bank_accounts@);
        self.bank_accounts = kept;
    }

    /// Takes out every note whose key is `key`.
    pub fn remove_key_value_item(&mut self, key: &String)
        ensures
            final(self)@ == (ProfileView {
                key_value_items: items_without_key(old(self).key_value_items@, key@),
                ..old(self)@
            }),
    {
        let mut kept: Vec<KeyValueItem> = Vec::new();
        let mut i: usize = 0;
        while i < self.key_value_items.len()
            invariant
                i <= self.key_value_items@.len(),
                kept@ == items_without_key(self.key_value_items@.subrange(0, i as int), key@),
            decreases self.key_value_items.len() - i,
        {
            let item = &self.key_value_items[i];
            proof {
                let next = self.key_value_items@.subrange(0, i + 1);
                assert(next.drop_last() =~= self.key_value_items@.subrange(0, i as int));
            }
            if !(item.key == *key) {
                kept.push(item.copy());
            }
            i = i + 1;
        }
        assert(self.key_value_items@.subrange(0, self.key_value_items@.len() as int)
            =~= self.key_value_items@);
        self.key_value_items = kept;
    }
}

} // verus!
