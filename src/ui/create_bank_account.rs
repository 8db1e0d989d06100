//! The draft of a new bank account: its name and IBAN.

use crate::input::InputState;
use crate::profile::BankAccount;
use vstd::prelude::*;

verus! {

#[derive(Clone, PartialEq, Eq, Debug)]
pub struct FormState {
    pub name: InputState,
    pub iban: InputState,
}

impl FormState {
    pub fn new() -> (r: FormState)
        ensures
            r.name.is_blank(),
            r.iban.is_blank(),
    {
        FormState { name: InputState::new(), iban: InputState::new() }
    }

    /// Both fields were filled in.
    pub open spec fn is_complete(self) -> bool {
        self.name.value@.len() > 0 && self.iban.value@.len() > 0
    }

    /// The account as typed, once both fields are filled in; each empty field is
    /// reported on its own.
    pub fn submit(&mut self) -> (r: Option<BankAccount>)
        ensures
            final(self).name.reports(old(self).name, old(self).name.value@.len() == 0),
            final(self).iban.reports(old(self).iban, old(self).iban.value@.len() == 0),
            r is Some <==> old(self).is_complete(),
            r matches Some(a) ==> a == (BankAccount {
                name: old(self).name.value,
                iban: old(self).iban.value,
            }),
    {
        let name_ok = self.name.check_required();
        let iban_ok = self.iban.check_required();
        if name_ok && iban_ok {
            Some(BankAccount { name: self.name.value.clone(), iban: self.iban.value.clone() })
        } else {
            None
        }
    }
}

} // verus!
