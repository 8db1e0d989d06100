//! The draft of a new note: its key and its value.

use crate::input::InputState;
use crate::profile::KeyValueItem;
use vstd::prelude::*;

verus! {

#[derive(Clone, PartialEq, Eq, Debug)]
pub struct FormState {
    pub key: InputState,
    pub value: InputState,
}

impl FormState {
    pub fn new() -> (r: FormState)
        ensures
            r.key.is_blank(),
            r.value.is_blank(),
    {
        FormState { key: InputState::new(), value: InputState::new() }
    }

    /// Both fields were filled in.
    pub open spec fn is_complete(self) -> bool {
        self.key.value@.len() > 0 && self.value.value@.len() > 0
    }

    /// The note as typed, once both fields are filled in; each empty field is
    /// reported on its own.
    pub fn submit(&mut self) -> (r: Option<KeyValueItem>)
        ensures
            final(self).key.reports(old(self).key, old(self).key.value@.len() == 0),
            final(self).value.reports(old(self).value, old(self).value.value@.len() == 0),
            r is Some <==> old(self).is_complete(),
            r matches Some(item) ==> item == (KeyValueItem {
                key: old(self).key.value,
                value: old(self).value.value,
            }),
    {
        let key_ok = self.key.check_required();
        let value_ok = self.value.check_required();
        if key_ok && value_ok {
            Some(KeyValueItem { key: self.key.value.clone(), value: self.value.value.clone() })
        } else {
            None
        }
    }
}

} // verus!
