//! The draft of a new profile: first and last name.

use crate::input::InputState;
use crate::profile::{fresh_profile, Name, Profile};
use vstd::prelude::*;

verus! {

#[derive(Clone, PartialEq, Eq, Debug)]
pub struct FormState {
    pub first_name: InputState,
    pub last_name: InputState,
}

impl FormState {
    pub fn new() -> (r: FormState)
        ensures
            r.first_name.is_blank(),
            r.last_name.is_blank(),
    {
        FormState { first_name: InputState::new(), last_name: InputState::new() }
    }

    /// Both names were typed.
    pub open spec fn is_complete(self) -> bool {
        self.first_name.value@.len() > 0 && self.last_name.value@.len() > 0
    }

    /// A profile with the typed names, once both are there; each empty name is
    /// reported on its own field.
    pub fn submit(&mut self) -> (r: Option<Profile>)
        ensures
            final(self).first_name.reports(old(self).first_name, old(self).first_name.value@.len() == 0),
            final(self).last_name.reports(old(self).last_name, old(self).last_name.value@.len() == 0),
            r is Some <==> old(self).is_complete(),
            r matches Some(p) ==> p@ == fresh_profile(
                Name { first_name: old(self).first_name.value, last_name: old(self).last_name.value },
            ),
    {
        let first_ok = self.first_name.check_required();
        let last_ok = self.last_name.check_required();
        if first_ok && last_ok {
            Some(Profile::new(self.first_name.value.clone(), self.last_name.value.clone()))
        } else {
            None
        }
    }
}

} // verus!
