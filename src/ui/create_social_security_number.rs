//! The draft of a new social security number.

use crate::input::InputState;
use crate::social_security_number::{social_security_number_from_text, SocialSecurityNumber};
use vstd::prelude::*;

verus! {

#[derive(Clone, PartialEq, Eq, Debug)]
pub struct FormState {
    pub input: InputState,
}

impl FormState {
    pub fn new() -> (r: FormState)
        ensures
            r.input.is_blank(),
    {
        FormState { input: InputState::new() }
    }

    /// Reads the typed text; reports on the field why it is refused, if it is.
    pub fn submit(&mut self) -> (r: Option<SocialSecurityNumber>)
        ensures
            final(self).input.reports(old(self).input, social_security_number_from_text(old(self).input.value@) is Err),
            match social_security_number_from_text(old(self).input.value@) {
                Ok(v) => r matches Some(x) && x@ == v,
                Err(_) => r is None,
            },
    {
        self.input.reset_error();
        match SocialSecurityNumber::parse(self.input.value.as_str()) {
            Ok(value) => Some(value),
            Err(error) => {
                self.input.set_error(error.message());
                None
            },
        }
    }
}

} // verus!
