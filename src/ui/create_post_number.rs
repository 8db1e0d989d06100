//! The draft of a new post number.

use crate::input::InputState;
use crate::post_number::{post_number_from_text, PostNumber};
use vstd::prelude::*;

verus! {

#[derive(Clone, PartialEq, Eq, Debug)]
pub struct FormState {
    pub input: InputState,
}

impl FormState {
    pub fn new() -> (r: FormState)
        ensures
            r.input.is_blank(),
    {
        FormState { input: InputState::new() }
    }

    /// Reads the typed text; reports on the field why it is refused, if it is.
    pub fn submit(&mut self) -> (r: Option<PostNumber>)
        ensures
            final(self).input.reports(old(self).input, post_number_from_text(old(self).input.value@) is Err),
            match post_number_from_text(old(self).input.value@) {
                Ok(v) => r matches Some(x) && x@ == v,
                Err(_) => r is None,
            },
    {
        self.input.reset_error();
        match PostNumber::parse(self.input.value.as_str()) {
            Ok(value) => Some(value),
            Err(error) => {
                self.input.set_error(error.message());
                None
            },
        }
    }
}

} // verus!
