//! The draft of a new tax ID.

use crate::input::InputState;
use crate::tax_id::{tax_id_from_text, TaxId};
use vstd::prelude::*;

verus! {

#[derive(Clone, PartialEq, Eq, Debug)]
pub struct FormState {
    pub input: InputState,
}

impl FormState {
    pub fn new() -> (r: FormState)
        ensures
            r.input.is_blank(),
    {
        FormState { input: InputState::new() }
    }

    /// Reads the typed text; reports on the field why it is refused, if it is.
    pub fn submit(&mut self) -> (r: Option<TaxId>)
        ensures
            final(self).input.reports(old(self).input, tax_id_from_text(old(self).input.value@) is Err),
            match tax_id_from_text(old(self).input.value@) {
                Ok(v) => r matches Some(x) && x@ == v,
                Err(_) => r is None,
            },
    {
        self.input.reset_error();
        match TaxId::parse(self.input.value.as_str()) {
            Ok(value) => Some(value),
            Err(error) => {
                self.input.set_error(error.message());
                None
            },
        }
    }
}

} // verus!
