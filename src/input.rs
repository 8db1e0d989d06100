//! One text field of a form: what was typed, and what is wrong with it.

use vstd::prelude::*;

verus! {

#[derive(Clone, PartialEq, Eq, Debug)]
pub struct InputState {
    pub value: String,
    pub error: Option<String>,
}

impl InputState {
    /// Nothing typed, nothing reported.
    pub open spec fn is_blank(self) -> bool {
        self.value@.len() == 0 && self.error is None
    }

    /// After a check of `before`: the text is kept, and an error is reported
    /// exactly when the check `failed`.
    pub open spec fn reports(self, before: InputState, failed: bool) -> bool {
        self.value == before.value && (self.error is Some <==> failed)
    }

    pub fn new() -> (r: InputState)
        ensures
            r.is_blank(),
    {
        InputState { value: String::new(), error: None }
    }

    pub fn reset_error(&mut self)
        ensures
            final(self).value == old(self).value,
            final(self).error is None,
    {
        self.error = None;
    }

    pub fn set_error(&mut self, error: String)
        ensures
            final(self).value == old(self).value,
            final(self).error == Some(error),
    {
        self.error = Some(error);
    }

    /// Checks that something was typed; reports it on the field when not.
    pub fn check_required(&mut self) -> (r: bool)
        ensures
            r == (old(self).value@.len() > 0),
            final(self).reports(*old(self), !r),
    {
        self.reset_error();
        if self.value.as_str().is_empty() {
            self.set_error("This field is required.".to_owned());
            false
        } else {
            true
        }
    }
}

} // verus!
