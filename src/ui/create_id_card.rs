//! The draft of a new identity card: its number and the day it is valid until.

use crate::id_card::{
    id_card_number_from_text, midnight_of_date, parse_date, IdCard, IdCardNumber, Timestamp,
};
use crate::input::InputState;
use vstd::prelude::*;

verus! {

#[derive(Clone, PartialEq, Eq, Debug)]
pub struct FormState {
    pub id: InputState,
    pub valid_until: InputState,
}

impl FormState {
    pub fn new() -> (r: FormState)
        ensures
            r.id.is_blank(),
            r.valid_until.is_blank(),
    {
        FormState { id: InputState::new(), valid_until: InputState::new() }
    }

    /// Both fields check out, the expiry day having been read as `expiry`.
    pub open spec fn accepts(self, expiry: Option<i64>) -> bool {
        id_card_number_from_text(self.id.value@) is Ok && expiry is Some
    }

    /// The card that the draft describes, the expiry day having been read as
    /// `expiry` (the start of that day in seconds since the Unix epoch, `None`
    /// where the text names no day). Each field that does not check out is
    /// reported on its own.
    pub fn submit_with_expiry(&mut self, expiry: Option<i64>) -> (r: Option<IdCard>)
        ensures
            final(self).id.reports(old(self).id, id_card_number_from_text(old(self).id.value@) is Err),
            final(self).valid_until.reports(old(self).valid_until, expiry is None),
            r is Some <==> old(self).accepts(expiry),
            r matches Some(card) ==> card.card_number@ == old(self).id.value@
                && card.expires_after == (Timestamp { unix_seconds: expiry->0, nanoseconds: 0 }),
    {
        self.id.reset_error();
        let card_number = match IdCardNumber::parse(self.id.value.as_str()) {
            Ok(number) => Some(number),
            Err(error) => {
                self.id.set_error(error.message());
                None
            },
        };
        self.valid_until.reset_error();
        if expiry.is_none() {
            self.valid_until.set_error("The date must have the form DD.MM.YYYY.".to_owned());
        }
        match (card_number, expiry) {
            (Some(card_number), Some(seconds)) => Some(
                IdCard {
                    card_number,
                    expires_after: Timestamp { unix_seconds: seconds, nanoseconds: 0 },
                },
            ),
            _ => None,
        }
    }

    /// The card that the draft describes, the expiry day read as `DD.MM.YYYY`.
    pub fn submit(&mut self) -> (r: Option<IdCard>)
        ensures
            final(self).id.reports(old(self).id, id_card_number_from_text(old(self).id.value@) is Err),
            final(self).valid_until.reports(
                old(self).valid_until,
                midnight_of_date(old(self).valid_until.value@) is None,
            ),
            r is Some <==> old(self).accepts(midnight_of_date(old(self).valid_until.value@)),
            r matches Some(card) ==> card.card_number@ == old(self).id.value@
                && card.expires_after == (Timestamp {
                unix_seconds: midnight_of_date(old(self).valid_until.value@)->0,
                nanoseconds: 0,
            }),
    {
        let expiry = parse_date(self.valid_until.value.as_str());
        self.submit_with_expiry(expiry)
    }
}

} // verus!
