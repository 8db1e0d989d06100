//! The national identity card: its serial number and its expiry.

use crate::error::FormatError;
use vstd::prelude::*;

verus! {

/// The symbols that a card's serial number may use: consonants and the digits
/// 1 to 9, none that could be read as another.
pub open spec fn is_id_card_char(c: char) -> bool {
    c == 'C' || c == 'F' || c == 'G' || c == 'H' || c == 'J' || c == 'K' || c == 'L' || c == 'M'
        || c == 'N' || c == 'P' || c == 'R' || c == 'T' || c == 'V' || c == 'W' || c == 'X' || c
        == 'Y' || c == 'Z' || ('1' <= c && c <= '9')
}

pub open spec fn all_id_card_chars(s: Seq<char>) -> bool {
    forall|i: int| 0 <= i < s.len() ==> is_id_card_char(#[trigger] s[i])
}

/// What a card number read from `s` is: `s` itself when it has nine allowed
/// symbols, or why it is refused.
pub open spec fn id_card_number_from_text(s: Seq<char>) -> Result<Seq<char>, FormatError> {
    if s.len() != 9 {
        Err(FormatError::WrongLength)
    } else if !all_id_card_chars(s) {
        Err(FormatError::InvalidCharacter)
    } else {
        Ok(s)
    }
}

/// Nine symbols of the card alphabet, kept as text.
#[derive(PartialEq, Eq, Debug)]
pub struct IdCardNumber {
    value: String,
}

impl View for IdCardNumber {
    type V = Seq<char>;

    closed spec fn view(&self) -> Seq<char> {
        self.value@
    }
}

pub fn char_is_id_card_char(c: char) -> (r: bool)
    ensures
        r == is_id_card_char(c),
{
    match c {
        'C' | 'F' | 'G' | 'H' | 'J' | 'K' | 'L' | 'M' | 'N' | 'P' | 'R' | 'T' | 'V' | 'W' | 'X'
        | 'Y' | 'Z' => true,
        _ => '1' <= c && c <= '9',
    }
}

impl Clone for IdCardNumber {
    fn clone(&self) -> Self {
        self.copy()
    }
}

impl IdCardNumber {
    #[verifier::type_invariant]
    spec fn well_formed(self) -> bool {
        self.value@.len() == 9 && all_id_card_chars(self.value@)
    }

    /// Accepts exactly the texts of nine symbols of the card alphabet.
    pub fn parse(text: &str) -> (r: Result<IdCardNumber, FormatError>)
        ensures
            match id_card_number_from_text(text@) {
                Ok(s) => r matches Ok(n) && n@ == s,
                Err(e) => r == Err::<IdCardNumber, FormatError>(e),
            },
    {
        let n = text.unicode_len();
        if n != 9 {
            return Err(FormatError::WrongLength);
        }
        let mut i: usize = 0;
        while i < n
            invariant
                n == text@.len(),
                n == 9,
                i <= n,
                forall|j: int| 0 <= j < i ==> is_id_card_char(#[trigger] text@[j]),
            decreases n - i,
        {
            if !char_is_id_card_char(text.get_char(i)) {
                assert(!all_id_card_chars(text@)) by {
                    assert(!is_id_card_char(text@[i as int]));
                }
                return Err(FormatError::InvalidCharacter);
            }
            i = i + 1;
        }
        assert(all_id_card_chars(text@));
        let value = text.to_owned();
        Ok(IdCardNumber { value })
    }

    /// The nine symbols; read back, they give the same number.
    pub fn to_string(&self) -> (r: String)
        ensures
            r@ == self@,
            id_card_number_from_text(r@) == Ok::<Seq<char>, FormatError>(self@),
    {
        proof {
            use_type_invariant(self);
        }
        self.value.clone()
    }

    pub fn copy(&self) -> (r: IdCardNumber)
        ensures
            r == *self,
    {
        proof {
            use_type_invariant(self);
        }
        IdCardNumber { value: self.value.clone() }
    }
}

/// An instant in UTC: whole seconds since the Unix epoch and the nanoseconds
/// after them.
#[derive(Clone, Copy, PartialEq, Eq, Structural, Debug)]
pub struct Timestamp {
    pub unix_seconds: i64,
    pub nanoseconds: u32,
}

impl Timestamp {
    /// Nanoseconds since the Unix epoch.
    pub open spec fn total_nanos(self) -> int {
        self.unix_seconds * 1_000_000_000 + self.nanoseconds
    }

    pub fn total_nanoseconds(&self) -> (r: i128)
        ensures
            r == self.total_nanos(),
    {
        self.unix_seconds as i128 * 1_000_000_000 + self.nanoseconds as i128
    }
}

#[derive(Clone, PartialEq, Eq, Debug)]
pub struct IdCard {
    pub card_number: IdCardNumber,
    pub expires_after: Timestamp,
}

impl IdCard {
    pub open spec fn nanos_until_expiration(self, now: Timestamp) -> int {
        self.expires_after.total_nanos() - now.total_nanos()
    }

    /// The card has expired once its expiry instant is not after `now`.
    pub open spec fn expired_at(self, now: Timestamp) -> bool {
        self.expires_after.total_nanos() <= now.total_nanos()
    }

    /// Nanoseconds from `now` to the expiry instant; negative once it has passed.
    pub fn time_until_expiration_at(&self, now: Timestamp) -> (r: i128)
        ensures
            r == self.nanos_until_expiration(now),
    {
        self.expires_after.total_nanoseconds() - now.total_nanoseconds()
    }

    pub fn has_expired_at(&self, now: Timestamp) -> (r: bool)
        ensures
            r == self.expired_at(now),
    {
        self.time_until_expiration_at(now) <= 0
    }

    /// Nanoseconds from the current time of the system clock to the expiry
    /// instant. The clock reads no earlier than the Unix epoch.
    pub fn time_until_expiration(&self) -> (r: i128)
        ensures
            r <= self.expires_after.total_nanos(),
    {
        self.time_until_expiration_at(utc_now())
    }

    /// Whether the card has expired by the current time of the system clock,
    /// that is whether `expired_at` holds of that time. The clock reads no earlier
    /// than the Unix epoch, so a card that expired before it has expired now.
    pub fn has_expired(&self) -> (r: bool)
        ensures
            self.expires_after.total_nanos() < 0 ==> r,
    {
        let now = utc_now();
        self.has_expired_at(now)
    }

    pub fn copy(&self) -> (r: IdCard)
        ensures
            r == *self,
    {
        IdCard { card_number: self.card_number.copy(), expires_after: self.expires_after }
    }
}

/// Relies on chrono's `Utc::now`: the current time of the system clock, which
/// it reads as a duration since the Unix epoch (whole seconds and the
/// nanoseconds below one second).
#[verifier::external_body]
fn utc_now() -> (r: Timestamp)
    ensures
        r.unix_seconds >= 0,
        r.nanoseconds < 1_000_000_000,
{
    let now = chrono::Utc::now();
    Timestamp { unix_seconds: now.timestamp(), nanoseconds: now.timestamp_subsec_nanos() }
}

/// The instant at which the calendar day that `text` names in the form
/// `DD.MM.YYYY` begins in UTC, in seconds since the Unix epoch; `None` where
/// `text` names no day.
pub uninterp spec fn midnight_of_date(text: Seq<char>) -> Option<i64>;

/// Relies on chrono's `NaiveDate::parse_from_str` with the pattern `%d.%m.%Y`,
/// taken at midnight UTC.
#[verifier::external_body]
pub(crate) fn parse_date(text: &str) -> (r: Option<i64>)
    ensures
        r == midnight_of_date(text@),
{
    match chrono::NaiveDate::parse_from_str(text, "%d.%m.%Y") {
        Ok(day) => Some(day.and_time(chrono::NaiveTime::MIN).and_utc().timestamp()),
        Err(_) => None,
    }
}

} // verus!
