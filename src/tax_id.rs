//! The eleven-digit tax identification number.

use crate::error::FormatError;
use crate::text::{
    is_digit, lemma_digits_keep, lemma_padded_decimal, pow10, unsigned_digits,
    decimal_value, is_unsigned_number, unsigned_value, padded_decimal, parse_number, push_padded_decimal,
    string_from_chars, strip_white_space, without_white_space,
};
use vstd::prelude::*;

verus! {

pub const MIN_TAX_ID: u64 = 10_000_000_000;

pub const MAX_TAX_ID: u64 = 99_999_999_999;

/// What a tax ID made from the number `n` is: `n` itself, or why it is refused.
pub open spec fn tax_id_from_number(n: nat) -> Result<nat, FormatError> {
    if n < MIN_TAX_ID {
        Err(FormatError::TooSmall)
    } else if n > MAX_TAX_ID {
        Err(FormatError::TooLarge)
    } else {
        Ok(n)
    }
}

/// What a tax ID read from the text `s` is: white space anywhere in `s` is
/// ignored, then one optional `+` and the digits.
pub open spec fn tax_id_from_text(s: Seq<char>) -> Result<nat, FormatError> {
    let c = without_white_space(s);
    if !is_unsigned_number(c) {
        Err(FormatError::NotANumber)
    } else {
        tax_id_from_number(unsigned_value(c))
    }
}

/// An eleven-digit number, `10_000_000_000` to `99_999_999_999`.
#[derive(Clone, Copy, PartialEq, Eq, Debug)]
pub struct TaxId {
    value: u64,
}

impl View for TaxId {
    type V = nat;

    closed spec fn view(&self) -> nat {
        self.value as nat
    }
}

impl TaxId {
    #[verifier::type_invariant]
    spec fn in_range(self) -> bool {
        MIN_TAX_ID <= self.value <= MAX_TAX_ID
    }

    pub fn from_u64(value: u64) -> (r: Result<TaxId, FormatError>)
        ensures
            match tax_id_from_number(value as nat) {
                Ok(n) => r matches Ok(t) && t@ == n,
                Err(e) => r == Err::<TaxId, FormatError>(e),
            },
    {
        if value < MIN_TAX_ID {
            Err(FormatError::TooSmall)
        } else if value > MAX_TAX_ID {
            Err(FormatError::TooLarge)
        } else {
            Ok(TaxId { value })
        }
    }

    /// Reads a tax ID from text; white space is ignored wherever it stands, and
    /// one leading `+` is allowed.
    pub fn parse(text: &str) -> (r: Result<TaxId, FormatError>)
        ensures
            match tax_id_from_text(text@) {
                Ok(n) => r matches Ok(t) && t@ == n,
                Err(e) => r == Err::<TaxId, FormatError>(e),
            },
    {
        let clean = strip_white_space(text);
        match parse_number(&clean, MAX_TAX_ID) {
            None => Err(FormatError::NotANumber),
            Some(n) => TaxId::from_u64(n),
        }
    }

    pub fn value(&self) -> (r: u64)
        ensures
            r == self@,
            MIN_TAX_ID <= r <= MAX_TAX_ID,
    {
        proof {
            use_type_invariant(self);
        }
        self.value
    }

    /// The eleven digits, without separators. Read back, the text gives the
    /// same tax ID.
    pub fn to_string(&self) -> (r: String)
        ensures
            r@ == padded_decimal(self@, 11),
            tax_id_from_text(r@) == Ok::<nat, FormatError>(self@),
    {
        proof {
            use_type_invariant(self);
            lemma_tax_id_text_round_trip(self@);
        }
        let mut chars: Vec<char> = Vec::new();
        push_padded_decimal(&mut chars, self.value, 11);
        assert(chars@ =~= padded_decimal(self@, 11));
        string_from_chars(&chars)
    }
}

/// The text of a tax ID reads back as the same number.
pub proof fn lemma_tax_id_text_round_trip(n: nat)
    requires
        MIN_TAX_ID <= n <= MAX_TAX_ID,
    ensures
        tax_id_from_text(padded_decimal(n, 11)) == Ok::<nat, FormatError>(n),
{
    let t = padded_decimal(n, 11);
    lemma_padded_decimal(n, 11);
    lemma_digits_keep(t);
    assert(is_digit(t[0]));
    assert(unsigned_digits(t) == t);
    reveal_with_fuel(pow10, 12);
    assert(pow10(11) == 100_000_000_000);
    assert(n % pow10(11) == n);
}

} // verus!
