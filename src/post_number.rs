//! The nine-digit postal registration number.

use crate::error::FormatError;
use crate::text::{
    lemma_all_digits_concat, lemma_single_space, lemma_decimal_value_concat, lemma_digits_keep, lemma_padded_decimal,
    is_digit, lemma_without_white_space_concat, pow10, unsigned_digits,
    decimal_value, is_unsigned_number, unsigned_value, padded_decimal, parse_number, push_padded_decimal,
    string_from_chars, strip_white_space, without_white_space,
};
use vstd::prelude::*;

verus! {

pub const MIN_POST_NUMBER: u32 = 100_000_000;

pub const MAX_POST_NUMBER: u32 = 999_999_999;

/// What a post number made from the number `n` is: `n` itself, or why it is refused.
pub open spec fn post_number_from_number(n: nat) -> Result<nat, FormatError> {
    if n < MIN_POST_NUMBER {
        Err(FormatError::TooSmall)
    } else if n > MAX_POST_NUMBER {
        Err(FormatError::TooLarge)
    } else {
        Ok(n)
    }
}

/// What a post number read from the text `s` is: white space anywhere in `s` is
/// ignored, then one optional `+` and the digits.
pub open spec fn post_number_from_text(s: Seq<char>) -> Result<nat, FormatError> {
    let c = without_white_space(s);
    if !is_unsigned_number(c) {
        Err(FormatError::NotANumber)
    } else {
        post_number_from_number(unsigned_value(c))
    }
}

/// The canonical text of a post number: its digits in three blocks of three,
/// separated by single spaces.
pub open spec fn post_number_text(n: nat) -> Seq<char> {
    padded_decimal(n / 1_000_000, 3) + seq![' '] + padded_decimal((n / 1000) % 1000, 3) + seq![' ']
        + padded_decimal(n % 1000, 3)
}

/// A nine-digit number, `100_000_000` to `999_999_999`.
#[derive(Clone, Copy, PartialEq, Eq, Debug)]
pub struct PostNumber {
    value: u32,
}

impl View for PostNumber {
    type V = nat;

    closed spec fn view(&self) -> nat {
        self.value as nat
    }
}

impl PostNumber {
    #[verifier::type_invariant]
    spec fn in_range(self) -> bool {
        MIN_POST_NUMBER <= self.value <= MAX_POST_NUMBER
    }

    pub fn from_u32(value: u32) -> (r: Result<PostNumber, FormatError>)
        ensures
            match post_number_from_number(value as nat) {
                Ok(n) => r matches Ok(p) && p@ == n,
                Err(e) => r == Err::<PostNumber, FormatError>(e),
            },
    {
        if value < MIN_POST_NUMBER {
            Err(FormatError::TooSmall)
        } else if value > MAX_POST_NUMBER {
            Err(FormatError::TooLarge)
        } else {
            Ok(PostNumber { value })
        }
    }

    /// Reads a post number from text; white space is ignored wherever it stands,
    /// and one leading `+` is allowed.
    pub fn parse(text: &str) -> (r: Result<PostNumber, FormatError>)
        ensures
            match post_number_from_text(text@) {
                Ok(n) => r matches Ok(p) && p@ == n,
                Err(e) => r == Err::<PostNumber, FormatError>(e),
            },
    {
        let clean = strip_white_space(text);
        match parse_number(&clean, MAX_POST_NUMBER as u64) {
            None => Err(FormatError::NotANumber),
            Some(n) => PostNumber::from_u32(n as u32),
        }
    }

    pub fn value(&self) -> (r: u32)
        ensures
            r == self@,
            MIN_POST_NUMBER <= r <= MAX_POST_NUMBER,
    {
        proof {
            use_type_invariant(self);
        }
        self.value
    }

    /// The digits in three blocks of three: `"123 456 789"`.
    pub fn to_string(&self) -> (r: String)
        ensures
            r@ == post_number_text(self@),
            post_number_from_text(r@) == Ok::<nat, FormatError>(self@),
    {
        proof {
            use_type_invariant(self);
            lemma_post_number_text_round_trip(self@);
        }
        let v = self.value as u64;
        let mut chars: Vec<char> = Vec::new();
        push_padded_decimal(&mut chars, v / 1_000_000, 3);
        chars.push(' ');
        push_padded_decimal(&mut chars, (v / 1000) % 1000, 3);
        chars.push(' ');
        push_padded_decimal(&mut chars, v % 1000, 3);
        assert(chars@ =~= post_number_text(self@));
        string_from_chars(&chars)
    }
}

/// The canonical text of a post number reads back as the same number.
pub proof fn lemma_post_number_text_round_trip(n: nat)
    requires
        MIN_POST_NUMBER <= n <= MAX_POST_NUMBER,
    ensures
        post_number_from_text(post_number_text(n)) == Ok::<nat, FormatError>(n),
{
    let a = n / 1_000_000;
    let b = (n / 1000) % 1000;
    let c = n % 1000;
    let pa = padded_decimal(a, 3);
    let pb = padded_decimal(b, 3);
    let pc = padded_decimal(c, 3);
    let sp = seq![' '];
    lemma_padded_decimal(a, 3);
    lemma_padded_decimal(b, 3);
    lemma_padded_decimal(c, 3);
    reveal_with_fuel(pow10, 4);
    assert(pow10(3) == 1000);
    lemma_single_space();
    lemma_digits_keep(pa);
    lemma_digits_keep(pb);
    lemma_digits_keep(pc);
    lemma_without_white_space_concat(pa, sp);
    lemma_without_white_space_concat(pa + sp, pb);
    lemma_without_white_space_concat(pa + sp + pb, sp);
    lemma_without_white_space_concat(pa + sp + pb + sp, pc);
    let clean = pa + pb + pc;
    assert(without_white_space(post_number_text(n)) =~= clean);
    lemma_all_digits_concat(pa, pb);
    lemma_all_digits_concat(pa + pb, pc);
    assert(is_digit(clean[0]));
    assert(unsigned_digits(clean) == clean);
    lemma_decimal_value_concat(pa, pb);
    lemma_decimal_value_concat(pa + pb, pc);
    assert(a < 1000) by (nonlinear_arith)
        requires
            a == n / 1_000_000,
            n <= 999_999_999,
    ;
    vstd::arithmetic::div_mod::lemma_fundamental_div_mod(n as int, 1000);
    vstd::arithmetic::div_mod::lemma_fundamental_div_mod((n / 1000) as int, 1000);
    vstd::arithmetic::div_mod::lemma_div_denominator(n as int, 1000, 1000);
    assert(decimal_value(clean) == (a * 1000 + b) * 1000 + c);
    assert((a * 1000 + b) * 1000 + c == n) by (nonlinear_arith)
        requires
            n == 1000 * (n / 1000) + n % 1000,
            n / 1000 == 1000 * (n / 1000 / 1000) + (n / 1000) % 1000,
            n / 1000 / 1000 == n / 1_000_000,
            a == n / 1_000_000,
            b == (n / 1000) % 1000,
            c == n % 1000,
    ;
}

} // verus!
