//! Character-level helpers shared by the validated value types: white space
//! removal, decimal digits and fixed-width decimal rendering.

use vstd::prelude::*;

verus! {

/// The characters with the Unicode `White_Space` property.
pub open spec fn is_white_space(c: char) -> bool {
    let n = c as u32;
    (0x9 <= n && n <= 0xd) || n == 0x20 || n == 0x85 || n == 0xa0 || n == 0x1680 || (0x2000 <= n
        && n <= 0x200a) || n == 0x2028 || n == 0x2029 || n == 0x202f || n == 0x205f || n == 0x3000
}

/// `s` with every white space character taken out, the others kept in order.
pub open spec fn without_white_space(s: Seq<char>) -> Seq<char>
    decreases s.len(),
{
    if s.len() == 0 {
        Seq::empty()
    } else if is_white_space(s.last()) {
        without_white_space(s.drop_last())
    } else {
        without_white_space(s.drop_last()).push(s.last())
    }
}

pub open spec fn is_digit(c: char) -> bool {
    '0' <= c && c <= '9'
}

pub open spec fn digit_value(c: char) -> nat {
    (c as u32 - '0' as u32) as nat
}

pub open spec fn all_digits(s: Seq<char>) -> bool {
    forall|i: int| 0 <= i < s.len() ==> is_digit(#[trigger] s[i])
}

/// A non-empty run of decimal digits.
pub open spec fn is_number(s: Seq<char>) -> bool {
    s.len() > 0 && all_digits(s)
}

/// The number that a run of decimal digits writes, most significant first.
pub open spec fn decimal_value(s: Seq<char>) -> nat
    decreases s.len(),
{
    if s.len() == 0 {
        0
    } else {
        decimal_value(s.drop_last()) * 10 + digit_value(s.last())
    }
}

pub open spec fn digit_char(d: nat) -> char {
    if d == 0 {
        '0'
    } else if d == 1 {
        '1'
    } else if d == 2 {
        '2'
    } else if d == 3 {
        '3'
    } else if d == 4 {
        '4'
    } else if d == 5 {
        '5'
    } else if d == 6 {
        '6'
    } else if d == 7 {
        '7'
    } else if d == 8 {
        '8'
    } else {
        '9'
    }
}

/// The last `width` decimal digits of `n`, with leading zeros.
pub open spec fn padded_decimal(n: nat, width: nat) -> Seq<char>
    decreases width,
{
    if width == 0 {
        Seq::empty()
    } else {
        padded_decimal(n / 10, (width - 1) as nat).push(digit_char(n % 10))
    }
}

/// No white space is left after it has been taken out.
pub proof fn lemma_no_white_space_left(s: Seq<char>)
    ensures
        forall|i: int|
            0 <= i < without_white_space(s).len() ==> !is_white_space(
                #[trigger] without_white_space(s)[i],
            ),
    decreases s.len(),
{
    if s.len() > 0 {
        let w = without_white_space(s.drop_last());
        lemma_no_white_space_left(s.drop_last());
        assert forall|i: int| 0 <= i < without_white_space(s).len() implies !is_white_space(
            #[trigger] without_white_space(s)[i],
        ) by {
            if !is_white_space(s.last()) && i < w.len() {
                assert(without_white_space(s)[i] == w[i]);
            }
        }
    }
}

/// Whether `c` has the Unicode `White_Space` property.
pub fn char_is_white_space(c: char) -> (r: bool)
    ensures
        r == is_white_space(c),
{
    let n = c as u32;
    (0x9 <= n && n <= 0xd) || n == 0x20 || n == 0x85 || n == 0xa0 || n == 0x1680 || (0x2000 <= n
        && n <= 0x200a) || n == 0x2028 || n == 0x2029 || n == 0x202f || n == 0x205f || n == 0x3000
}

/// Relies on `String`'s `FromIterator<char>`: the characters in order.
#[verifier::external_body]
pub(crate) fn string_from_chars(chars: &Vec<char>) -> (r: String)
    ensures
        r@ == chars@,
{
    chars.iter().collect()
}

/// The characters of `s` that are not white space, in order.
pub fn strip_white_space(s: &str) -> (r: Vec<char>)
    ensures
        r@ == without_white_space(s@),
{
    let n = s.unicode_len();
    let mut out: Vec<char> = Vec::new();
    let mut i: usize = 0;
    while i < n
        invariant
            n == s@.len(),
            i <= n,
            out@ == without_white_space(s@.subrange(0, i as int)),
        decreases n - i,
    {
        let c = s.get_char(i);
        proof {
            let next = s@.subrange(0, i + 1);
            assert(next.drop_last() =~= s@.subrange(0, i as int));
            assert(next.last() == c);
        }
        if !char_is_white_space(c) {
            out.push(c);
        }
        i = i + 1;
    }
    assert(s@.subrange(0, n as int) =~= s@);
    out
}

pub fn char_is_digit(c: char) -> (r: bool)
    ensures
        r == is_digit(c),
{
    '0' <= c && c <= '9'
}

pub(crate) fn digit_of(c: char) -> (r: u64)
    requires
        is_digit(c),
    ensures
        r == digit_value(c),
        r < 10,
{
    (c as u32 - '0' as u32) as u64
}

/// The digits of an unsigned number as written: one optional leading `+` is
/// dropped.
pub open spec fn unsigned_digits(s: Seq<char>) -> Seq<char> {
    if s.len() > 0 && s[0] == '+' {
        s.drop_first()
    } else {
        s
    }
}

/// `s` writes an unsigned decimal number: one optional `+`, then at least one
/// digit, as integer parsing in `std` accepts it.
pub open spec fn is_unsigned_number(s: Seq<char>) -> bool {
    is_number(unsigned_digits(s))
}

/// The value of the digits that follow the optional `+`.
pub open spec fn unsigned_value(s: Seq<char>) -> nat {
    decimal_value(unsigned_digits(s))
}

/// Reads the unsigned decimal number that `s` writes. `None` when `s` is not one
/// optional `+` followed by at least one digit; otherwise the number, or
/// `cap + 1` where the number exceeds `cap`.
pub fn parse_number(s: &Vec<char>, cap: u64) -> (r: Option<u64>)
    requires
        cap < 1_000_000_000_000_000_000,
    ensures
        r is Some <==> is_unsigned_number(s@),
        r matches Some(v) ==> (unsigned_value(s@) <= cap ==> v == unsigned_value(s@)),
        r matches Some(v) ==> (unsigned_value(s@) > cap ==> v == cap + 1),
{
    let start: usize = if s.len() > 0 && s[0] == '+' {
        1
    } else {
        0
    };
    let ghost digits = unsigned_digits(s@);
    assert(digits =~= s@.subrange(start as int, s@.len() as int));
    if start == s.len() {
        return None;
    }
    let mut acc: u64 = 0;
    let mut i: usize = start;
    while i < s.len()
        invariant
            start <= i <= s@.len(),
            start <= 1,
            digits == s@.subrange(start as int, s@.len() as int),
            digits == unsigned_digits(s@),
            cap < 1_000_000_000_000_000_000,
            all_digits(s@.subrange(start as int, i as int)),
            decimal_value(s@.subrange(start as int, i as int)) <= cap ==> acc == decimal_value(
                s@.subrange(start as int, i as int),
            ),
            decimal_value(s@.subrange(start as int, i as int)) > cap ==> acc == cap + 1,
        decreases s.len() - i,
    {
        let c = s[i];
        if !char_is_digit(c) {
            assert(!all_digits(digits)) by {
                let k = i as int - start as int;
                assert(0 <= k < digits.len());
                assert(digits[k] == s@[i as int]);
                assert(!is_digit(digits[k]));
            }
            assert(!is_unsigned_number(s@));
            return None;
        }
        let d = digit_of(c);
        let ghost prefix = s@.subrange(start as int, i as int);
        let ghost next = s@.subrange(start as int, i + 1);
        proof {
            assert(next.drop_last() =~= prefix);
            assert(next.last() == c);
            assert(decimal_value(next) == decimal_value(prefix) * 10 + d);
            assert(all_digits(next)) by {
                assert forall|j: int| 0 <= j < next.len() implies is_digit(#[trigger] next[j]) by {
                    if j < next.len() - 1 {
                        assert(next[j] == prefix[j]);
                    }
                }
            }
        }
        if acc > cap {
            proof {
                assert(decimal_value(prefix) > cap);
                assert(decimal_value(next) > cap) by (nonlinear_arith)
                    requires
                        decimal_value(next) == decimal_value(prefix) * 10 + d,
                        decimal_value(prefix) > cap,
                ;
            }
        } else {
            let v = acc * 10 + d;
            if v > cap {
                acc = cap + 1;
            } else {
                acc = v;
            }
        }
        i = i + 1;
    }
    Some(acc)
}

/// Appends the last `width` decimal digits of `n`, with leading zeros.
pub fn push_padded_decimal(out: &mut Vec<char>, n: u64, width: usize)
    ensures
        final(out)@ == old(out)@ + padded_decimal(n as nat, width as nat),
    decreases width,
{
    if width == 0 {
        assert(old(out)@ + Seq::<char>::empty() =~= old(out)@);
        return;
    }
    push_padded_decimal(out, n / 10, width - 1);
    let d = n % 10;
    let c = if d == 0 {
        '0'
    } else if d == 1 {
        '1'
    } else if d == 2 {
        '2'
    } else if d == 3 {
        '3'
    } else if d == 4 {
        '4'
    } else if d == 5 {
        '5'
    } else if d == 6 {
        '6'
    } else if d == 7 {
        '7'
    } else if d == 8 {
        '8'
    } else {
        '9'
    };
    out.push(c);
    proof {
        let rest = padded_decimal((n / 10) as nat, (width - 1) as nat);
        assert(padded_decimal(n as nat, width as nat) == rest.push(digit_char((n % 10) as nat)));
        assert(old(out)@ + rest.push(c) =~= (old(out)@ + rest).push(c));
    }
}

pub open spec fn pow10(w: nat) -> nat
    decreases w,
{
    if w == 0 {
        1
    } else {
        10 * pow10((w - 1) as nat)
    }
}

pub proof fn lemma_digit_char(d: nat)
    requires
        d < 10,
    ensures
        is_digit(digit_char(d)),
        digit_value(digit_char(d)) == d,
        !is_white_space(digit_char(d)),
{
}

/// The padded digits of `n` are `width` digits that write `n` modulo `10^width`.
pub proof fn lemma_padded_decimal(n: nat, width: nat)
    ensures
        padded_decimal(n, width).len() == width,
        all_digits(padded_decimal(n, width)),
        decimal_value(padded_decimal(n, width)) == n % pow10(width),
        pow10(width) > 0,
    decreases width,
{
    if width > 0 {
        let w1 = (width - 1) as nat;
        let rest = padded_decimal(n / 10, w1);
        lemma_padded_decimal(n / 10, w1);
        lemma_digit_char(n % 10);
        let p = padded_decimal(n, width);
        assert(p.drop_last() =~= rest);
        assert forall|i: int| 0 <= i < p.len() implies is_digit(#[trigger] p[i]) by {
            if i < rest.len() {
                assert(p[i] == rest[i]);
            }
        }
        assert(decimal_value(p) == decimal_value(rest) * 10 + n % 10);
        vstd::arithmetic::div_mod::lemma_mod_breakdown(n as int, 10, pow10(w1) as int);
        assert(pow10(width) == 10 * pow10(w1));
    }
}

/// Taking out white space commutes with concatenation.
pub proof fn lemma_without_white_space_concat(a: Seq<char>, b: Seq<char>)
    ensures
        without_white_space(a + b) == without_white_space(a) + without_white_space(b),
    decreases b.len(),
{
    if b.len() == 0 {
        assert(a + b =~= a);
        assert(without_white_space(a) + without_white_space(b) =~= without_white_space(a));
    } else {
        assert((a + b).drop_last() =~= a + b.drop_last());
        assert((a + b).last() == b.last());
        lemma_without_white_space_concat(a, b.drop_last());
        if !is_white_space(b.last()) {
            assert(without_white_space(a) + without_white_space(b.drop_last()).push(b.last())
                =~= (without_white_space(a) + without_white_space(b.drop_last())).push(b.last()));
        }
    }
}

/// Text without white space is left as it is.
pub proof fn lemma_without_white_space_keeps(s: Seq<char>)
    requires
        forall|i: int| 0 <= i < s.len() ==> !is_white_space(#[trigger] s[i]),
    ensures
        without_white_space(s) == s,
    decreases s.len(),
{
    if s.len() > 0 {
        lemma_without_white_space_keeps(s.drop_last());
        assert(without_white_space(s.drop_last()).push(s.last()) =~= s);
    }
}

/// Digits are not white space.
pub proof fn lemma_digits_keep(s: Seq<char>)
    requires
        all_digits(s),
    ensures
        without_white_space(s) == s,
{
    assert forall|i: int| 0 <= i < s.len() implies !is_white_space(#[trigger] s[i]) by {
        assert(is_digit(s[i]));
    }
    lemma_without_white_space_keeps(s);
}

/// The value of two runs of digits written one after the other.
pub proof fn lemma_decimal_value_concat(a: Seq<char>, b: Seq<char>)
    ensures
        decimal_value(a + b) == decimal_value(a) * pow10(b.len()) + decimal_value(b),
    decreases b.len(),
{
    if b.len() == 0 {
        assert(a + b =~= a);
        assert(pow10(0) == 1);
        assert(decimal_value(a) * 1 == decimal_value(a));
    } else {
        let b1 = b.drop_last();
        assert((a + b).drop_last() =~= a + b1);
        assert((a + b).last() == b.last());
        lemma_decimal_value_concat(a, b1);
        assert(pow10(b.len()) == 10 * pow10(b1.len()));
        assert(decimal_value(a + b) == (decimal_value(a) * pow10(b1.len()) + decimal_value(b1))
            * 10 + digit_value(b.last()));
        assert((decimal_value(a) * pow10(b1.len()) + decimal_value(b1)) * 10 + digit_value(
            b.last(),
        ) == decimal_value(a) * (10 * pow10(b1.len())) + (decimal_value(b1) * 10 + digit_value(
            b.last(),
        ))) by (nonlinear_arith);
        assert(decimal_value(b) == decimal_value(b1) * 10 + digit_value(b.last()));
    }
}

pub proof fn lemma_all_digits_concat(a: Seq<char>, b: Seq<char>)
    requires
        all_digits(a),
        all_digits(b),
    ensures
        all_digits(a + b),
{
    assert forall|i: int| 0 <= i < (a + b).len() implies is_digit(#[trigger] (a + b)[i]) by {
        if i < a.len() {
            assert((a + b)[i] == a[i]);
        } else {
            assert((a + b)[i] == b[i - a.len()]);
        }
    }
}

pub proof fn lemma_single_space()
    ensures
        without_white_space(seq![' ']) == Seq::<char>::empty(),
{
    let sp = seq![' '];
    assert(sp.drop_last() =~= Seq::<char>::empty());
    assert(sp.last() == ' ');
    assert(is_white_space(' '));
    assert(sp.len() == 1);
    assert(without_white_space(Seq::<char>::empty()) == Seq::<char>::empty());
    assert(without_white_space(sp) == without_white_space(sp.drop_last()));
}

} // verus!
