//! The German social insurance number.

use crate::error::FormatError;
use crate::text::{
    digit_char, lemma_digit_char, lemma_digits_keep, lemma_padded_decimal, lemma_single_space,
    lemma_without_white_space_concat, lemma_without_white_space_keeps,
    char_is_digit, digit_of, lemma_no_white_space_left,
    digit_value, is_digit, is_white_space, padded_decimal, push_padded_decimal, string_from_chars,
    strip_white_space, without_white_space,
};
use vstd::prelude::*;

verus! {

/// The pension insurance carriers, each with the two-digit area number that
/// opens the numbers it issues.
#[derive(Clone, Copy, PartialEq, Eq, Structural, Debug)]
pub enum RegionCode {
    MecklenburgVorpommern,
    Thueringen,
    Brandenburg,
    SachsenAnhalt,
    Sachsen,
    Hannover,
    Westfalen,
    Hessen,
    Rheinprovinz,
    Oberbayern,
    NiederbayernOberpfalz,
    RheinlandPfalz,
    Saarland,
    OberMittelFranken,
    Hamburg,
    Unterfranken,
    Schwaben,
    Wuerttemberg,
    Baden,
    Berlin,
    SchleswigHolstein,
    OldenburgBremen,
    Braunschweig,
    KnappschaftBahnSeeBahn,
    KnappschaftBahnSeeSeefahrt,
    ZentraleAnlagestelleAltersvermoegen,
    BundMecklenburgVorpommern,
    BundThueringen,
    BundBrandenburg,
    BundSachsenAnhalt,
    BundSachsen,
    BundHannover,
    BundWestfalen,
    BundHessen,
    BundRheinprovinz,
    BundOberbayern,
    BundNiederbayernOberpfalz,
    BundRheinlandPfalz,
    BundSaarland,
    BundOberMittelFranken,
    BundHamburg,
    BundUnterfranken,
    BundSchwaben,
    BundWuerttemberg,
    BundBaden,
    BundBerlin,
    BundSchleswigHolstein,
    BundOldenburgBremen,
    BundBraunschweig,
    BundKnappschaftBahnSeeBahn,
    BundKnappschaftBahnSeeSeefahrt,
    KnappschaftBahnSeeBBHNWSH,
    KnappschaftBahnSeeHR,
    KnappschaftBahnSeeBWBRPS,
    KnappschaftBahnSeeBMVSAST,
}

impl RegionCode {
    pub open spec fn code(self) -> nat {
        match self {
            RegionCode::MecklenburgVorpommern => 2,
            RegionCode::Thueringen => 3,
            RegionCode::Brandenburg => 4,
            RegionCode::SachsenAnhalt => 8,
            RegionCode::Sachsen => 9,
            RegionCode::Hannover => 10,
            RegionCode::Westfalen => 11,
            RegionCode::Hessen => 12,
            RegionCode::Rheinprovinz => 13,
            RegionCode::Oberbayern => 14,
            RegionCode::NiederbayernOberpfalz => 15,
            RegionCode::RheinlandPfalz => 16,
            RegionCode::Saarland => 17,
            RegionCode::OberMittelFranken => 18,
            RegionCode::Hamburg => 19,
            RegionCode::Unterfranken => 20,
            RegionCode::Schwaben => 21,
            RegionCode::Wuerttemberg => 23,
            RegionCode::Baden => 24,
            RegionCode::Berlin => 25,
            RegionCode::SchleswigHolstein => 26,
            RegionCode::OldenburgBremen => 28,
            RegionCode::Braunschweig => 29,
            RegionCode::KnappschaftBahnSeeBahn => 38,
            RegionCode::KnappschaftBahnSeeSeefahrt => 39,
            RegionCode::ZentraleAnlagestelleAltersvermoegen => 40,
            RegionCode::BundMecklenburgVorpommern => 42,
            RegionCode::BundThueringen => 43,
            RegionCode::BundBrandenburg => 44,
            RegionCode::BundSachsenAnhalt => 48,
            RegionCode::BundSachsen => 49,
            RegionCode::BundHannover => 50,
            RegionCode::BundWestfalen => 51,
            RegionCode::BundHessen => 52,
            RegionCode::BundRheinprovinz => 53,
            RegionCode::BundOberbayern => 54,
            RegionCode::BundNiederbayernOberpfalz => 55,
            RegionCode::BundRheinlandPfalz => 56,
            RegionCode::BundSaarland => 57,
            RegionCode::BundOberMittelFranken => 58,
            RegionCode::BundHamburg => 59,
            RegionCode::BundUnterfranken => 60,
            RegionCode::BundSchwaben => 61,
            RegionCode::BundWuerttemberg => 63,
            RegionCode::BundBaden => 64,
            RegionCode::BundBerlin => 65,
            RegionCode::BundSchleswigHolstein => 66,
            RegionCode::BundOldenburgBremen => 68,
            RegionCode::BundBraunschweig => 69,
            RegionCode::BundKnappschaftBahnSeeBahn => 78,
            RegionCode::BundKnappschaftBahnSeeSeefahrt => 79,
            RegionCode::KnappschaftBahnSeeBBHNWSH => 80,
            RegionCode::KnappschaftBahnSeeHR => 81,
            RegionCode::KnappschaftBahnSeeBWBRPS => 82,
            RegionCode::KnappschaftBahnSeeBMVSAST => 89,
        }
    }

    /// The two-digit area number of the carrier.
    pub fn number(&self) -> (r: u8)
        ensures
            r == self.code(),
    {
        match self {
            RegionCode::MecklenburgVorpommern => 2,
            RegionCode::Thueringen => 3,
            RegionCode::Brandenburg => 4,
            RegionCode::SachsenAnhalt => 8,
            RegionCode::Sachsen => 9,
            RegionCode::Hannover => 10,
            RegionCode::Westfalen => 11,
            RegionCode::Hessen => 12,
            RegionCode::Rheinprovinz => 13,
            RegionCode::Oberbayern => 14,
            RegionCode::NiederbayernOberpfalz => 15,
            RegionCode::RheinlandPfalz => 16,
            RegionCode::Saarland => 17,
            RegionCode::OberMittelFranken => 18,
            RegionCode::Hamburg => 19,
            RegionCode::Unterfranken => 20,
            RegionCode::Schwaben => 21,
            RegionCode::Wuerttemberg => 23,
            RegionCode::Baden => 24,
            RegionCode::Berlin => 25,
            RegionCode::SchleswigHolstein => 26,
            RegionCode::OldenburgBremen => 28,
            RegionCode::Braunschweig => 29,
            RegionCode::KnappschaftBahnSeeBahn => 38,
            RegionCode::KnappschaftBahnSeeSeefahrt => 39,
            RegionCode::ZentraleAnlagestelleAltersvermoegen => 40,
            RegionCode::BundMecklenburgVorpommern => 42,
            RegionCode::BundThueringen => 43,
            RegionCode::BundBrandenburg => 44,
            RegionCode::BundSachsenAnhalt => 48,
            RegionCode::BundSachsen => 49,
            RegionCode::BundHannover => 50,
            RegionCode::BundWestfalen => 51,
            RegionCode::BundHessen => 52,
            RegionCode::BundRheinprovinz => 53,
            RegionCode::BundOberbayern => 54,
            RegionCode::BundNiederbayernOberpfalz => 55,
            RegionCode::BundRheinlandPfalz => 56,
            RegionCode::BundSaarland => 57,
            RegionCode::BundOberMittelFranken => 58,
            RegionCode::BundHamburg => 59,
            RegionCode::BundUnterfranken => 60,
            RegionCode::BundSchwaben => 61,
            RegionCode::BundWuerttemberg => 63,
            RegionCode::BundBaden => 64,
            RegionCode::BundBerlin => 65,
            RegionCode::BundSchleswigHolstein => 66,
            RegionCode::BundOldenburgBremen => 68,
            RegionCode::BundBraunschweig => 69,
            RegionCode::BundKnappschaftBahnSeeBahn => 78,
            RegionCode::BundKnappschaftBahnSeeSeefahrt => 79,
            RegionCode::KnappschaftBahnSeeBBHNWSH => 80,
            RegionCode::KnappschaftBahnSeeHR => 81,
            RegionCode::KnappschaftBahnSeeBWBRPS => 82,
            RegionCode::KnappschaftBahnSeeBMVSAST => 89,
        }
    }

    /// The carrier whose area number is `n`, if there is one.
    pub fn from_number(n: u8) -> (r: Option<RegionCode>)
        ensures
            r is Some <==> is_region_code(n as nat),
            r matches Some(c) ==> c.code() == n,
    {
        let r = match n {
            2 => Some(RegionCode::MecklenburgVorpommern),
            3 => Some(RegionCode::Thueringen),
            4 => Some(RegionCode::Brandenburg),
            8 => Some(RegionCode::SachsenAnhalt),
            9 => Some(RegionCode::Sachsen),
            10 => Some(RegionCode::Hannover),
            11 => Some(RegionCode::Westfalen),
            12 => Some(RegionCode::Hessen),
            13 => Some(RegionCode::Rheinprovinz),
            14 => Some(RegionCode::Oberbayern),
            15 => Some(RegionCode::NiederbayernOberpfalz),
            16 => Some(RegionCode::RheinlandPfalz),
            17 => Some(RegionCode::Saarland),
            18 => Some(RegionCode::OberMittelFranken),
            19 => Some(RegionCode::Hamburg),
            20 => Some(RegionCode::Unterfranken),
            21 => Some(RegionCode::Schwaben),
            23 => Some(RegionCode::Wuerttemberg),
            24 => Some(RegionCode::Baden),
            25 => Some(RegionCode::Berlin),
            26 => Some(RegionCode::SchleswigHolstein),
            28 => Some(RegionCode::OldenburgBremen),
            29 => Some(RegionCode::Braunschweig),
            38 => Some(RegionCode::KnappschaftBahnSeeBahn),
            39 => Some(RegionCode::KnappschaftBahnSeeSeefahrt),
            40 => Some(RegionCode::ZentraleAnlagestelleAltersvermoegen),
            42 => Some(RegionCode::BundMecklenburgVorpommern),
            43 => Some(RegionCode::BundThueringen),
            44 => Some(RegionCode::BundBrandenburg),
            48 => Some(RegionCode::BundSachsenAnhalt),
            49 => Some(RegionCode::BundSachsen),
            50 => Some(RegionCode::BundHannover),
            51 => Some(RegionCode::BundWestfalen),
            52 => Some(RegionCode::BundHessen),
            53 => Some(RegionCode::BundRheinprovinz),
            54 => Some(RegionCode::BundOberbayern),
            55 => Some(RegionCode::BundNiederbayernOberpfalz),
            56 => Some(RegionCode::BundRheinlandPfalz),
            57 => Some(RegionCode::BundSaarland),
            58 => Some(RegionCode::BundOberMittelFranken),
            59 => Some(RegionCode::BundHamburg),
            60 => Some(RegionCode::BundUnterfranken),
            61 => Some(RegionCode::BundSchwaben),
            63 => Some(RegionCode::BundWuerttemberg),
            64 => Some(RegionCode::BundBaden),
            65 => Some(RegionCode::BundBerlin),
            66 => Some(RegionCode::BundSchleswigHolstein),
            68 => Some(RegionCode::BundOldenburgBremen),
            69 => Some(RegionCode::BundBraunschweig),
            78 => Some(RegionCode::BundKnappschaftBahnSeeBahn),
            79 => Some(RegionCode::BundKnappschaftBahnSeeSeefahrt),
            80 => Some(RegionCode::KnappschaftBahnSeeBBHNWSH),
            81 => Some(RegionCode::KnappschaftBahnSeeHR),
            82 => Some(RegionCode::KnappschaftBahnSeeBWBRPS),
            89 => Some(RegionCode::KnappschaftBahnSeeBMVSAST),
            _ => None,
        };
        proof {
            match r {
                Some(c) => assert(c.code() == n as nat),
                None => assert forall|c: RegionCode| #[trigger] c.code() != n as nat by {},
            }
        }
        r
    }
}

/// `n` is the area number of one of the carriers.
pub open spec fn is_region_code(n: nat) -> bool {
    exists|c: RegionCode| c.code() == n
}

/// What a social security number holds, field by field.
pub struct SocialSecurityNumberView {
    pub region_code: nat,
    pub day_of_birth: nat,
    pub month_of_birth: nat,
    pub year_of_birth: nat,
    pub first_letter_of_birth_name: char,
    pub serial_number: nat,
    pub check_digit: nat,
}

impl SocialSecurityNumberView {
    pub open spec fn is_valid(self) -> bool {
        &&& is_region_code(self.region_code)
        &&& self.day_of_birth < 100
        &&& self.month_of_birth < 100
        &&& self.year_of_birth < 100
        &&& !is_white_space(self.first_letter_of_birth_name)
        &&& self.serial_number < 100
        &&& self.check_digit < 10
    }
}

/// Two decimal digits stand at `i` and `i + 1`.
pub open spec fn digit_pair(c: Seq<char>, i: int) -> bool {
    is_digit(c[i]) && is_digit(c[i + 1])
}

pub open spec fn pair_value(c: Seq<char>, i: int) -> nat {
    digit_value(c[i]) * 10 + digit_value(c[i + 1])
}

/// Reads the twelve characters `RR DDMMYY L SS C` (without spaces): area number,
/// date of birth, first letter of the birth name, serial number and check digit.
/// The check digit is read but not checked against the others.
pub open spec fn social_security_number_from_clean(c: Seq<char>) -> Result<
    SocialSecurityNumberView,
    FormatError,
> {
    if c.len() != 12 {
        Err(FormatError::WrongLength)
    } else if !(digit_pair(c, 0) && is_region_code(pair_value(c, 0))) {
        Err(FormatError::UnknownRegionCode)
    } else if !digit_pair(c, 2) {
        Err(FormatError::InvalidDayOfBirth)
    } else if !digit_pair(c, 4) {
        Err(FormatError::InvalidMonthOfBirth)
    } else if !digit_pair(c, 6) {
        Err(FormatError::InvalidYearOfBirth)
    } else if !digit_pair(c, 9) {
        Err(FormatError::InvalidSerialNumber)
    } else if !is_digit(c[11]) {
        Err(FormatError::InvalidCheckDigit)
    } else {
        Ok(
            SocialSecurityNumberView {
                region_code: pair_value(c, 0),
                day_of_birth: pair_value(c, 2),
                month_of_birth: pair_value(c, 4),
                year_of_birth: pair_value(c, 6),
                first_letter_of_birth_name: c[8],
                serial_number: pair_value(c, 9),
                check_digit: digit_value(c[11]),
            },
        )
    }
}

/// What a social security number read from the text `s` is; white space anywhere
/// in `s` is ignored.
pub open spec fn social_security_number_from_text(s: Seq<char>) -> Result<
    SocialSecurityNumberView,
    FormatError,
> {
    social_security_number_from_clean(without_white_space(s))
}

/// The canonical text `RR DDMMYY LSSC`.
pub open spec fn social_security_number_text(v: SocialSecurityNumberView) -> Seq<char> {
    padded_decimal(v.region_code, 2) + seq![' '] + padded_decimal(v.day_of_birth, 2)
        + padded_decimal(v.month_of_birth, 2) + padded_decimal(v.year_of_birth, 2) + seq![' ']
        + seq![v.first_letter_of_birth_name] + padded_decimal(v.serial_number, 2)
        + padded_decimal(v.check_digit, 1)
}

#[derive(Clone, Copy, PartialEq, Eq, Debug)]
pub struct SocialSecurityNumber {
    region_code: RegionCode,
    day_of_birth: u8,
    month_of_birth: u8,
    year_of_birth: u8,
    first_letter_of_birth_name: char,
    serial_number: u8,
    check_digit: u8,
}

impl View for SocialSecurityNumber {
    type V = SocialSecurityNumberView;

    closed spec fn view(&self) -> SocialSecurityNumberView {
        SocialSecurityNumberView {
            region_code: self.region_code.code(),
            day_of_birth: self.day_of_birth as nat,
            month_of_birth: self.month_of_birth as nat,
            year_of_birth: self.year_of_birth as nat,
            first_letter_of_birth_name: self.first_letter_of_birth_name,
            serial_number: self.serial_number as nat,
            check_digit: self.check_digit as nat,
        }
    }
}

/// Reads the two digits at `i` and `i + 1`.
fn read_pair(c: &Vec<char>, i: usize) -> (r: Option<u8>)
    requires
        c@.len() == 12,
        i < 11,
    ensures
        r is Some <==> digit_pair(c@, i as int),
        r matches Some(v) ==> v == pair_value(c@, i as int) && v < 100,
{
    if char_is_digit(c[i]) && char_is_digit(c[i + 1]) {
        let tens = digit_of(c[i]);
        let ones = digit_of(c[i + 1]);
        Some((tens * 10 + ones) as u8)
    } else {
        None
    }
}

impl SocialSecurityNumber {
    #[verifier::type_invariant]
    spec fn well_formed(self) -> bool {
        self@.is_valid()
    }

    /// Reads a social security number; white space is ignored wherever it stands,
    /// so `"50 010101 N012"` and `"50010101N012"` give the same number.
    pub fn parse(text: &str) -> (r: Result<SocialSecurityNumber, FormatError>)
        ensures
            match social_security_number_from_text(text@) {
                Ok(v) => r matches Ok(n) && n@ == v,
                Err(e) => r == Err::<SocialSecurityNumber, FormatError>(e),
            },
    {
        let c = strip_white_space(text);
        proof {
            lemma_no_white_space_left(text@);
        }
        if c.len() != 12 {
            return Err(FormatError::WrongLength);
        }
        let region_code = match read_pair(&c, 0) {
            Some(n) => match RegionCode::from_number(n) {
                Some(code) => code,
                None => return Err(FormatError::UnknownRegionCode),
            },
            None => return Err(FormatError::UnknownRegionCode),
        };
        let day_of_birth = match read_pair(&c, 2) {
            Some(n) => n,
            None => return Err(FormatError::InvalidDayOfBirth),
        };
        let month_of_birth = match read_pair(&c, 4) {
            Some(n) => n,
            None => return Err(FormatError::InvalidMonthOfBirth),
        };
        let year_of_birth = match read_pair(&c, 6) {
            Some(n) => n,
            None => return Err(FormatError::InvalidYearOfBirth),
        };
        let first_letter_of_birth_name = c[8];
        let serial_number = match read_pair(&c, 9) {
            Some(n) => n,
            None => return Err(FormatError::InvalidSerialNumber),
        };
        if !char_is_digit(c[11]) {
            return Err(FormatError::InvalidCheckDigit);
        }
        let check_digit = digit_of(c[11]) as u8;
        assert(!is_white_space(c@[8]));
        Ok(
            SocialSecurityNumber {
                region_code,
                day_of_birth,
                month_of_birth,
                year_of_birth,
                first_letter_of_birth_name,
                serial_number,
                check_digit,
            },
        )
    }

    /// The canonical text: `"50 010101 N012"`.
    pub fn to_string(&self) -> (r: String)
        ensures
            r@ == social_security_number_text(self@),
            self@.is_valid(),
            social_security_number_from_text(r@) == Ok::<
                SocialSecurityNumberView,
                FormatError,
            >(self@),
    {
        proof {
            use_type_invariant(self);
            lemma_social_security_number_text_round_trip(self@);
        }
        let mut chars: Vec<char> = Vec::new();
        push_padded_decimal(&mut chars, self.region_code.number() as u64, 2);
        chars.push(' ');
        push_padded_decimal(&mut chars, self.day_of_birth as u64, 2);
        push_padded_decimal(&mut chars, self.month_of_birth as u64, 2);
        push_padded_decimal(&mut chars, self.year_of_birth as u64, 2);
        chars.push(' ');
        chars.push(self.first_letter_of_birth_name);
        push_padded_decimal(&mut chars, self.serial_number as u64, 2);
        push_padded_decimal(&mut chars, self.check_digit as u64, 1);
        assert(chars@ =~= social_security_number_text(self@));
        string_from_chars(&chars)
    }
}

proof fn lemma_two_digits(n: nat)
    requires
        n < 100,
    ensures
        padded_decimal(n, 2) == seq![digit_char((n / 10) % 10), digit_char(n % 10)],
        is_digit(digit_char((n / 10) % 10)),
        is_digit(digit_char(n % 10)),
        digit_value(digit_char((n / 10) % 10)) * 10 + digit_value(digit_char(n % 10)) == n,
{
    reveal_with_fuel(padded_decimal, 3);
    assert(padded_decimal(n, 2) =~= seq![digit_char((n / 10) % 10), digit_char(n % 10)]);
    lemma_digit_char((n / 10) % 10);
    lemma_digit_char(n % 10);
    assert(((n / 10) % 10) * 10 + n % 10 == n) by (nonlinear_arith)
        requires
            n < 100,
    ;
}

/// The canonical text of a social security number reads back as the same number.
pub proof fn lemma_social_security_number_text_round_trip(v: SocialSecurityNumberView)
    requires
        v.is_valid(),
    ensures
        social_security_number_from_text(social_security_number_text(v)) == Ok::<
            SocialSecurityNumberView,
            FormatError,
        >(v),
{
    let pr = padded_decimal(v.region_code, 2);
    let pd = padded_decimal(v.day_of_birth, 2);
    let pm = padded_decimal(v.month_of_birth, 2);
    let py = padded_decimal(v.year_of_birth, 2);
    let pl = seq![v.first_letter_of_birth_name];
    let ps = padded_decimal(v.serial_number, 2);
    let pk = padded_decimal(v.check_digit, 1);
    let sp = seq![' '];
    assert(v.region_code < 100) by {
        let c = choose|c: RegionCode| c.code() == v.region_code;
        assert(c.code() < 100);
    }
    lemma_two_digits(v.region_code);
    lemma_two_digits(v.day_of_birth);
    lemma_two_digits(v.month_of_birth);
    lemma_two_digits(v.year_of_birth);
    lemma_two_digits(v.serial_number);
    reveal_with_fuel(padded_decimal, 2);
    assert(pk =~= seq![digit_char(v.check_digit % 10)]);
    lemma_digit_char(v.check_digit % 10);
    lemma_single_space();
    lemma_padded_decimal(v.region_code, 2);
    lemma_padded_decimal(v.day_of_birth, 2);
    lemma_padded_decimal(v.month_of_birth, 2);
    lemma_padded_decimal(v.year_of_birth, 2);
    lemma_padded_decimal(v.serial_number, 2);
    lemma_padded_decimal(v.check_digit, 1);
    lemma_digits_keep(pr);
    lemma_digits_keep(pd);
    lemma_digits_keep(pm);
    lemma_digits_keep(py);
    lemma_digits_keep(ps);
    lemma_digits_keep(pk);
    assert(pl[0] == v.first_letter_of_birth_name);
    lemma_without_white_space_keeps(pl);
    lemma_without_white_space_concat(pr, sp);
    lemma_without_white_space_concat(pr + sp, pd);
    lemma_without_white_space_concat(pr + sp + pd, pm);
    lemma_without_white_space_concat(pr + sp + pd + pm, py);
    lemma_without_white_space_concat(pr + sp + pd + pm + py, sp);
    lemma_without_white_space_concat(pr + sp + pd + pm + py + sp, pl);
    lemma_without_white_space_concat(pr + sp + pd + pm + py + sp + pl, ps);
    lemma_without_white_space_concat(pr + sp + pd + pm + py + sp + pl + ps, pk);
    let clean = without_white_space(social_security_number_text(v));
    assert(clean =~= pr + pd + pm + py + pl + ps + pk);
    assert(clean =~= seq![
        pr[0], pr[1], pd[0], pd[1], pm[0], pm[1], py[0], py[1],
        v.first_letter_of_birth_name, ps[0], ps[1], pk[0],
    ]);
    assert(digit_pair(clean, 0) && pair_value(clean, 0) == v.region_code);
    assert(digit_pair(clean, 2) && pair_value(clean, 2) == v.day_of_birth);
    assert(digit_pair(clean, 4) && pair_value(clean, 4) == v.month_of_birth);
    assert(digit_pair(clean, 6) && pair_value(clean, 6) == v.year_of_birth);
    assert(digit_pair(clean, 9) && pair_value(clean, 9) == v.serial_number);
    assert(is_digit(clean[11]) && digit_value(clean[11]) == v.check_digit);
}

} // verus!
