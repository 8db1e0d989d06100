//! Why a text or a number is not a valid identifier.

use vstd::prelude::*;

verus! {

#[derive(Clone, Copy, PartialEq, Eq, Structural, Debug)]
pub enum FormatError {
    WrongLength,
    InvalidCharacter,
    NotANumber,
    TooSmall,
    TooLarge,
    UnknownRegionCode,
    InvalidDayOfBirth,
    InvalidMonthOfBirth,
    InvalidYearOfBirth,
    InvalidSerialNumber,
    InvalidCheckDigit,
}

impl FormatError {
    /// A sentence for the person who typed the value.
    pub fn message(&self) -> String {
        let text = match self {
            FormatError::WrongLength => "The value has the wrong number of characters.",
            FormatError::InvalidCharacter => "The value holds a character that is not allowed.",
            FormatError::NotANumber => "The value must consist of digits.",
            FormatError::TooSmall => "The number has too few digits.",
            FormatError::TooLarge => "The number has too many digits.",
            FormatError::UnknownRegionCode => "The region code is unknown.",
            FormatError::InvalidDayOfBirth => "The day of birth is invalid.",
            FormatError::InvalidMonthOfBirth => "The month of birth is invalid.",
            FormatError::InvalidYearOfBirth => "The year of birth is invalid.",
            FormatError::InvalidSerialNumber => "The serial number is invalid.",
            FormatError::InvalidCheckDigit => "The check digit is invalid.",
        };
        text.to_owned()
    }
}

} // verus!
