//! Validation of data items: the format rules, and what each step of a
//! validation turns into.
//!
//! A validation checks the format, asks for consensus, then stores the
//! result. Asking and storing are done by the caller; the functions here
//! decide what follows from each answer.

use vstd::prelude::*;

verus! {

/// The longest text, in bytes, that is accepted.
pub const MAX_TEXT_BYTES: usize = 1000;

/// The largest image, in bytes, that is accepted.
pub const MAX_IMAGE_BYTES: usize = 10_000_000;

/// The binary64 bit pattern of `1.0`.
pub const ONE_BITS: u64 = 0x3FF0_0000_0000_0000;

/// The binary64 bit pattern of `-0.0`.
pub const NEGATIVE_ZERO_BITS: u64 = 0x8000_0000_0000_0000;

/// Why a validation did not produce a result.
#[derive(Clone, Debug, PartialEq, Eq)]
pub enum ValidationError {
    InvalidFormat,
    ConsensusFailure,
    DatabaseError(String),
    Unknown,
}

impl ValidationError {
    /// The text of the error's message.
    pub open spec fn spec_message(self) -> Seq<char> {
        match self {
            ValidationError::InvalidFormat => "Invalid data format"@,
            ValidationError::ConsensusFailure => "Consensus not reached"@,
            ValidationError::DatabaseError(detail) => "Database error: "@ + detail@,
            ValidationError::Unknown => "Unknown error occurred"@,
        }
    }

    /// The error's message, for display.
    pub fn message(&self) -> (message: String)
        ensures
            message@ == self.spec_message(),
    {
        match self {
            ValidationError::InvalidFormat => String::from_str("Invalid data format"),
            ValidationError::ConsensusFailure => String::from_str("Consensus not reached"),
            ValidationError::DatabaseError(detail) => {
                String::from_str("Database error: ").concat(detail.as_str())
            },
            ValidationError::Unknown => String::from_str("Unknown error occurred"),
        }
    }
}

/// What the validators agreed on. The confidence is carried as the bit
/// pattern of a binary64 number and is not looked at here.
#[derive(Clone, Copy, Debug, PartialEq, Eq, Structural)]
pub struct ValidationResult {
    pub is_valid: bool,
    pub confidence_bits: u64,
    pub validator_count: usize,
}

/// An item to validate. A number is held as its binary64 bit pattern.
#[derive(Clone, Debug, PartialEq, Eq)]
pub enum DataItem {
    Text(String),
    Image(Vec<u8>),
    Numeric(u64),
}

/// The bit patterns of the binary64 numbers from zero to one, both
/// included. The patterns of the numbers `+0.0` to `1.0` are the integers
/// from zero to [`ONE_BITS`]; `-0.0`, which equals zero, is the one pattern
/// with the sign bit set that belongs here. No pattern of an infinity or of
/// a NaN does.
pub open spec fn in_unit_interval(bits: u64) -> bool {
    bits <= ONE_BITS || bits == NEGATIVE_ZERO_BITS
}

/// The format rules: a text is not empty and has at most
/// [`MAX_TEXT_BYTES`] bytes in UTF-8; an image is not empty and has at most
/// [`MAX_IMAGE_BYTES`] bytes; a number lies between zero and one.
pub open spec fn valid_format(data: DataItem) -> bool {
    match data {
        DataItem::Text(text) => {
            text@.len() > 0 && vstd::utf8::encode_utf8(text@).len() <= MAX_TEXT_BYTES
        },
        DataItem::Image(image) => 0 < image@.len() <= MAX_IMAGE_BYTES,
        DataItem::Numeric(bits) => in_unit_interval(bits),
    }
}

/// Whether `data` meets the format rules.
pub fn is_valid_format(data: &DataItem) -> (valid: bool)
    ensures
        valid == valid_format(*data),
{
    match data {
        DataItem::Text(text) => {
            let text: &str = text.as_str();
            !text.is_empty() && text.as_bytes().len() <= MAX_TEXT_BYTES
        },
        DataItem::Image(image) => image.len() > 0 && image.len() <= MAX_IMAGE_BYTES,
        DataItem::Numeric(bits) => *bits <= ONE_BITS || *bits == NEGATIVE_ZERO_BITS,
    }
}

/// The first step of a validation: an item that breaks the format rules is
/// rejected with `InvalidFormat`, any other goes on to consensus.
pub fn check_format(data: &DataItem) -> (checked: Result<(), ValidationError>)
    ensures
        checked == if valid_format(*data) {
            Ok::<(), ValidationError>(())
        } else {
            Err::<(), ValidationError>(ValidationError::InvalidFormat)
        },
{
    if is_valid_format(data) {
        Ok(())
    } else {
        Err(ValidationError::InvalidFormat)
    }
}

/// The second step: what the validators agreed on goes on to be stored; if
/// they reached nothing, the validation ends with `ConsensusFailure`.
pub fn consensus_verdict(reached: Option<ValidationResult>) -> (verdict: Result<
    ValidationResult,
    ValidationError,
>)
    ensures
        verdict == match reached {
            Some(result) => Ok::<ValidationResult, ValidationError>(result),
            None => Err::<ValidationResult, ValidationError>(ValidationError::ConsensusFailure),
        },
{
    match reached {
        Some(result) => Ok(result),
        None => Err(ValidationError::ConsensusFailure),
    }
}

/// The last step: a stored result is the validation's result; a result
/// that could not be stored ends the validation with `DatabaseError` and
/// the store's own words.
pub fn storage_verdict(result: ValidationResult, stored: Result<(), String>) -> (verdict: Result<
    ValidationResult,
    ValidationError,
>)
    ensures
        verdict == match stored {
            Ok(_) => Ok::<ValidationResult, ValidationError>(result),
            Err(detail) => Err::<ValidationResult, ValidationError>(
                ValidationError::DatabaseError(detail),
            ),
        },
{
    match stored {
        Ok(_) => Ok(result),
        Err(detail) => Err(ValidationError::DatabaseError(detail)),
    }
}

} // verus!
