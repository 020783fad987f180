use vstd::prelude::*;

verus! {

/// Errors that may occur while encoding, decoding or configuring.
#[derive(Debug, Clone, Copy, PartialEq, Eq, Structural)]
pub enum RowIDError {
    /// A point in time lies before the Unix epoch.
    SystemTimeBeforeEpoch,
    /// The encoded text is shorter than the timestamp width.
    EncodedLength,
    /// The timestamp part holds a character outside the alphabet.
    InvalidEncoded,
    /// The alphabet is too short to configure with.
    CharListLength,
}

impl RowIDError {
    /// The error message.
    pub fn as_str(&self) -> (r: &'static str)
        ensures
            *self == RowIDError::SystemTimeBeforeEpoch ==> r@
                == "System time must not before the Unix epoch"@,
            *self == RowIDError::EncodedLength ==> r@ == "Encoded is not long enough to be decoded"@,
            *self == RowIDError::InvalidEncoded ==> r@ == "Encoded is not valid"@,
            *self == RowIDError::CharListLength ==> r@
                == "The length of char_list must be longer or equal to 28"@,
    {
        match self {
            RowIDError::SystemTimeBeforeEpoch => "System time must not before the Unix epoch",
            RowIDError::EncodedLength => "Encoded is not long enough to be decoded",
            RowIDError::InvalidEncoded => "Encoded is not valid",
            RowIDError::CharListLength => "The length of char_list must be longer or equal to 28",
        }
    }
}

} // verus!
