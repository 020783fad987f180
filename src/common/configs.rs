use vstd::prelude::*;

verus! {

/// Number of characters that encode a timestamp.
pub const TIMESTAMP_LENGTH: usize = 10;

/// The default alphabet: digits and upper-case letters without I, L, O and U.
pub const CHAR_LIST: &'static str = "0123456789ABCDEFGHJKMNPQRSTVWXYZ";

/// The default number of random characters after the timestamp.
pub const RANDOMNESS_LENGTH: usize = 22;

/// The shortest alphabet that a configuration accepts.
pub const MIN_CHAR_LIST_LENGTH: usize = 28;

} // verus!
