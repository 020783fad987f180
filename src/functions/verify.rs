use vstd::prelude::*;

use crate::common::errors::RowIDError;
use crate::functions::decode::{_decode, DecodeOptions};
use crate::radix::decode_spec;
use crate::time::now_timestamp;

verus! {

/// An alphabet and an identifier to check.
pub struct VerifyOptions<'a> {
    pub char_list: &'a str,
    pub encoded: &'a str,
}

/// Result of the `verify` function.
pub struct VerifyResult {
    /// Tells whether the verification is success or not.
    pub success: bool,
    /// Decoded timestamp based on the ID.
    pub result: Option<usize>,
    /// Tells whether the ID is natural or not.
    pub natural: Option<bool>,
    /// Error when the verification is failed.
    pub error: Option<RowIDError>,
}

/// What verifying `encoded` over `alphabet` reports when the time is `now`:
/// the decoded timestamp, and whether it does not lie after `now`.
pub open spec fn verify_spec(alphabet: Seq<char>, encoded: Seq<char>, now: usize) -> VerifyResult {
    match decode_spec(alphabet, encoded) {
        Ok(timestamp) => VerifyResult {
            success: true,
            result: Some(timestamp),
            natural: Some(timestamp <= now),
            error: None,
        },
        Err(e) => VerifyResult { success: false, result: None, natural: None, error: Some(e) },
    }
}

/// Decodes the identifier and compares its time with `now`.
pub fn _verify_at(opts: VerifyOptions, now: usize) -> (r: VerifyResult)
    ensures
        r == verify_spec(opts.char_list@, opts.encoded@, now),
{
    let result: usize = match _decode(DecodeOptions { char_list: opts.char_list, encoded: opts.encoded }) {
        Ok(res) => res,
        Err(e) => {
            return VerifyResult { success: false, result: None, natural: None, error: Some(e) };
        },
    };
    VerifyResult { success: true, result: Some(result), natural: Some(result <= now), error: None }
}

/// Decodes the identifier and compares its time with the current time.
pub fn _verify(opts: VerifyOptions) -> (r: VerifyResult)
    ensures
        exists|now: usize| r == verify_spec(opts.char_list@, opts.encoded@, now),
{
    let now = now_timestamp();
    _verify_at(opts, now)
}

} // verus!
