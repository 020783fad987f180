//! The identifier functions over the default alphabet and randomness length.
use std::time::SystemTime;
use vstd::prelude::*;

use crate::common::configs::{CHAR_LIST, RANDOMNESS_LENGTH};
use crate::functions::decode::{_decode, DecodeOptions};
use crate::functions::encode::{_encode, EncodeOptions};
use crate::functions::generate::{_generate, is_identifier_for, GenerateOptions};
use crate::functions::get_randomness::{_get_randomness, GetRandomnessOptions};
use crate::functions::rowid::{_rowid, RowIDOptions};
use crate::functions::verify::{_verify, _verify_at, verify_spec, VerifyOptions};
use crate::radix::{decode_spec, drawn_from, encode_spec};
use crate::time::{timestamp_since_epoch, timestamp_since_epoch_spec};

pub use crate::common::errors::RowIDError;
pub use crate::functions::generate::GenerateResult;
pub use crate::functions::verify::VerifyResult;

verus! {

/// The default alphabet.
pub open spec fn default_alphabet() -> Seq<char> {
    CHAR_LIST@
}

/// The default alphabet has 32 characters.
pub proof fn lemma_default_alphabet_len()
    ensures
        default_alphabet().len() == 32,
{
    reveal_strlit("0123456789ABCDEFGHJKMNPQRSTVWXYZ");
}

/// Generates a 32-character identifier for the current time.
pub fn rowid() -> (r: String)
    ensures
        exists|t: usize|
            is_identifier_for(default_alphabet(), t as nat, RANDOMNESS_LENGTH as nat, r@),
{
    proof {
        lemma_default_alphabet_len();
    }
    _rowid(RowIDOptions { char_list: CHAR_LIST, randomness_length: RANDOMNESS_LENGTH })
}

/// Encodes a timestamp in milliseconds, without randomness.
pub fn encode(timestamp: usize) -> (r: Result<String, RowIDError>)
    ensures
        r matches Ok(s) && s@ == encode_spec(default_alphabet(), timestamp as nat),
{
    proof {
        lemma_default_alphabet_len();
    }
    _encode(EncodeOptions { char_list: CHAR_LIST, timestamp })
}

/// Encodes a point in time, without randomness; an instant before the Unix
/// epoch is refused.
pub fn encode_system_time(system_time: SystemTime) -> (r: Result<String, RowIDError>)
    ensures
        match timestamp_since_epoch_spec(system_time) {
            Some(t) => r matches Ok(s) && s@ == encode_spec(default_alphabet(), t as nat),
            None => r == Err::<String, RowIDError>(RowIDError::SystemTimeBeforeEpoch),
        },
{
    match timestamp_since_epoch(&system_time) {
        Some(timestamp) => encode(timestamp),
        None => Err(RowIDError::SystemTimeBeforeEpoch),
    }
}

/// Decodes the timestamp in milliseconds at the start of an identifier.
pub fn decode(encoded: &str) -> (r: Result<usize, RowIDError>)
    ensures
        r == decode_spec(default_alphabet(), encoded@),
{
    _decode(DecodeOptions { char_list: CHAR_LIST, encoded })
}

/// Generates an identifier for `timestamp`, with `randomness_length`
/// random characters, or the default number where it is `None`.
pub fn generate(timestamp: usize, randomness_length: Option<usize>) -> (r: GenerateResult)
    ensures
        r.success,
        r.error is None,
        r.result is Some,
        is_identifier_for(
            default_alphabet(),
            timestamp as nat,
            match randomness_length {
                Some(l) => l,
                None => RANDOMNESS_LENGTH,
            } as nat,
            r.result->0@,
        ),
{
    proof {
        lemma_default_alphabet_len();
    }
    _generate(
        GenerateOptions {
            char_list: CHAR_LIST,
            timestamp,
            randomness_length: match randomness_length {
                Some(l) => l,
                None => RANDOMNESS_LENGTH,
            },
        },
    )
}

/// Verifies that an identifier decodes, and whether its time is not in the
/// future.
pub fn verify(encoded: &str) -> (r: VerifyResult)
    ensures
        exists|now: usize| r == verify_spec(default_alphabet(), encoded@, now),
{
    let r = _verify(VerifyOptions { char_list: CHAR_LIST, encoded });
    let ghost now = choose|now: usize| r == verify_spec(CHAR_LIST@, encoded@, now);
    assert(r == verify_spec(default_alphabet(), encoded@, now));
    r
}

/// Verifies an identifier as `verify` does, taking `now` as the current
/// time.
pub fn verify_at(encoded: &str, now: usize) -> (r: VerifyResult)
    ensures
        r == verify_spec(default_alphabet(), encoded@, now),
{
    _verify_at(VerifyOptions { char_list: CHAR_LIST, encoded }, now)
}

/// Generates `randomness_length` random characters of the default alphabet.
pub fn get_randomness(randomness_length: usize) -> (r: String)
    ensures
        r@.len() == randomness_length,
        drawn_from(default_alphabet(), r@),
{
    proof {
        lemma_default_alphabet_len();
    }
    _get_randomness(GetRandomnessOptions { char_list: CHAR_LIST, randomness_length })
}

} // verus!
