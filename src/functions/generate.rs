use vstd::prelude::*;
use vstd::string::*;

use crate::common::configs::TIMESTAMP_LENGTH;
use crate::common::errors::RowIDError;
use crate::functions::encode::{_encode, EncodeOptions};
use crate::functions::get_randomness::{_get_randomness, GetRandomnessOptions};
use crate::radix::{drawn_from, encode_spec};

verus! {

/// Whether `id` is an identifier for `timestamp` over `alphabet`: the
/// timestamp's encoding followed by `randomness_length` characters of the
/// alphabet.
pub open spec fn is_identifier_for(
    alphabet: Seq<char>,
    timestamp: nat,
    randomness_length: nat,
    id: Seq<char>,
) -> bool {
    &&& id.len() == TIMESTAMP_LENGTH + randomness_length
    &&& id.take(TIMESTAMP_LENGTH as int) == encode_spec(alphabet, timestamp)
    &&& drawn_from(alphabet, id.skip(TIMESTAMP_LENGTH as int))
}

/// An alphabet, a timestamp and a number of random characters.
pub struct GenerateOptions<'a> {
    pub char_list: &'a str,
    pub timestamp: usize,
    pub randomness_length: usize,
}

/// Result of the `generate` function.
pub struct GenerateResult {
    /// Tells whether the generation is success or not.
    pub success: bool,
    /// Encoded timestamp and randomness based on the input.
    pub result: Option<String>,
    /// Error when the generation is failed.
    pub error: Option<RowIDError>,
}

/// An encoded timestamp followed by random characters.
pub(crate) fn identifier(encoded: String, randomness: String) -> (r: String)
    ensures
        r@ == encoded@ + randomness@,
{
    encoded.concat(randomness.as_str())
}

/// The encoded timestamp followed by random characters of the alphabet.
pub fn _generate(opts: GenerateOptions) -> (r: GenerateResult)
    requires
        opts.char_list@.len() > 0,
    ensures
        r.success,
        r.error is None,
        r.result is Some,
        is_identifier_for(
            opts.char_list@,
            opts.timestamp as nat,
            opts.randomness_length as nat,
            r.result->0@,
        ),
{
    let char_list = opts.char_list;
    let encoded: String = match _encode(EncodeOptions { char_list, timestamp: opts.timestamp }) {
        Ok(res) => res,
        Err(e) => {
            return GenerateResult { success: false, result: None, error: Some(e) };
        },
    };
    let extra_randomness: String = _get_randomness(
        GetRandomnessOptions { char_list, randomness_length: opts.randomness_length },
    );
    let id = identifier(encoded, extra_randomness);
    proof {
        let ghost e = encode_spec(char_list@, opts.timestamp as nat);
        assert(id@.take(TIMESTAMP_LENGTH as int) =~= e);
    }
    GenerateResult { success: true, result: Some(id), error: None }
}

} // verus!
