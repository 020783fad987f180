use vstd::prelude::*;
use vstd::string::*;

use crate::common::configs::TIMESTAMP_LENGTH;
use crate::common::errors::RowIDError;
use crate::common::text::chars_of;
use crate::radix::{char_key, decode_spec, keys_of, timestamp_from_keys, upper_keys};

verus! {

/// An alphabet and text whose start holds an encoded timestamp.
pub struct DecodeOptions<'a> {
    pub char_list: &'a str,
    pub encoded: &'a str,
}

/// Reads the first `TIMESTAMP_LENGTH` characters of the text as a timestamp,
/// comparing characters with the alphabet by their upper-case forms.
pub fn _decode(opts: DecodeOptions) -> (r: Result<usize, RowIDError>)
    ensures
        r == decode_spec(opts.char_list@, opts.encoded@),
{
    let encoded = opts.encoded;
    if encoded.unicode_len() < TIMESTAMP_LENGTH {
        return Err(RowIDError::EncodedLength);
    }
    let char_keys = upper_keys(&chars_of(opts.char_list));
    let mut encoded_keys: Vec<String> = Vec::new();
    let mut i: usize = 0;
    while i < TIMESTAMP_LENGTH
        invariant
            encoded@.len() >= TIMESTAMP_LENGTH,
            i <= TIMESTAMP_LENGTH,
            encoded_keys@.len() == i,
            forall|j: int|
                0 <= j < i ==> (#[trigger] encoded_keys@[j])@ == keys_of(
                    encoded@.take(TIMESTAMP_LENGTH as int),
                )[j],
        decreases TIMESTAMP_LENGTH - i,
    {
        encoded_keys.push(char_key(encoded.get_char(i)));
        i += 1;
    }
    assert(encoded_keys.deep_view() =~= keys_of(encoded@.take(TIMESTAMP_LENGTH as int)));
    timestamp_from_keys(&char_keys, &encoded_keys)
}

} // verus!
