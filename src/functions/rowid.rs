use vstd::prelude::*;

use crate::common::configs::TIMESTAMP_LENGTH;
use crate::functions::encode::{encode_unsafe, EncodeOptions};
use crate::functions::generate::{identifier, is_identifier_for};
use crate::functions::get_randomness::{_get_randomness, GetRandomnessOptions};
use crate::radix::encode_spec;
use crate::time::now_timestamp;

verus! {

/// An alphabet and a number of random characters.
pub struct RowIDOptions<'a> {
    pub char_list: &'a str,
    pub randomness_length: usize,
}

/// An identifier for the current time.
pub fn _rowid(opts: RowIDOptions) -> (r: String)
    requires
        opts.char_list@.len() > 0,
    ensures
        exists|t: usize|
            is_identifier_for(opts.char_list@, t as nat, opts.randomness_length as nat, r@),
{
    let char_list = opts.char_list;
    let now = now_timestamp();
    let encoded = encode_unsafe(EncodeOptions { char_list, timestamp: now });
    let randomness = _get_randomness(
        GetRandomnessOptions { char_list, randomness_length: opts.randomness_length },
    );
    let id = identifier(encoded, randomness);
    assert(id@.take(TIMESTAMP_LENGTH as int) =~= encode_spec(char_list@, now as nat));
    assert(is_identifier_for(char_list@, now as nat, opts.randomness_length as nat, id@));
    id
}

} // verus!
