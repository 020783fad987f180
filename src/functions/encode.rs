use vstd::arithmetic::div_mod::lemma_div_denominator;
use vstd::arithmetic::power::{lemma_pow_positive, pow};
use vstd::prelude::*;

use crate::common::configs::TIMESTAMP_LENGTH;
use crate::common::errors::RowIDError;
use crate::common::text::{chars_of, string_of};
use crate::radix::{digit_at, encode_spec};

verus! {

/// An alphabet and a timestamp to encode with it.
pub struct EncodeOptions<'a> {
    pub char_list: &'a str,
    pub timestamp: usize,
}

/// Writes `timestamp` with `TIMESTAMP_LENGTH` digits over the alphabet,
/// most significant first; digits above the width are dropped.
fn __encode(opts: EncodeOptions) -> (r: String)
    requires
        opts.char_list@.len() > 0,
    ensures
        r@ == encode_spec(opts.char_list@, opts.timestamp as nat),
{
    let char_list = chars_of(opts.char_list);
    let radix = char_list.len();
    let ghost alphabet = char_list@;
    let ghost t = opts.timestamp as nat;
    // Digits from the least significant one up.
    let mut digits: Vec<char> = Vec::new();
    let mut remaining: usize = opts.timestamp;
    let mut k: usize = 0;
    proof {
        reveal(pow);
        assert(pow(radix as int, k as nat) == 1);
        assert(t / 1 == t);
    }
    while k < TIMESTAMP_LENGTH
        invariant
            char_list@ == alphabet,
            radix == alphabet.len() > 0,
            k <= TIMESTAMP_LENGTH,
            digits@.len() == k,
            remaining as nat == t / pow(radix as int, k as nat) as nat,
            forall|j: int|
                0 <= j < k ==> #[trigger] digits@[j] == alphabet[digit_at(
                    radix as nat,
                    t,
                    TIMESTAMP_LENGTH - 1 - j,
                ) as int],
        decreases TIMESTAMP_LENGTH - k,
    {
        proof {
            reveal(pow);
            lemma_pow_positive(radix as int, k as nat);
            lemma_div_denominator(t as int, pow(radix as int, k as nat), radix as int);
            assert(pow(radix as int, k as nat) * radix == radix * pow(radix as int, k as nat))
                by (nonlinear_arith);
        }
        digits.push(char_list[remaining % radix]);
        remaining = remaining / radix;
        k += 1;
    }
    let mut encoded: Vec<char> = Vec::new();
    let mut i: usize = TIMESTAMP_LENGTH;
    while i > 0
        invariant
            i <= TIMESTAMP_LENGTH,
            digits@.len() == TIMESTAMP_LENGTH,
            encoded@ == encode_spec(alphabet, t).take(TIMESTAMP_LENGTH - i),
            forall|j: int|
                0 <= j < TIMESTAMP_LENGTH ==> #[trigger] digits@[j] == alphabet[digit_at(
                    radix as nat,
                    t,
                    TIMESTAMP_LENGTH - 1 - j,
                ) as int],
            radix == alphabet.len() > 0,
        decreases i,
    {
        i -= 1;
        encoded.push(digits[i]);
        assert(encoded@ =~= encode_spec(alphabet, t).take(TIMESTAMP_LENGTH - i));
    }
    assert(encoded@ =~= encode_spec(alphabet, t));
    string_of(&encoded)
}

/// Encodes with no check on the timestamp.
pub fn encode_unsafe(opts: EncodeOptions) -> (r: String)
    requires
        opts.char_list@.len() > 0,
    ensures
        r@ == encode_spec(opts.char_list@, opts.timestamp as nat),
{
    __encode(opts)
}

/// Encodes a timestamp; an integer timestamp always encodes.
pub fn _encode(opts: EncodeOptions) -> (r: Result<String, RowIDError>)
    requires
        opts.char_list@.len() > 0,
    ensures
        r matches Ok(s) && s@ == encode_spec(opts.char_list@, opts.timestamp as nat),
{
    Ok(__encode(opts))
}

} // verus!
