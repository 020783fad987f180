//! Properties that hold across the library's functions, proved over the
//! models that their contracts use.
use vstd::arithmetic::div_mod::{lemma_div_denominator, lemma_mod_breakdown, lemma_small_mod};
use vstd::arithmetic::power::{lemma_pow_positive, pow};
use vstd::prelude::*;

use crate::base::default_alphabet;
use crate::common::configs::TIMESTAMP_LENGTH;
use crate::common::errors::RowIDError;
use crate::functions::generate::is_identifier_for;
use crate::functions::verify::{verify_spec, VerifyResult};
use crate::radix::{
    all_digits,
    decode_spec,
    digit_at,
    digit_of,
    encode_spec,
    ascii_upper,
    key_of,
    keys_of,
    keys_value,
    last_index_of,
    valid_alphabet,
    word_modulus,
};
use crate::with_config::RowIDWithConfigResult;

verus! {

proof fn lemma_last_index_of_distinct(keys: Seq<Seq<char>>, d: int, n: int)
    requires
        0 <= d < n <= keys.len(),
        forall|i: int, j: int| 0 <= i < j < keys.len() ==> keys[i] != keys[j],
    ensures
        last_index_of(keys, keys[d], n) == d,
    decreases n,
{
    if n - 1 != d {
        lemma_last_index_of_distinct(keys, d, n - 1);
    }
}

proof fn lemma_last_index_of_absent(keys: Seq<Seq<char>>, key: Seq<char>, n: int)
    requires
        0 <= n <= keys.len(),
        forall|i: int| 0 <= i < n ==> keys[i] != key,
    ensures
        last_index_of(keys, key, n) == -1,
    decreases n,
{
    if n > 0 {
        lemma_last_index_of_absent(keys, key, n - 1);
    }
}

/// Over a valid alphabet, the key of each encoded character stands for the
/// digit that the encoder wrote there.
proof fn lemma_encoded_digit(alphabet: Seq<char>, t: nat, i: int)
    requires
        valid_alphabet(alphabet),
        0 <= i < TIMESTAMP_LENGTH,
    ensures
        digit_of(keys_of(alphabet), keys_of(encode_spec(alphabet, t))[i]) == digit_at(
            alphabet.len(),
            t,
            i,
        ),
{
    let keys = keys_of(alphabet);
    let d = digit_at(alphabet.len(), t, i) as int;
    assert(keys_of(encode_spec(alphabet, t))[i] == keys[d]);
    assert forall|a: int, b: int| 0 <= a < b < keys.len() implies keys[a] != keys[b] by {
        assert(key_of(alphabet[a]) != key_of(alphabet[b]));
    }
    lemma_last_index_of_distinct(keys, d, keys.len() as int);
}

/// The first `k` encoded characters read back as the top `k` digits of `t`.
proof fn lemma_encoded_prefix_value(alphabet: Seq<char>, t: nat, k: nat)
    requires
        valid_alphabet(alphabet),
        k <= TIMESTAMP_LENGTH,
    ensures
        keys_value(keys_of(alphabet), keys_of(encode_spec(alphabet, t)).take(k as int)) == (t
            / pow(alphabet.len() as int, (TIMESTAMP_LENGTH - k) as nat) as nat) as int % pow(
            alphabet.len() as int,
            k,
        ),
    decreases k,
{
    let radix = alphabet.len() as int;
    let keys = keys_of(alphabet);
    let ks = keys_of(encode_spec(alphabet, t));
    reveal(pow);
    if k == 0 {
        assert(ks.take(0).len() == 0);
        let x = (t / pow(radix, TIMESTAMP_LENGTH as nat) as nat) as int;
        assert(x % 1 == 0) by (nonlinear_arith);
    } else {
        let j = (k - 1) as nat;
        let lower = (TIMESTAMP_LENGTH - k) as nat;
        lemma_encoded_prefix_value(alphabet, t, j);
        assert(ks.take(k as int).drop_last() =~= ks.take(j as int));
        assert(ks.take(k as int).last() == ks[j as int]);
        lemma_encoded_digit(alphabet, t, j as int);
        lemma_pow_positive(radix, lower);
        lemma_pow_positive(radix, j);
        let p = pow(radix, lower);
        let q = t as int / p;
        assert(pow(radix, (TIMESTAMP_LENGTH - j) as nat) == radix * p);
        assert(pow(radix, k) == radix * pow(radix, j));
        lemma_div_denominator(t as int, p, radix);
        assert(p * radix == radix * p) by (nonlinear_arith);
        lemma_mod_breakdown(q, radix, pow(radix, j));
        assert(digit_at(alphabet.len(), t, j as int) == q % radix);
        assert(((q / radix) % pow(radix, j)) * radix == radix * ((q / radix) % pow(radix, j)))
            by (nonlinear_arith);
    }
}

/// Round trip: over a valid alphabet, decoding the encoding of a timestamp
/// that fits in `TIMESTAMP_LENGTH` digits gives the timestamp back.
pub proof fn lemma_decode_encode(alphabet: Seq<char>, timestamp: usize)
    requires
        valid_alphabet(alphabet),
        timestamp < pow(alphabet.len() as int, TIMESTAMP_LENGTH as nat),
    ensures
        decode_spec(alphabet, encode_spec(alphabet, timestamp as nat)) == Ok::<
            usize,
            RowIDError,
        >(timestamp),
{
    let t = timestamp as nat;
    let radix = alphabet.len() as int;
    let keys = keys_of(alphabet);
    let encoded = encode_spec(alphabet, t);
    let ks = keys_of(encoded);
    assert(encoded.take(TIMESTAMP_LENGTH as int) =~= encoded);
    assert forall|i: int| 0 <= i < ks.len() implies digit_of(keys, #[trigger] ks[i]) >= 0 by {
        lemma_encoded_digit(alphabet, t, i);
    }
    assert(all_digits(keys, ks));
    lemma_encoded_prefix_value(alphabet, t, TIMESTAMP_LENGTH as nat);
    assert(ks.take(TIMESTAMP_LENGTH as int) =~= ks);
    reveal(pow);
    assert(pow(radix, 0) == 1);
    assert(t / 1 == t);
    lemma_pow_positive(radix, TIMESTAMP_LENGTH as nat);
    lemma_small_mod(t, pow(radix, TIMESTAMP_LENGTH as nat) as nat);
    assert(keys_value(keys, ks) == t);
    lemma_small_mod(t, word_modulus() as nat);
    assert(keys_of(encoded.take(TIMESTAMP_LENGTH as int)) == ks);
}

/// From position `i` on, `s` holds ASCII characters whose upper-case forms
/// strictly ascend.
pub open spec fn ascii_ascending_from(s: Seq<char>, i: int) -> bool
    decreases s.len() - i,
{
    if i < 0 || i >= s.len() {
        true
    } else {
        &&& (s[i] as u32) < 128
        &&& (i + 1 < s.len() ==> ascii_upper(s[i]) < ascii_upper(s[i + 1]))
        &&& ascii_ascending_from(s, i + 1)
    }
}

proof fn lemma_ascending_ascii_at(s: Seq<char>, k: int, i: int)
    requires
        0 <= k <= i < s.len(),
        ascii_ascending_from(s, k),
    ensures
        (s[i] as u32) < 128,
    decreases i - k,
{
    if k < i {
        lemma_ascending_ascii_at(s, k + 1, i);
    }
}

proof fn lemma_ascending(s: Seq<char>, k: int, i: int, j: int)
    requires
        0 <= k <= i < j < s.len(),
        ascii_ascending_from(s, k),
    ensures
        ascii_upper(s[i]) < ascii_upper(s[j]),
    decreases j - k,
{
    if k < i {
        lemma_ascending(s, k + 1, i, j);
    } else if i + 1 < j {
        lemma_ascending(s, k + 1, i + 1, j);
    }
}

/// An alphabet of ASCII characters whose upper-case forms strictly ascend
/// is valid: no two of its characters share an upper-case form.
pub proof fn lemma_ascii_ascending_valid(alphabet: Seq<char>)
    requires
        alphabet.len() > 0,
        ascii_ascending_from(alphabet, 0),
    ensures
        valid_alphabet(alphabet),
{
    assert forall|i: int, j: int| 0 <= i < j < alphabet.len() implies key_of(
        #[trigger] alphabet[i],
    ) != key_of(#[trigger] alphabet[j]) by {
        lemma_ascending(alphabet, 0, i, j);
        lemma_ascending_ascii_at(alphabet, 0, i);
        lemma_ascending_ascii_at(alphabet, 0, j);
        assert(key_of(alphabet[i])[0] != key_of(alphabet[j])[0]);
    }
}

proof fn lemma_default_alphabet_valid()
    ensures
        valid_alphabet(default_alphabet()),
        default_alphabet().len() == 32,
{
    let s = default_alphabet();
    reveal_strlit("0123456789ABCDEFGHJKMNPQRSTVWXYZ");
    reveal_with_fuel(ascii_ascending_from, 33);
    assert(s.len() == 32);
    assert(ascii_ascending_from(s, 0));
    lemma_ascii_ascending_valid(s);
}

/// Round trip over the default alphabet, for every timestamp below 32^10.
pub proof fn lemma_default_round_trip(timestamp: usize)
    requires
        timestamp < pow(32, TIMESTAMP_LENGTH as nat),
    ensures
        decode_spec(default_alphabet(), encode_spec(default_alphabet(), timestamp as nat)) == Ok::<
            usize,
            RowIDError,
        >(timestamp),
{
    lemma_default_alphabet_valid();
    lemma_decode_encode(default_alphabet(), timestamp);
}

/// Round trip over a configured alphabet: where no two of its characters
/// share an upper-case form, decoding the encoding of a timestamp that fits
/// gives it back.
pub proof fn lemma_config_round_trip(config: RowIDWithConfigResult, timestamp: usize)
    requires
        config.wf(),
        valid_alphabet(config.alphabet()),
        timestamp < pow(config.alphabet().len() as int, TIMESTAMP_LENGTH as nat),
    ensures
        decode_spec(config.alphabet(), encode_spec(config.alphabet(), timestamp as nat)) == Ok::<
            usize,
            RowIDError,
        >(timestamp),
{
    lemma_decode_encode(config.alphabet(), timestamp);
}

/// The encoding of 0 is the alphabet's first character, `TIMESTAMP_LENGTH`
/// times.
pub proof fn lemma_encode_zero(alphabet: Seq<char>)
    requires
        alphabet.len() > 0,
    ensures
        encode_spec(alphabet, 0) == Seq::new(TIMESTAMP_LENGTH as nat, |i: int| alphabet[0]),
{
    assert forall|i: int| 0 <= i < TIMESTAMP_LENGTH implies digit_at(alphabet.len(), 0, i) == 0 by {
        let p = pow(alphabet.len() as int, (TIMESTAMP_LENGTH - 1 - i) as nat);
        lemma_pow_positive(alphabet.len() as int, (TIMESTAMP_LENGTH - 1 - i) as nat);
        assert(0nat / (p as nat) == 0);
    }
    assert(encode_spec(alphabet, 0) =~= Seq::new(TIMESTAMP_LENGTH as nat, |i: int| alphabet[0]));
}

/// Text shorter than `TIMESTAMP_LENGTH` characters is refused as too short.
pub proof fn lemma_decode_too_short(alphabet: Seq<char>, encoded: Seq<char>)
    requires
        encoded.len() < TIMESTAMP_LENGTH,
    ensures
        decode_spec(alphabet, encoded) == Err::<usize, RowIDError>(RowIDError::EncodedLength),
{
}

/// Text whose timestamp part holds a character that no alphabet character
/// matches, upper-cased, is refused as invalid.
pub proof fn lemma_decode_unknown_character(alphabet: Seq<char>, encoded: Seq<char>, i: int)
    requires
        encoded.len() >= TIMESTAMP_LENGTH,
        0 <= i < TIMESTAMP_LENGTH,
        forall|j: int| 0 <= j < alphabet.len() ==> key_of(alphabet[j]) != key_of(encoded[i]),
    ensures
        decode_spec(alphabet, encoded) == Err::<usize, RowIDError>(RowIDError::InvalidEncoded),
{
    let keys = keys_of(alphabet);
    let ks = keys_of(encoded.take(TIMESTAMP_LENGTH as int));
    assert(ks[i] == key_of(encoded[i]));
    lemma_last_index_of_absent(keys, ks[i], keys.len() as int);
    assert(!all_digits(keys, ks));
}

/// An identifier generated for a timestamp that fits decodes to that
/// timestamp, and is `TIMESTAMP_LENGTH` characters longer than its
/// randomness.
pub proof fn lemma_generate_decode(
    alphabet: Seq<char>,
    timestamp: usize,
    randomness_length: nat,
    id: Seq<char>,
)
    requires
        valid_alphabet(alphabet),
        timestamp < pow(alphabet.len() as int, TIMESTAMP_LENGTH as nat),
        is_identifier_for(alphabet, timestamp as nat, randomness_length, id),
    ensures
        id.len() == TIMESTAMP_LENGTH + randomness_length,
        decode_spec(alphabet, id) == Ok::<usize, RowIDError>(timestamp),
{
    let encoded = encode_spec(alphabet, timestamp as nat);
    lemma_decode_encode(alphabet, timestamp);
    assert(encoded.take(TIMESTAMP_LENGTH as int) =~= encoded);
    assert(id.take(TIMESTAMP_LENGTH as int) == encoded.take(TIMESTAMP_LENGTH as int));
}

/// Verifying an identifier generated for a timestamp that fits reports
/// success, that timestamp, and naturalness when it is not after `now`.
pub proof fn lemma_generate_verify(
    alphabet: Seq<char>,
    timestamp: usize,
    randomness_length: nat,
    id: Seq<char>,
    now: usize,
)
    requires
        valid_alphabet(alphabet),
        timestamp < pow(alphabet.len() as int, TIMESTAMP_LENGTH as nat),
        is_identifier_for(alphabet, timestamp as nat, randomness_length, id),
        timestamp <= now,
    ensures
        verify_spec(alphabet, id, now) == (VerifyResult {
            success: true,
            result: Some(timestamp),
            natural: Some(true),
            error: None,
        }),
{
    lemma_generate_decode(alphabet, timestamp, randomness_length, id);
}

/// Verifying, over a configuration, an identifier that it generated for a
/// timestamp that fits reports success, that timestamp, and naturalness
/// when it is not after `now`.
pub proof fn lemma_config_generate_verify(
    config: RowIDWithConfigResult,
    timestamp: usize,
    randomness_length: nat,
    id: Seq<char>,
    now: usize,
)
    requires
        config.wf(),
        valid_alphabet(config.alphabet()),
        timestamp < pow(config.alphabet().len() as int, TIMESTAMP_LENGTH as nat),
        is_identifier_for(config.alphabet(), timestamp as nat, randomness_length, id),
        timestamp <= now,
    ensures
        verify_spec(config.alphabet(), id, now) == (VerifyResult {
            success: true,
            result: Some(timestamp),
            natural: Some(true),
            error: None,
        }),
{
    lemma_generate_verify(config.alphabet(), timestamp, randomness_length, id, now);
}

/// The default configuration's alphabet is the default alphabet, which is
/// valid and has 32 characters.
pub proof fn lemma_default_config_valid(config: RowIDWithConfigResult)
    requires
        config.alphabet() == default_alphabet(),
    ensures
        config.wf(),
        valid_alphabet(config.alphabet()),
        config.alphabet().len() == 32,
{
    lemma_default_alphabet_valid();
}

} // verus!
