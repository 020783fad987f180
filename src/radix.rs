//! The positional number system behind identifiers: a timestamp is written
//! with `TIMESTAMP_LENGTH` digits in base `alphabet.len()`, most significant
//! digit first, and each digit is written as the alphabet's character at
//! that position.
use vstd::arithmetic::div_mod::{
    lemma_add_mod_noop,
    lemma_mod_add_multiples_vanish,
    lemma_mul_mod_noop_left,
    lemma_small_mod,
};
use vstd::arithmetic::power::pow;
use vstd::prelude::*;
use vstd::wrapping::usize_specs;

use crate::common::configs::TIMESTAMP_LENGTH;
use crate::common::errors::RowIDError;

verus! {

/// The digit at position `i` (0 is the most significant) when `t` is
/// written with `TIMESTAMP_LENGTH` digits in base `radix`; digits above the
/// width are dropped.
pub open spec fn digit_at(radix: nat, t: nat, i: int) -> nat {
    ((t / pow(radix as int, (TIMESTAMP_LENGTH - 1 - i) as nat) as nat) % radix) as nat
}

/// The encoding of `t` over `alphabet`: `TIMESTAMP_LENGTH` characters.
pub open spec fn encode_spec(alphabet: Seq<char>, t: nat) -> Seq<char> {
    Seq::new(
        TIMESTAMP_LENGTH as nat,
        |i: int| alphabet[digit_at(alphabet.len(), t, i) as int],
    )
}

/// Whether every character of `s` belongs to `alphabet`.
pub open spec fn drawn_from(alphabet: Seq<char>, s: Seq<char>) -> bool {
    forall|k: int| 0 <= k < s.len() ==> alphabet.contains(#[trigger] s[k])
}

/// What `char::to_uppercase` yields for `c`.
pub uninterp spec fn upper_of(c: char) -> Seq<char>;

/// Relies on `char::to_uppercase`: the upper-case form of `c`, which depends
/// on `c` alone.
#[verifier::external_body]
fn upper_case(c: char) -> (r: String)
    ensures
        r@ == upper_of(c),
{
    c.to_uppercase().collect()
}

/// The upper-case form of an ASCII character: `a`..=`z` become `A`..=`Z`,
/// the rest stay as they are.
pub open spec fn ascii_upper(c: char) -> char {
    if 'a' <= c <= 'z' {
        ((c as u8) - 32) as u8 as char
    } else {
        c
    }
}

/// The key under which a character is looked up: its upper-case form. ASCII
/// characters are upper-cased here, the others by `char::to_uppercase`,
/// which agrees with this on ASCII.
pub open spec fn key_of(c: char) -> Seq<char> {
    if (c as u32) < 128 {
        seq![ascii_upper(c)]
    } else {
        upper_of(c)
    }
}

/// The key of each character: two characters stand for the same digit when
/// their upper-case forms agree.
pub open spec fn keys_of(s: Seq<char>) -> Seq<Seq<char>> {
    s.map_values(|c: char| key_of(c))
}

/// The key of `c`.
pub(crate) fn char_key(c: char) -> (r: String)
    ensures
        r@ == key_of(c),
{
    if (c as u32) < 128 {
        let upper = if 'a' <= c && c <= 'z' {
            ((c as u8) - 32) as char
        } else {
            c
        };
        let mut r = String::new();
        r.push(upper);
        assert(r@ =~= seq![ascii_upper(c)]);
        r
    } else {
        upper_case(c)
    }
}

/// Whether `alphabet` can carry timestamps both ways: it is not empty, and
/// no two of its characters share an upper-case form.
pub open spec fn valid_alphabet(alphabet: Seq<char>) -> bool {
    &&& alphabet.len() > 0
    &&& forall|i: int, j: int|
        0 <= i < j < alphabet.len() ==> key_of(#[trigger] alphabet[i]) != key_of(
            #[trigger] alphabet[j],
        )
}

/// The position of the last of the first `n` entries of `keys` that equals
/// `key`, or -1 where none does.
pub open spec fn last_index_of(keys: Seq<Seq<char>>, key: Seq<char>, n: int) -> int
    decreases n,
{
    if n <= 0 {
        -1
    } else if keys[n - 1] == key {
        n - 1
    } else {
        last_index_of(keys, key, n - 1)
    }
}

/// The digit that `key` stands for over the alphabet keys `keys`, or -1.
pub open spec fn digit_of(keys: Seq<Seq<char>>, key: Seq<char>) -> int {
    last_index_of(keys, key, keys.len() as int)
}

/// Whether every key of `ks` stands for a digit.
pub open spec fn all_digits(keys: Seq<Seq<char>>, ks: Seq<Seq<char>>) -> bool {
    forall|i: int| 0 <= i < ks.len() ==> digit_of(keys, #[trigger] ks[i]) >= 0
}

/// The number that the keys `ks` write in base `keys.len()`, most
/// significant first.
pub open spec fn keys_value(keys: Seq<Seq<char>>, ks: Seq<Seq<char>>) -> int
    decreases ks.len(),
{
    if ks.len() == 0 {
        0
    } else {
        keys_value(keys, ks.drop_last()) * keys.len() + digit_of(keys, ks.last())
    }
}

/// The number of values of a `usize`.
pub open spec fn word_modulus() -> int {
    usize::MAX as int + 1
}

/// Reading digit keys as a timestamp: the value wraps at the width of `usize`.
pub open spec fn decode_keys_spec(keys: Seq<Seq<char>>, ks: Seq<Seq<char>>) -> Result<
    usize,
    RowIDError,
> {
    if all_digits(keys, ks) {
        Ok((keys_value(keys, ks) % word_modulus()) as usize)
    } else {
        Err(RowIDError::InvalidEncoded)
    }
}

/// Decoding `s` over `alphabet`: the first `TIMESTAMP_LENGTH` characters
/// are read as digits, compared by their upper-case forms; the rest of `s`
/// is ignored.
pub open spec fn decode_spec(alphabet: Seq<char>, s: Seq<char>) -> Result<usize, RowIDError> {
    if s.len() < TIMESTAMP_LENGTH {
        Err(RowIDError::EncodedLength)
    } else {
        decode_keys_spec(keys_of(alphabet), keys_of(s.take(TIMESTAMP_LENGTH as int)))
    }
}

/// The upper-case forms of `chars`, one per character.
pub(crate) fn upper_keys(chars: &Vec<char>) -> (r: Vec<String>)
    ensures
        r.deep_view() == keys_of(chars@),
{
    let mut r: Vec<String> = Vec::new();
    let mut i: usize = 0;
    while i < chars.len()
        invariant
            i <= chars@.len(),
            r@.len() == i,
            forall|j: int| 0 <= j < i ==> (#[trigger] r@[j])@ == key_of(chars@[j]),
        decreases chars@.len() - i,
    {
        r.push(char_key(chars[i]));
        i += 1;
    }
    assert(r.deep_view() =~= keys_of(chars@));
    r
}

/// The position of the last alphabet key equal to `key`.
fn last_index(keys: &Vec<String>, key: &String) -> (r: Option<usize>)
    ensures
        match r {
            Some(j) => j as int == digit_of(keys.deep_view(), key@),
            None => digit_of(keys.deep_view(), key@) == -1,
        },
{
    let ghost ks = keys.deep_view();
    let mut i: usize = keys.len();
    while i > 0
        invariant
            i <= keys@.len(),
            ks == keys.deep_view(),
            last_index_of(ks, key@, ks.len() as int) == last_index_of(ks, key@, i as int),
        decreases i,
    {
        if keys[i - 1].eq(key) {
            return Some(i - 1);
        }
        i -= 1;
    }
    None
}

proof fn lemma_keys_value_nonnegative(keys: Seq<Seq<char>>, ks: Seq<Seq<char>>)
    requires
        all_digits(keys, ks),
    ensures
        keys_value(keys, ks) >= 0,
    decreases ks.len(),
{
    if ks.len() > 0 {
        let init = ks.drop_last();
        assert forall|i: int| 0 <= i < init.len() implies digit_of(keys, #[trigger] init[i]) >= 0 by {
            assert(init[i] == ks[i]);
        }
        lemma_keys_value_nonnegative(keys, init);
        assert(digit_of(keys, ks[ks.len() - 1]) >= 0);
        assert(keys_value(keys, init) * keys.len() >= 0) by (nonlinear_arith)
            requires
                keys_value(keys, init) >= 0,
        ;
    }
}

proof fn lemma_wrapping_step(acc: usize, v: int, radix: usize, d: usize)
    requires
        v >= 0,
        acc as int == v % word_modulus(),
    ensures
        usize_specs::wrapping_add(usize_specs::wrapping_mul(acc, radix), d) as int == (v * radix
            + d) % word_modulus(),
{
    let m = word_modulus();
    let wm = usize_specs::wrapping_mul(acc, radix);
    lemma_mul_mod_noop_left(v, radix as int, m);
    assert(wm as int == (v * radix) % m);
    lemma_small_mod(d as nat, m as nat);
    lemma_add_mod_noop(v * radix, d as int, m);
    if wm + d > usize::MAX {
        lemma_mod_add_multiples_vanish(wm + d - m, m);
        lemma_small_mod((wm + d - m) as nat, m as nat);
    } else {
        lemma_small_mod((wm + d) as nat, m as nat);
    }
}

/// Reads upper-cased digit keys as a timestamp over the upper-cased alphabet
/// `char_keys`: each key stands for the last alphabet position with the same
/// key.
pub fn timestamp_from_keys(char_keys: &Vec<String>, encoded_keys: &Vec<String>) -> (r: Result<
    usize,
    RowIDError,
>)
    ensures
        r == decode_keys_spec(char_keys.deep_view(), encoded_keys.deep_view()),
{
    let ghost keys = char_keys.deep_view();
    let ghost ks = encoded_keys.deep_view();
    let radix = char_keys.len();
    let mut timestamp: usize = 0;
    let mut i: usize = 0;
    assert(keys_value(keys, ks.take(0)) == 0);
    assert(0int % word_modulus() == 0);
    while i < encoded_keys.len()
        invariant
            keys == char_keys.deep_view(),
            ks == encoded_keys.deep_view(),
            radix == keys.len(),
            i <= ks.len(),
            all_digits(keys, ks.take(i as int)),
            timestamp as int == keys_value(keys, ks.take(i as int)) % word_modulus(),
        decreases ks.len() - i,
    {
        match last_index(char_keys, &encoded_keys[i]) {
            Some(index) => {
                proof {
                    assert(ks.take(i + 1).drop_last() =~= ks.take(i as int));
                    assert(ks[i as int] == encoded_keys@[i as int]@);
                    assert(all_digits(keys, ks.take(i + 1))) by {
                        assert forall|j: int| 0 <= j < i + 1 implies digit_of(
                            keys,
                            #[trigger] ks.take(i + 1)[j],
                        ) >= 0 by {
                            if j < i {
                                assert(ks.take(i + 1)[j] == ks.take(i as int)[j]);
                            }
                        }
                    }
                    lemma_keys_value_nonnegative(keys, ks.take(i as int));
                    lemma_wrapping_step(
                        timestamp,
                        keys_value(keys, ks.take(i as int)),
                        radix,
                        index,
                    );
                }
                timestamp = timestamp.wrapping_mul(radix).wrapping_add(index);
                i += 1;
            },
            None => {
                assert(ks[i as int] == encoded_keys@[i as int]@);
                assert(!all_digits(keys, ks));
                return Err(RowIDError::InvalidEncoded);
            },
        }
    }
    assert(ks.take(ks.len() as int) =~= ks);
    Ok(timestamp)
}

} // verus!
