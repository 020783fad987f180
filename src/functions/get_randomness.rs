use rand::Rng;
use vstd::prelude::*;

use crate::common::text::{chars_of, string_of};
use crate::radix::drawn_from;

verus! {

#[verifier::external_type_specification]
#[verifier::external_body]
pub struct ExThreadRng(rand::rngs::ThreadRng);

/// Relies on `rand::rng`: a handle to the thread-local generator, of whose
/// state nothing is known.
pub assume_specification[ rand::rng ]() -> rand::rngs::ThreadRng;

/// Relies on rand's `Rng::random_range` over `0..bound`: a value below
/// `bound`. It panics on an empty range, which `requires` leaves out.
#[verifier::external_body]
fn random_below(rng: &mut rand::rngs::ThreadRng, bound: usize) -> (r: usize)
    requires
        bound > 0,
    ensures
        r < bound,
{
    rng.random_range(0..bound)
}

/// An alphabet and a number of characters to draw from it.
pub struct GetRandomnessOptions<'a> {
    pub char_list: &'a str,
    pub randomness_length: usize,
}

/// Draws each character independently and uniformly from the alphabet.
pub fn _get_randomness(opts: GetRandomnessOptions) -> (r: String)
    requires
        opts.char_list@.len() > 0,
    ensures
        r@.len() == opts.randomness_length,
        drawn_from(opts.char_list@, r@),
{
    let char_list = chars_of(opts.char_list);
    let length = opts.randomness_length;
    let mut randomness: Vec<char> = Vec::new();
    let mut rng = rand::rng();
    let mut k: usize = 0;
    while k < length
        invariant
            char_list@ == opts.char_list@,
            char_list@.len() > 0,
            k <= length,
            randomness@.len() == k,
            drawn_from(char_list@, randomness@),
        decreases length - k,
    {
        let index = random_below(&mut rng, char_list.len());
        randomness.push(char_list[index]);
        k += 1;
        assert(char_list@.contains(randomness@[k - 1]));
    }
    string_of(&randomness)
}

} // verus!
