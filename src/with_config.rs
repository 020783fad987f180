//! Identifier functions over a configured alphabet and randomness length.
use vstd::prelude::*;
use vstd::string::*;

use crate::base::default_alphabet;
use crate::common::configs::{CHAR_LIST, MIN_CHAR_LIST_LENGTH, RANDOMNESS_LENGTH};
use crate::common::errors::RowIDError;
use crate::functions::decode::{_decode, DecodeOptions};
use crate::functions::encode::{_encode, EncodeOptions};
use crate::functions::generate::{_generate, is_identifier_for, GenerateOptions, GenerateResult};
use crate::functions::get_randomness::{_get_randomness, GetRandomnessOptions};
use crate::functions::rowid::{_rowid, RowIDOptions};
use crate::functions::verify::{_verify, _verify_at, verify_spec, VerifyOptions, VerifyResult};
use crate::radix::{decode_spec, drawn_from, encode_spec};

verus! {

/// This struct contains the state of the `RowIDWithConfig` struct.
#[derive(Debug, Clone)]
pub struct RowIDWithConfigState {
    /// The list of characters used in the current function.
    pub char_list: String,
    /// The length of randomness used in the current function.
    pub randomness_length: usize,
}

/// The identifier functions bound to a configuration that `done` accepted.
#[derive(Debug, Clone)]
pub struct RowIDWithConfigResult {
    /// Represents function's customization configurations.
    pub state: RowIDWithConfigState,
}

impl RowIDWithConfigResult {
    /// The configured alphabet.
    pub open spec fn alphabet(&self) -> Seq<char> {
        self.state.char_list@
    }

    /// What `done` guarantees of the configuration: an alphabet of at least
    /// `MIN_CHAR_LIST_LENGTH` characters.
    pub open spec fn wf(&self) -> bool {
        self.alphabet().len() >= MIN_CHAR_LIST_LENGTH
    }

    /// Generates an identifier for the current time.
    pub fn rowid(&self) -> (r: String)
        requires
            self.wf(),
        ensures
            exists|t: usize|
                is_identifier_for(
                    self.alphabet(),
                    t as nat,
                    self.state.randomness_length as nat,
                    r@,
                ),
    {
        let r = _rowid(
            RowIDOptions {
                char_list: self.state.char_list.as_str(),
                randomness_length: self.state.randomness_length,
            },
        );
        r
    }

    /// Encodes a timestamp in milliseconds, without randomness.
    pub fn encode(&self, timestamp: usize) -> (r: Result<String, RowIDError>)
        requires
            self.wf(),
        ensures
            r matches Ok(s) && s@ == encode_spec(self.alphabet(), timestamp as nat),
    {
        _encode(EncodeOptions { char_list: self.state.char_list.as_str(), timestamp })
    }

    /// Decodes the timestamp in milliseconds at the start of an identifier.
    pub fn decode(&self, encoded: &str) -> (r: Result<usize, RowIDError>)
        ensures
            r == decode_spec(self.alphabet(), encoded@),
    {
        _decode(DecodeOptions { char_list: self.state.char_list.as_str(), encoded })
    }

    /// Generates an identifier for `timestamp`, with `randomness_length`
    /// random characters, or the configured number where it is `None`.
    pub fn generate(&self, timestamp: usize, randomness_length: Option<usize>) -> (r:
        GenerateResult)
        requires
            self.wf(),
        ensures
            r.success,
            r.error is None,
            r.result is Some,
            is_identifier_for(
                self.alphabet(),
                timestamp as nat,
                match randomness_length {
                    Some(l) => l,
                    None => self.state.randomness_length,
                } as nat,
                r.result->0@,
            ),
    {
        _generate(
            GenerateOptions {
                char_list: self.state.char_list.as_str(),
                timestamp,
                randomness_length: match randomness_length {
                    Some(l) => l,
                    None => self.state.randomness_length,
                },
            },
        )
    }

    /// Verifies that an identifier decodes, and whether its time is not in
    /// the future.
    pub fn verify(&self, encoded: &str) -> (r: VerifyResult)
        ensures
            exists|now: usize| r == verify_spec(self.alphabet(), encoded@, now),
    {
        let r = _verify(VerifyOptions { char_list: self.state.char_list.as_str(), encoded });
        let ghost now = choose|now: usize| r == verify_spec(self.alphabet(), encoded@, now);
        assert(r == verify_spec(self.alphabet(), encoded@, now));
        r
    }

    /// Verifies an identifier as `verify` does, taking `now` as the current
    /// time.
    pub fn verify_at(&self, encoded: &str, now: usize) -> (r: VerifyResult)
        ensures
            r == verify_spec(self.alphabet(), encoded@, now),
    {
        _verify_at(VerifyOptions { char_list: self.state.char_list.as_str(), encoded }, now)
    }

    /// Generates `randomness_length` random characters of the alphabet.
    pub fn get_randomness(&self, randomness_length: usize) -> (r: String)
        requires
            self.wf(),
        ensures
            r@.len() == randomness_length,
            drawn_from(self.alphabet(), r@),
    {
        _get_randomness(
            GetRandomnessOptions { char_list: self.state.char_list.as_str(), randomness_length },
        )
    }
}

/// A configuration being built: an alphabet and a default randomness
/// length, checked by `done`.
#[derive(Debug, Clone)]
pub struct RowIDWithConfig {
    state: RowIDWithConfigState,
}

impl RowIDWithConfig {
    /// The alphabet configured so far.
    pub closed spec fn spec_char_list(&self) -> Seq<char> {
        self.state.char_list@
    }

    /// The randomness length configured so far.
    pub closed spec fn spec_randomness_length(&self) -> usize {
        self.state.randomness_length
    }

    /// Creates a new `RowIDWithConfig` with default values.
    pub fn new() -> (r: Self)
        ensures
            r.spec_char_list() == default_alphabet(),
            r.spec_randomness_length() == RANDOMNESS_LENGTH,
    {
        RowIDWithConfig {
            state: RowIDWithConfigState {
                char_list: String::from_str(CHAR_LIST),
                randomness_length: RANDOMNESS_LENGTH,
            },
        }
    }

    /// Sets the alphabet; `done` asks for at least `MIN_CHAR_LIST_LENGTH`
    /// characters.
    pub fn char_list(self, list: &str) -> (r: Self)
        ensures
            r.spec_char_list() == list@,
            r.spec_randomness_length() == self.spec_randomness_length(),
    {
        let mut this = self;
        this.state.char_list = String::from_str(list);
        this
    }

    /// Sets the default number of random characters in an identifier.
    pub fn randomness_length(self, length: usize) -> (r: Self)
        ensures
            r.spec_char_list() == self.spec_char_list(),
            r.spec_randomness_length() == length,
    {
        let mut this = self;
        this.state.randomness_length = length;
        this
    }

    /// Ends the configuration: fails where the alphabet has fewer than
    /// `MIN_CHAR_LIST_LENGTH` characters, else gives the configured
    /// functions.
    pub fn done(self) -> (r: Result<RowIDWithConfigResult, RowIDError>)
        ensures
            self.spec_char_list().len() < MIN_CHAR_LIST_LENGTH ==> r == Err::<
                RowIDWithConfigResult,
                RowIDError,
            >(RowIDError::CharListLength),
            self.spec_char_list().len() >= MIN_CHAR_LIST_LENGTH ==> (r matches Ok(c) && c.wf()
                && c.alphabet() == self.spec_char_list() && c.state.randomness_length
                == self.spec_randomness_length()),
    {
        if self.state.char_list.as_str().unicode_len() < MIN_CHAR_LIST_LENGTH {
            return Err(RowIDError::CharListLength);
        }
        Ok(
            RowIDWithConfigResult {
                state: RowIDWithConfigState {
                    char_list: self.state.char_list,
                    randomness_length: self.state.randomness_length,
                },
            },
        )
    }
}

impl Default for RowIDWithConfig {
    fn default() -> (r: Self)
        ensures
            r.spec_char_list() == default_alphabet(),
            r.spec_randomness_length() == RANDOMNESS_LENGTH,
    {
        Self::new()
    }
}

} // verus!
