//! Budgeting text by abstract token units.
//!
//! Output that goes back into a model's context is measured in the units of
//! a byte-pair encoder and cut down to a budget while keeping the leading
//! portion of the text intact.

use vstd::prelude::*;

verus! {

/// The token sequence that the byte-pair encoder assigns to a text.
pub uninterp spec fn encode_of(s: Seq<char>) -> Seq<u32>;

/// The text that the byte-pair decoder reconstructs from a token sequence.
pub uninterp spec fn decode_of(tokens: Seq<u32>) -> Seq<char>;

/// Failure of the tokenizer collaborator.
#[derive(Debug)]
pub enum TokenError {
    /// The encoder's vocabulary could not be loaded.
    Unavailable(String),
    /// The token sequence did not decode to valid text.
    Decode(String),
}

impl TokenError {
    /// A human-readable description of the failure.
    pub fn message(&self) -> (r: String)
        ensures
            self matches TokenError::Unavailable(m) ==> r@ == m@,
            self matches TokenError::Decode(m) ==> r@ == m@,
    {
        match self {
            TokenError::Unavailable(m) => m.clone(),
            TokenError::Decode(m) => m.clone(),
        }
    }
}

/// Relies on `tiktoken_rs::p50k_base` and `CoreBPE::encode_with_special_tokens`.
/// The encoder is deterministic, so the token sequence is a function of the
/// text alone.  Its token byte runs partition the text's bytes and each token
/// stands for at least one byte, so decoding all tokens reproduces the text,
/// decoding a leading part of them reproduces a leading part of the text, and
/// decoding strictly fewer than all of them reproduces strictly less of it.
#[verifier::external_body]
pub(crate) fn p50k_encode(s: &str) -> (r: Result<Vec<u32>, TokenError>)
    ensures
        r matches Ok(tokens) ==> {
            &&& tokens@ == encode_of(s@)
            &&& decode_of(encode_of(s@)) == s@
            &&& forall|i: int|
                0 <= i <= encode_of(s@).len() ==> (#[trigger] decode_of(
                    encode_of(s@).take(i),
                )).is_prefix_of(s@)
            &&& forall|i: int|
                0 <= i < encode_of(s@).len() ==> (#[trigger] decode_of(
                    encode_of(s@).take(i),
                )).len() < s@.len()
        },
{
    match tiktoken_rs::p50k_base() {
        Ok(bpe) => Ok(bpe.encode_with_special_tokens(s)),
        Err(e) => Err(TokenError::Unavailable(format!("{e}"))),
    }
}

/// Relies on `tiktoken_rs::p50k_base` and `CoreBPE::decode`: on success the
/// result is the decoder's text for exactly the given tokens.
#[verifier::external_body]
pub(crate) fn p50k_decode(tokens: &Vec<u32>) -> (r: Result<String, TokenError>)
    ensures
        r matches Ok(text) ==> text@ == decode_of(tokens@),
{
    match tiktoken_rs::p50k_base() {
        Ok(bpe) => match bpe.decode(tokens) {
            Ok(text) => Ok(text),
            Err(e) => Err(TokenError::Decode(format!("{e}"))),
        },
        Err(e) => Err(TokenError::Unavailable(format!("{e}"))),
    }
}

/// Truncate `text` to at most `max_units` token units, keeping its leading
/// portion.  Text whose encoding already fits the budget is returned
/// unchanged; otherwise the first `max_units` units are decoded back to text.
/// Errors come only from the tokenizer collaborator.
pub fn token_bound(text: &String, max_units: usize) -> (r: Result<String, TokenError>)
    ensures
        r matches Ok(b) ==> {
            &&& encode_of(text@).len() <= max_units ==> b@ == text@
            &&& encode_of(text@).len() > max_units ==> {
                &&& b@ == decode_of(encode_of(text@).take(max_units as int))
                &&& b@.is_prefix_of(text@)
                &&& b@.len() < text@.len()
            }
        },
{
    let tokens = p50k_encode(text.as_str())?;
    if tokens.len() <= max_units {
        Ok(text.clone())
    } else {
        let mut prefix = tokens;
        prefix.truncate(max_units);
        let decoded = p50k_decode(&prefix)?;
        Ok(decoded)
    }
}

} // verus!
