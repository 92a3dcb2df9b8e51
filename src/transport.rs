//! Text form of tokens: the binary form of an action in the base-122 alphabet, which
//! keeps clear of the characters a button payload cannot carry.
use crate::action::Action;
use crate::codec::{decode, decode_spec, encode, encode_spec, DecodeError, MAX_ENCODED_LEN, lemma_encoded_size};
use vstd::prelude::*;
use vstd::std_specs::iter::IteratorSpec;
use vstd::utf8::encode_utf8;

verus! {

broadcast use {vstd::string::axiom_spec_iter, vstd::string::next_postcondition};

/// The text that `base122_rs::encode` makes of `b`.
pub uninterp spec fn base122_of(b: Seq<u8>) -> Seq<char>;

/// The bytes that `base122_rs::decode` reads from `s`.
pub uninterp spec fn base122_bytes_of(s: Seq<char>) -> Seq<u8>;

/// Ceiling on a token, in bytes of UTF-8: the platform's limit on a button payload.
pub const TOKEN_LIMIT: usize = 64;

/// Longest binary form whose text is sure to fit under `TOKEN_LIMIT`.
pub const MAX_TOKEN_INPUT: usize = 28;

/// A character `base122_rs::decode` can read: ASCII, or one whose bits 8 to 10 do not
/// hold 6 (that slot names no escaped value).
pub open spec fn decodable_char(c: char) -> bool {
    (c as u32) <= 127 || (c as u32) / 256 % 8 != 6
}

pub open spec fn decodable_text(s: Seq<char>) -> bool {
    forall|i: int| 0 <= i < s.len() ==> decodable_char(#[trigger] s[i])
}

/// Worst case of the text's UTF-8 length for `n` input bytes: each 7-bit group of the
/// input becomes at most two bytes.
pub open spec fn text_bound(n: nat) -> nat {
    2 * ((8 * n + 6) / 7)
}

/// The text of `n` bytes is sure to fit in a token.
pub open spec fn token_fits(n: nat) -> bool {
    text_bound(n) <= TOKEN_LIMIT
}

/// Relies on `base122_rs::encode`: the text depends on the bytes alone; each 7-bit group
/// of the input yields one ASCII byte or, with the next group, one two-byte character;
/// a character above 127 carries in bits 8 to 10 an escape index from 0 to 5 or the
/// marker 7.
#[verifier::external_body]
fn base122_encode(b: &[u8]) -> (r: String)
    ensures
        r@ == base122_of(b@),
        encode_utf8(r@).len() <= text_bound(b@.len()),
        decodable_text(r@),
{
    base122_rs::encode(b)
}

/// Relies on `base122_rs::decode`: it returns `Ok` on every text whose characters it can
/// index, the bytes depend on the text alone, and it reverses `base122_rs::encode`.
#[verifier::external_body]
fn base122_decode(s: &str) -> (r: Option<Vec<u8>>)
    requires
        decodable_text(s@),
    ensures
        r is Some,
        r->0@ == base122_bytes_of(s@),
        forall|b: Seq<u8>| s@ == base122_of(b) ==> r->0@ == b,
{
    base122_rs::decode(s).ok()
}

/// Whether every character of `s` can be read back.
pub fn is_decodable_text(s: &str) -> (r: bool)
    ensures
        r == decodable_text(s@),
{
    let mut it = s.chars();
    let ghost mut k: int = 0;
    loop
        invariant
            0 <= k <= s@.len(),
            it.remaining() == s@.subrange(k, s@.len() as int),
            forall|j: int| 0 <= j < k ==> decodable_char(#[trigger] s@[j]),
        decreases s@.len() - k,
    {
        match it.next() {
            None => {
                return true;
            },
            Some(c) => {
                assert(c == s@[k]);
                let v = c as u32;
                if v > 127 && v / 256 % 8 == 6 {
                    return false;
                }
                proof {
                    k = k + 1;
                }
                assert(it.remaining() =~= s@.subrange(k, s@.len() as int));
            },
        }
    }
}

/// The transport text of `b`.
pub fn to_text(b: &[u8]) -> (r: String)
    ensures
        r@ == base122_of(b@),
        encode_utf8(r@).len() <= text_bound(b@.len()),
        decodable_text(r@),
{
    base122_encode(b)
}

/// The bytes of a transport text; text with a character no encoder writes is rejected.
pub fn from_text(s: &str) -> (r: Result<Vec<u8>, DecodeError>)
    ensures
        decodable_text(s@) ==> (r matches Ok(v) && v@ == base122_bytes_of(s@)),
        !decodable_text(s@) ==> r == Err::<Vec<u8>, DecodeError>(DecodeError::Malformed),
        forall|b: Seq<u8>| s@ == base122_of(b) && decodable_text(s@) ==> (r matches Ok(v)
            && v@ == b),
{
    if !is_decodable_text(s) {
        return Err(DecodeError::Malformed);
    }
    match base122_decode(s) {
        Some(v) => Ok(v),
        None => Err(DecodeError::Malformed),
    }
}

/// Error of a token that would exceed the platform's payload limit.
#[derive(Clone, Copy, Debug, PartialEq, Eq, Structural)]
pub enum TransportEncodeError {
    TooLong,
}

/// Whether the text of `n` bytes is sure to fit in a token, by the worst case.
pub fn fits_token(n: usize) -> (r: bool)
    ensures
        r == token_fits(n as nat),
{
    assert(token_fits(n as nat) <==> n <= MAX_TOKEN_INPUT);
    n <= MAX_TOKEN_INPUT
}

/// The token of `a`. The size is checked against the worst case before any text is made.
pub fn token(a: &Action) -> (r: Result<String, TransportEncodeError>)
    ensures
        r is Ok <==> token_fits(encode_spec(*a).len()),
        r matches Ok(t) ==> {
            &&& t@ == base122_of(encode_spec(*a))
            &&& encode_utf8(t@).len() <= TOKEN_LIMIT
            &&& decodable_text(t@)
        },
{
    let bytes = encode(a);
    if !fits_token(bytes.len()) {
        return Err(TransportEncodeError::TooLong);
    }
    Ok(base122_encode(bytes.as_slice()))
}

/// What the text `t` decodes to.
pub open spec fn token_meaning(t: Seq<char>) -> Result<Action, DecodeError> {
    if decodable_text(t) {
        decode_spec(base122_bytes_of(t))
    } else {
        Err(DecodeError::Malformed)
    }
}

/// The action a token stands for.
pub fn parse_token(s: &str) -> (r: Result<Action, DecodeError>)
    ensures
        r == token_meaning(s@),
        forall|b: Seq<u8>| s@ == base122_of(b) && decodable_text(s@) ==> r == decode_spec(b),
{
    match from_text(s) {
        Err(e) => Err(e),
        Ok(bytes) => decode(bytes.as_slice()),
    }
}

/// The token of every action fits under the platform's limit.
pub proof fn lemma_every_token_fits(a: Action)
    ensures
        token_fits(encode_spec(a).len()),
        text_bound(encode_spec(a).len()) <= TOKEN_LIMIT,
{
    lemma_encoded_size(a);
    assert(encode_spec(a).len() <= MAX_ENCODED_LEN);
}

} // verus!
