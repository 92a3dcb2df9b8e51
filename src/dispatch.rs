//! Routing of an inbound button press.
use crate::action::Action;
use crate::codec::{decode_spec, encode_spec, lemma_decode_encode, DecodeError};
use crate::transport::{base122_of, decodable_text, parse_token, token_meaning};
use vstd::prelude::*;

verus! {

/// What to do with a button press. Either way the press is acknowledged once, after
/// the handler, if any, has run.
#[derive(Clone, Copy, Debug, PartialEq, Eq, Structural)]
pub enum Dispatch {
    /// Run the one handler of this action.
    Handle(Action),
    /// The payload is missing, stale, foreign or corrupted: acknowledge and do nothing else.
    AcknowledgeOnly,
}

pub open spec fn dispatch_of(decoded: Result<Action, DecodeError>) -> Dispatch {
    match decoded {
        Ok(a) => Dispatch::Handle(a),
        Err(_) => Dispatch::AcknowledgeOnly,
    }
}

/// Decides what a button press with payload `data` triggers.
pub fn dispatch(data: Option<&str>) -> (r: Dispatch)
    ensures
        data is None ==> r == Dispatch::AcknowledgeOnly,
        data matches Some(s) ==> r == dispatch_of(token_meaning(s@)),
        data matches Some(s) ==> forall|b: Seq<u8>|
            s@ == base122_of(b) && decodable_text(s@) ==> r == dispatch_of(decode_spec(b)),
{
    match data {
        None => Dispatch::AcknowledgeOnly,
        Some(s) => match parse_token(s) {
            Ok(a) => Dispatch::Handle(a),
            Err(_) => Dispatch::AcknowledgeOnly,
        },
    }
}

/// A token this library made for `a` is routed to the handler of `a` itself.
pub proof fn lemma_dispatch_own_token(a: Action)
    ensures
        dispatch_of(decode_spec(encode_spec(a))) == Dispatch::Handle(a),
{
    lemma_decode_encode(a);
}

} // verus!
