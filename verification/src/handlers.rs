//! The fixed set of MEV method handlers.
//!
//! Each handler maps one schema-validated parameter sequence to one result or
//! one explicit failure, with no side effect. Block-building itself is out of
//! scope, so success results are fixed placeholder values.

use vstd::prelude::*;
use crate::json;
use crate::method::Method;

verus! {

/// What a handler reports back to the dispatcher.
pub enum HandlerReply {
    /// The raw JSON text of the call's result.
    Success(String),
    /// The parameters do not fit the method's schema; the message is
    /// human-readable.
    Invalid(String),
    /// The handler itself refuses the call; the message is human-readable.
    Failure(String),
}

/// The spec-level mirror of a handler's reply.
pub enum ReplySpec {
    Success(Seq<char>),
    Invalid(Seq<char>),
    Failure(Seq<char>),
}

impl View for HandlerReply {
    type V = ReplySpec;

    open spec fn view(&self) -> ReplySpec {
        match self {
            HandlerReply::Success(s) => ReplySpec::Success(s@),
            HandlerReply::Invalid(s) => ReplySpec::Invalid(s@),
            HandlerReply::Failure(s) => ReplySpec::Failure(s@),
        }
    }
}

/// The placeholder bundle hash object a bundle submission returns.
pub open spec fn bundle_hash_stub_spec() -> Seq<char> {
    "{\"bundleHash\":\"0x0000000000000000000000000000000000000000000000000000000000000000\"}"@
}

/// The placeholder transaction hash a private-transaction submission returns.
pub open spec fn tx_hash_stub_spec() -> Seq<char> {
    "\"0x0000000000000000000000000000000000000000000000000000000000000000\""@
}

/// The placeholder simulation result a simulation request returns: the
/// all-zero response object of the `eth_callBundle` schema.
pub open spec fn call_bundle_stub_spec() -> Seq<char> {
    "{\"bundleHash\":\"0x0000000000000000000000000000000000000000000000000000000000000000\",\"bundleGasPrice\":\"0\",\"coinbaseDiff\":\"0\",\"ethSentToCoinbase\":\"0\",\"gasFees\":\"0\",\"results\":[],\"stateBlockNumber\":0,\"totalGasUsed\":0}"@
}

/// The empty acknowledgment a cancellation returns.
pub open spec fn ack_stub_spec() -> Seq<char> {
    "null"@
}

/// The failure message for a call whose parameter sequence is empty.
pub open spec fn empty_params_msg_spec() -> Seq<char> {
    "Must specify exactly one bundle"@
}

/// The invalid-parameter message of each method.
pub open spec fn invalid_params_msg_spec(kind: Method) -> Seq<char> {
    match kind {
        Method::SendBundle => "invalid params: not a valid bundle"@,
        Method::CancelBundle => "invalid params: not a valid bundle cancellation"@,
        Method::CallBundle => "invalid params: not a valid simulation request"@,
        Method::SendPrivateTransaction => "invalid params: not a valid private transaction"@,
        Method::CancelPrivateTransaction => (
        "invalid params: not a valid private transaction cancellation"@),
        Method::SendPrivateRawTransaction => "invalid params: not a valid private transaction"@,
    }
}

/// The canonical form of the first parameter under a method's schema,
/// nothing when it does not fit.
pub open spec fn normalize_spec(kind: Method, s: Seq<char>) -> Option<Seq<char>> {
    match kind {
        Method::SendBundle => json::send_bundle_json(s),
        Method::CancelBundle => json::cancel_bundle_json(s),
        Method::CallBundle => json::call_bundle_json(s),
        Method::SendPrivateTransaction => json::private_tx_json(s),
        Method::CancelPrivateTransaction => json::cancel_private_tx_json(s),
        Method::SendPrivateRawTransaction => json::private_tx_json(s),
    }
}

/// The placeholder result of a method whose first parameter fit the schema.
pub open spec fn stub_result_spec(kind: Method) -> Seq<char> {
    match kind {
        Method::SendBundle => bundle_hash_stub_spec(),
        Method::CancelBundle => ack_stub_spec(),
        Method::CallBundle => call_bundle_stub_spec(),
        Method::SendPrivateTransaction => tx_hash_stub_spec(),
        Method::CancelPrivateTransaction => ack_stub_spec(),
        Method::SendPrivateRawTransaction => tx_hash_stub_spec(),
    }
}

/// What a handler replies to a parameter sequence: a failure when the
/// sequence is empty, an invalid-parameter report when the first element
/// does not fit the method's schema, and the method's placeholder result
/// otherwise; extra elements are tolerated and ignored.
pub open spec fn invoke_spec(kind: Method, elems: Seq<Seq<char>>) -> ReplySpec {
    if elems.len() == 0 {
        ReplySpec::Failure(empty_params_msg_spec())
    } else {
        match normalize_spec(kind, elems[0]) {
            Option::Some(_) => ReplySpec::Success(stub_result_spec(kind)),
            Option::None => ReplySpec::Invalid(invalid_params_msg_spec(kind)),
        }
    }
}

/// A bundle submission whose first parameter is a valid bundle succeeds,
/// and its result is the placeholder bundle-hash object; one with an empty
/// parameter sequence fails, and its message asks for exactly one bundle.
pub proof fn lemma_send_bundle_reply(elems: Seq<Seq<char>>)
    ensures
        elems.len() >= 1 && json::send_bundle_json(elems[0]) is Some ==> invoke_spec(
            Method::SendBundle,
            elems,
        ) == ReplySpec::Success(bundle_hash_stub_spec()),
        elems.len() == 0 ==> invoke_spec(Method::SendBundle, elems) == ReplySpec::Failure(
            empty_params_msg_spec(),
        ),
{
}

/// Normalizes one parameter under a method's schema.
pub(crate) fn normalize_first(kind: Method, first: &str) -> (r: Option<String>)
    ensures
        r is Some <==> normalize_spec(kind, first@) is Some,
        r matches Some(t) ==> Option::Some(t@) == normalize_spec(kind, first@),
{
    match kind {
        Method::SendBundle => json::normalize_send_bundle(first),
        Method::CancelBundle => json::normalize_cancel_bundle(first),
        Method::CallBundle => json::normalize_call_bundle(first),
        Method::SendPrivateTransaction => json::normalize_private_tx(first),
        Method::CancelPrivateTransaction => json::normalize_cancel_private_tx(first),
        Method::SendPrivateRawTransaction => json::normalize_private_tx(first),
    }
}

/// The placeholder result of a method, as a string.
fn stub_result(kind: Method) -> (r: String)
    ensures
        r@ == stub_result_spec(kind),
{
    match kind {
        Method::SendBundle => (
        "{\"bundleHash\":\"0x0000000000000000000000000000000000000000000000000000000000000000\"}".to_owned()),
        Method::CancelBundle => "null".to_owned(),
        Method::CallBundle => (
        "{\"bundleHash\":\"0x0000000000000000000000000000000000000000000000000000000000000000\",\"bundleGasPrice\":\"0\",\"coinbaseDiff\":\"0\",\"ethSentToCoinbase\":\"0\",\"gasFees\":\"0\",\"results\":[],\"stateBlockNumber\":0,\"totalGasUsed\":0}".to_owned()),
        Method::SendPrivateTransaction => (
        "\"0x0000000000000000000000000000000000000000000000000000000000000000\"".to_owned()),
        Method::CancelPrivateTransaction => "null".to_owned(),
        Method::SendPrivateRawTransaction => (
        "\"0x0000000000000000000000000000000000000000000000000000000000000000\"".to_owned()),
    }
}

/// The invalid-parameter message of a method, as a string.
fn invalid_params_msg(kind: Method) -> (r: String)
    ensures
        r@ == invalid_params_msg_spec(kind),
{
    match kind {
        Method::SendBundle => "invalid params: not a valid bundle".to_owned(),
        Method::CancelBundle => "invalid params: not a valid bundle cancellation".to_owned(),
        Method::CallBundle => "invalid params: not a valid simulation request".to_owned(),
        Method::SendPrivateTransaction => (
        "invalid params: not a valid private transaction".to_owned()),
        Method::CancelPrivateTransaction => (
        "invalid params: not a valid private transaction cancellation".to_owned()),
        Method::SendPrivateRawTransaction => (
        "invalid params: not a valid private transaction".to_owned()),
    }
}

/// Invokes the handler of one method on a decoded parameter sequence.
///
/// The shared state is handed to every handler; the included handlers only
/// read it, and none of their replies depends on it. Handlers may push
/// notifications for the transport to deliver after the response; the
/// included handlers push none.
pub fn invoke_handler(kind: Method, elems: &Vec<String>, shared: &Option<String>) -> (r: (
    HandlerReply,
    Vec<String>,
))
    ensures
        r.0@ == invoke_spec(kind, elems.deep_view()),
        r.1@.len() == 0,
{
    let notifications: Vec<String> = Vec::new();
    if elems.len() == 0 {
        let reply = HandlerReply::Failure("Must specify exactly one bundle".to_owned());
        (reply, notifications)
    } else {
        let first: &String = &elems[0];
        proof {
            assert(elems.deep_view()[0] == elems@[0]@);
        }
        match normalize_first(kind, first.as_str()) {
            Option::Some(_) => (HandlerReply::Success(stub_result(kind)), notifications),
            Option::None => (HandlerReply::Invalid(invalid_params_msg(kind)), notifications),
        }
    }
}

} // verus!
