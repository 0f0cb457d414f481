//! The trusted boundary to serde_json and the alloy MEV payload schemas.
//!
//! Every outside call the library's logic needs is wrapped here. Each
//! wrapper's result depends on its text argument alone, so it is named by an
//! uninterpreted spec function, and the callers' contracts are stated over
//! those names.

use vstd::prelude::*;

verus! {

/// The pieces of a JSON-RPC request object: the raw JSON text of its `id`
/// member, its `method` member when that member is a string, and the raw JSON
/// text of its `params` member; each absent when the object lacks the member.
pub struct RawRequest {
    pub id_json: Option<String>,
    pub method: Option<String>,
    pub params_json: Option<String>,
}

/// The view of an optional string.
pub open spec fn opt_str_view(o: Option<String>) -> Option<Seq<char>> {
    match o {
        Option::Some(s) => Option::Some(s@),
        Option::None => Option::None,
    }
}

/// What decoding a JSON-RPC request object from the given text yields:
/// nothing when the text is not a JSON object, else the raw text of its `id`,
/// its `method` string, and the raw text of its `params`.
pub uninterp spec fn envelope_view(s: Seq<char>) -> Option<
    (Option<Seq<char>>, Option<Seq<char>>, Option<Seq<char>>),
>;

/// Relies on `serde_json::from_str::<serde_json::Value>` and on
/// `serde_json::Value`'s `as_object`, `get`, `as_str` and `to_string`:
/// it splits a JSON object into the raw text of its `id`, its `method`
/// string, and the raw text of its `params`, and yields nothing when the
/// text is not a JSON object. The split depends on the text alone.
#[verifier::external_body]
pub fn decode_envelope(s: &str) -> (r: Option<RawRequest>)
    ensures
        r is Some <==> envelope_view(s@) is Some,
        r matches Some(e) ==> Option::Some(
            (opt_str_view(e.id_json), opt_str_view(e.method), opt_str_view(e.params_json)),
        ) == envelope_view(s@),
{
    let v: serde_json::Value = serde_json::from_str(s).ok()?;
    let obj = v.as_object()?;
    Some(RawRequest {
        id_json: obj.get("id").map(|x| x.to_string()),
        method: obj.get("method").and_then(|x| x.as_str()).map(|x| x.to_string()),
        params_json: obj.get("params").map(|x| x.to_string()),
    })
}

/// What splitting the given text as a JSON array yields: nothing when the
/// text is not a JSON array, else the raw text of each element, in order.
pub uninterp spec fn params_elems(s: Seq<char>) -> Option<Seq<Seq<char>>>;

/// Relies on `serde_json::from_str::<Vec<serde_json::Value>>` and on
/// `serde_json::Value::to_string`: it splits the text of a JSON array into
/// the raw text of its elements, in order, and yields nothing when the text
/// is not a JSON array. The split depends on the text alone.
#[verifier::external_body]
pub fn split_params(s: &str) -> (r: Option<Vec<String>>)
    ensures
        r is Some <==> params_elems(s@) is Some,
        r matches Some(v) ==> Option::Some(v.deep_view()) == params_elems(s@),
{
    match serde_json::from_str::<Vec<serde_json::Value>>(s) {
        Ok(vals) => Some(vals.iter().map(|v| v.to_string()).collect()),
        Err(_) => None,
    }
}

/// The canonical form of a bundle submission: what parsing the text as an
/// `eth_sendBundle` payload and serializing it back yields, nothing when the
/// text does not fit the schema.
pub uninterp spec fn send_bundle_json(s: Seq<char>) -> Option<Seq<char>>;

/// Relies on `serde_json::from_str` and `serde_json::to_string` on
/// `alloy_rpc_types_mev::EthSendBundle`: whether the text fits the schema,
/// and the canonical form, depend on the text alone.
#[verifier::external_body]
pub fn normalize_send_bundle(s: &str) -> (r: Option<String>)
    ensures
        r is Some <==> send_bundle_json(s@) is Some,
        r matches Some(t) ==> Option::Some(t@) == send_bundle_json(s@),
{
    match serde_json::from_str::<alloy_rpc_types_mev::EthSendBundle>(s) {
        Ok(b) => serde_json::to_string(&b).ok(),
        Err(_) => None,
    }
}

/// The canonical form of a bundle cancellation, nothing when the text does
/// not fit the `eth_cancelBundle` schema.
pub uninterp spec fn cancel_bundle_json(s: Seq<char>) -> Option<Seq<char>>;

/// Relies on `serde_json::from_str` and `serde_json::to_string` on
/// `alloy_rpc_types_mev::EthCancelBundle`: whether the text fits the schema,
/// and the canonical form, depend on the text alone.
#[verifier::external_body]
pub fn normalize_cancel_bundle(s: &str) -> (r: Option<String>)
    ensures
        r is Some <==> cancel_bundle_json(s@) is Some,
        r matches Some(t) ==> Option::Some(t@) == cancel_bundle_json(s@),
{
    match serde_json::from_str::<alloy_rpc_types_mev::EthCancelBundle>(s) {
        Ok(b) => serde_json::to_string(&b).ok(),
        Err(_) => None,
    }
}

/// The canonical form of a simulation request, nothing when the text does
/// not fit the `eth_callBundle` schema.
pub uninterp spec fn call_bundle_json(s: Seq<char>) -> Option<Seq<char>>;

/// Relies on `serde_json::from_str` and `serde_json::to_string` on
/// `alloy_rpc_types_mev::EthCallBundle`: whether the text fits the schema,
/// and the canonical form, depend on the text alone.
#[verifier::external_body]
pub fn normalize_call_bundle(s: &str) -> (r: Option<String>)
    ensures
        r is Some <==> call_bundle_json(s@) is Some,
        r matches Some(t) ==> Option::Some(t@) == call_bundle_json(s@),
{
    match serde_json::from_str::<alloy_rpc_types_mev::EthCallBundle>(s) {
        Ok(b) => serde_json::to_string(&b).ok(),
        Err(_) => None,
    }
}

/// The canonical form of a private-transaction submission, nothing when the
/// text does not fit the `eth_sendPrivateTransaction` schema.
pub uninterp spec fn private_tx_json(s: Seq<char>) -> Option<Seq<char>>;

/// Relies on `serde_json::from_str` and `serde_json::to_string` on
/// `alloy_rpc_types_mev::EthSendPrivateTransaction`: whether the text fits
/// the schema, and the canonical form, depend on the text alone.
#[verifier::external_body]
pub fn normalize_private_tx(s: &str) -> (r: Option<String>)
    ensures
        r is Some <==> private_tx_json(s@) is Some,
        r matches Some(t) ==> Option::Some(t@) == private_tx_json(s@),
{
    match serde_json::from_str::<alloy_rpc_types_mev::EthSendPrivateTransaction>(s) {
        Ok(b) => serde_json::to_string(&b).ok(),
        Err(_) => None,
    }
}

/// The canonical form of a private-transaction cancellation, nothing when
/// the text does not fit the `eth_cancelPrivateTransaction` schema.
pub uninterp spec fn cancel_private_tx_json(s: Seq<char>) -> Option<Seq<char>>;

/// Relies on `serde_json::from_str` and `serde_json::to_string` on
/// `alloy_rpc_types_mev::EthCancelPrivateTransaction`: whether the text fits
/// the schema, and the canonical form, depend on the text alone.
#[verifier::external_body]
pub fn normalize_cancel_private_tx(s: &str) -> (r: Option<String>)
    ensures
        r is Some <==> cancel_private_tx_json(s@) is Some,
        r matches Some(t) ==> Option::Some(t@) == cancel_private_tx_json(s@),
{
    match serde_json::from_str::<alloy_rpc_types_mev::EthCancelPrivateTransaction>(s) {
        Ok(b) => serde_json::to_string(&b).ok(),
        Err(_) => None,
    }
}

/// The raw text of the `result` member of a JSON-RPC response, nothing when
/// the text does not parse as JSON or lacks that member.
pub uninterp spec fn result_field(s: Seq<char>) -> Option<Seq<char>>;

/// Relies on `serde_json::from_str::<serde_json::Value>` and on
/// `serde_json::Value`'s `get` and `to_string`: it yields the raw text of
/// the object's `result` member, nothing when the text does not parse or
/// lacks the member. The outcome depends on the text alone.
#[verifier::external_body]
pub fn extract_result(s: &str) -> (r: Option<String>)
    ensures
        r is Some <==> result_field(s@) is Some,
        r matches Some(t) ==> Option::Some(t@) == result_field(s@),
{
    match serde_json::from_str::<serde_json::Value>(s) {
        Ok(v) => v.get("result").map(|x| x.to_string()),
        Err(_) => None,
    }
}

} // verus!
