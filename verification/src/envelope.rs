//! Verified construction of JSON-RPC 2.0 envelopes.

use vstd::prelude::*;

verus! {

/// The request envelope the client sends: the fixed version and request id,
/// the wire name of the chosen method, and the payload as the sole element
/// of `params`.
pub open spec fn request_envelope_spec(name: Seq<char>, payload: Seq<char>) -> Seq<char> {
    "{\"jsonrpc\":\"2.0\",\"id\":1,\"method\":\""@ + name + "\",\"params\":["@ + payload + "]}"@
}

/// A success envelope: the given id and the result text.
pub open spec fn success_envelope_spec(id: Seq<char>, result: Seq<char>) -> Seq<char> {
    "{\"jsonrpc\":\"2.0\",\"id\":"@ + id + ",\"result\":"@ + result + "}"@
}

/// An error envelope: the given id, a numeric code, and a message.
pub open spec fn error_envelope_spec(id: Seq<char>, code: Seq<char>, msg: Seq<char>) -> Seq<char> {
    "{\"jsonrpc\":\"2.0\",\"id\":"@ + id + ",\"error\":{\"code\":"@ + code + ",\"message\":\""@
        + msg + "\"}}"@
}

/// Builds the request envelope for one method name and one payload.
pub fn build_request_envelope(name: &str, payload: &str) -> (r: String)
    ensures
        r@ == request_envelope_spec(name@, payload@),
{
    let mut s: String = "{\"jsonrpc\":\"2.0\",\"id\":1,\"method\":\"".to_owned();
    s.push_str(name);
    s.push_str("\",\"params\":[");
    s.push_str(payload);
    s.push_str("]}");
    proof {
        assert(s@ =~= request_envelope_spec(name@, payload@));
    }
    s
}

/// Builds a success envelope around the raw text of an id and a result.
pub fn build_success_envelope(id: &str, result: &str) -> (r: String)
    ensures
        r@ == success_envelope_spec(id@, result@),
{
    let mut s: String = "{\"jsonrpc\":\"2.0\",\"id\":".to_owned();
    s.push_str(id);
    s.push_str(",\"result\":");
    s.push_str(result);
    s.push_str("}");
    proof {
        assert(s@ =~= success_envelope_spec(id@, result@));
    }
    s
}

/// Builds an error envelope around the raw text of an id, a code and a
/// message.
pub fn build_error_envelope(id: &str, code: &str, msg: &str) -> (r: String)
    ensures
        r@ == error_envelope_spec(id@, code@, msg@),
{
    let mut s: String = "{\"jsonrpc\":\"2.0\",\"id\":".to_owned();
    s.push_str(id);
    s.push_str(",\"error\":{\"code\":");
    s.push_str(code);
    s.push_str(",\"message\":\"");
    s.push_str(msg);
    s.push_str("\"}}");
    proof {
        assert(s@ =~= error_envelope_spec(id@, code@, msg@));
    }
    s
}

} // verus!
