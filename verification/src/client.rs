//! The client-side request encoder and response decoder.
//!
//! Given one line of input and an operator-chosen method, the encoder either
//! forwards the line untouched (raw mode) or validates it against the
//! method's payload schema and wraps it in a JSON-RPC envelope. The decoder
//! is the mirror image: it prints the response body untouched in raw mode,
//! and extracts the `result` member in typed mode. A typed response that
//! does not parse or lacks `result` yields no output; surfacing `error`
//! envelopes is deliberately left to raw mode.

use vstd::prelude::*;
use crate::envelope;
use crate::handlers;
use crate::json;
use crate::method::Method;

verus! {

/// What encoding one input line yields.
pub enum EncodeOutcome {
    /// The line was empty: end of input, nothing to send.
    Skip,
    /// The body to send.
    Body(String),
    /// The line does not fit the chosen method's payload schema; nothing
    /// may be sent.
    Invalid,
}

/// The spec-level mirror of an encode outcome.
pub enum EncodeSpec {
    Skip,
    Body(Seq<char>),
    Invalid,
}

impl View for EncodeOutcome {
    type V = EncodeSpec;

    open spec fn view(&self) -> EncodeSpec {
        match self {
            EncodeOutcome::Skip => EncodeSpec::Skip,
            EncodeOutcome::Body(s) => EncodeSpec::Body(s@),
            EncodeOutcome::Invalid => EncodeSpec::Invalid,
        }
    }
}

/// What encoding one input line under a method yields: nothing for the
/// empty line, the line itself in raw mode, and otherwise the request
/// envelope around the line's canonical form under the method's schema,
/// refused when the line does not fit it.
pub open spec fn encode_spec(m: Method, line: Seq<char>, raw: bool) -> EncodeSpec {
    if line.len() == 0 {
        EncodeSpec::Skip
    } else if raw {
        EncodeSpec::Body(line)
    } else {
        match handlers::normalize_spec(m, line) {
            Option::Some(p) => EncodeSpec::Body(
                envelope::request_envelope_spec(crate::method::wire_name_spec(m), p),
            ),
            Option::None => EncodeSpec::Invalid,
        }
    }
}

/// Encodes one input line under the chosen method.
pub fn encode_request(m: Method, line: &str, raw: bool) -> (r: EncodeOutcome)
    ensures
        r@ == encode_spec(m, line@, raw),
{
    if line.is_empty() {
        return EncodeOutcome::Skip;
    }
    if raw {
        return EncodeOutcome::Body(line.to_owned());
    }
    match handlers::normalize_first(m, line) {
        Option::Some(payload) => {
            let name = m.wire_name();
            EncodeOutcome::Body(envelope::build_request_envelope(name.as_str(), payload.as_str()))
        },
        Option::None => EncodeOutcome::Invalid,
    }
}

/// What decoding one response body yields: the body itself in raw mode, and
/// in typed mode the raw text of its `result` member, nothing when the body
/// does not parse as JSON or lacks that member.
pub open spec fn decode_spec(body: Seq<char>, raw: bool) -> Option<Seq<char>> {
    if raw {
        Option::Some(body)
    } else {
        json::result_field(body)
    }
}

/// Decodes one response body; the result is what is printed, one line,
/// nothing when there is nothing to print.
pub fn decode_response(body: &str, raw: bool) -> (r: Option<String>)
    ensures
        r is Some <==> decode_spec(body@, raw) is Some,
        r matches Some(s) ==> Option::Some(s@) == decode_spec(body@, raw),
{
    if raw {
        Option::Some(body.to_owned())
    } else {
        json::extract_result(body)
    }
}

/// Raw mode is an exact pass-through: a non-empty input line is forwarded
/// unmodified as the request body, whatever it holds, and a response body
/// is handed back unmodified, whatever it holds.
pub proof fn lemma_raw_passthrough(m: Method, line: Seq<char>, body: Seq<char>)
    ensures
        line.len() > 0 ==> encode_spec(m, line, true) == EncodeSpec::Body(line),
        decode_spec(body, true) == Option::Some(body),
{
}

/// The empty input line is the documented no-op path: under every method
/// and in both modes, nothing is sent.
pub proof fn lemma_empty_line_skips(m: Method, raw: bool)
    ensures
        encode_spec(m, Seq::<char>::empty(), raw) == EncodeSpec::Skip,
{
}

} // verus!
