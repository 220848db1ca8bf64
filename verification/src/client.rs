//! The client driver's half of the bridge: framing one request, reading
//! one response.
//!
//! The driver connects, writes one framed request line, reads exactly one
//! response line and decodes it.  Failures to connect fall into three
//! categories — no listener, a listener that does not accept yet, and
//! everything else — each surfaced with its own guidance, so a user can
//! tell "start the runtime" from "wait and retry".

use vstd::prelude::*;

use crate::decode::parse_json;
use crate::json::{enc_json, obj_lookup, Json, JsonView};
use crate::protocol::{encode_request, request_json, JsonRpcRequest, RequestView};

verus! {

/// Why a connection attempt failed.
pub enum ConnectFailure {
    /// No endpoint exists: the runtime is not running.
    NotFound,
    /// The endpoint exists but refuses: the runtime is still starting.
    Refused,
    /// Any other transport failure, with its own words.
    Other(String),
}

/// The guidance shown for a failed connection attempt, one fixed text per
/// category.
pub fn connect_failure_message(f: &ConnectFailure) -> (r: String)
    ensures
        r@ == (match f {
            ConnectFailure::NotFound => (
            "App not running. Use 'launch_app' tool to start the desktop app first.")@,
            ConnectFailure::Refused => (
            "App is starting up. Please wait a moment and try again.")@,
            ConnectFailure::Other(e) => ("Connection error: ")@ + e@,
        }),
{
    match f {
        ConnectFailure::NotFound => {
            "App not running. Use 'launch_app' tool to start the desktop app first.".to_owned()
        },
        ConnectFailure::Refused => {
            "App is starting up. Please wait a moment and try again.".to_owned()
        },
        ConnectFailure::Other(e) => {
            let mut r = String::new();
            r.append("Connection error: ");
            r.append(e.as_str());
            proof {
                assert(r@ =~= ("Connection error: ")@ + e@);
            }
            r
        },
    }
}

/// The request the driver sends for one command: the protocol tag, the
/// fixed id `1` — one outstanding request per connection, never pipelined
/// — the method, and the parameters.
pub fn build_command_request(method: &str, params: Json) -> (r: JsonRpcRequest)
    ensures
        r@ == (RequestView {
            jsonrpc: ("2.0")@,
            id: Some(JsonView::Int(1)),
            method: method@,
            params: params@,
        }),
{
    let r = JsonRpcRequest {
        jsonrpc: "2.0".to_owned(),
        id: Some(Json::Int(1)),
        method: method.to_owned(),
        params,
    };
    proof {
        assert(r@ =~= (RequestView {
            jsonrpc: ("2.0")@,
            id: Some(JsonView::Int(1)),
            method: method@,
            params: r.params@,
        }));
    }
    r
}

/// Frames one command as its request line.
pub fn command_request_line(method: &str, params: Json) -> (line: String)
    ensures
        line@ == enc_json(
            request_json(
                RequestView {
                    jsonrpc: ("2.0")@,
                    id: Some(JsonView::Int(1)),
                    method: method@,
                    params: params@,
                },
            ),
        ),
        crate::json::line_safe(line@),
{
    let req = build_command_request(method, params);
    encode_request(req)
}

/// What reading one response line yields: the `result` member on success,
/// the `error` member's own one-line text on failure.
pub open spec fn spec_read_response(s: Seq<char>) -> Result<JsonView, Seq<char>> {
    match parse_json(s) {
        None => Err(("Failed to parse response")@),
        Some(v) => match obj_lookup(v, ("error")@) {
            Some(e) => Err(enc_json(e)),
            None => match obj_lookup(v, ("result")@) {
                Some(r) => Ok(r),
                None => Ok(JsonView::Null),
            },
        },
    }
}

/// Decodes one response line: the result on success, and on a reported
/// error that error's own text, so action failures reach the user in the
/// runtime's words.
pub fn read_response_line(line: &str) -> (r: Result<Json, String>)
    ensures
        match r {
            Ok(v) => spec_read_response(line@) == Ok::<JsonView, Seq<char>>(v@),
            Err(e) => spec_read_response(line@) == Err::<JsonView, Seq<char>>(e@),
        },
{
    let v = match crate::decode::decode_json(line) {
        Some(v) => v,
        None => {
            return Err("Failed to parse response".to_owned());
        },
    };
    match v.get("error") {
        Some(e) => Err(crate::json::encode_json(e)),
        None => match v.get("result") {
            Some(res) => Ok(res.duplicate()),
            None => Ok(Json::Null),
        },
    }
}

} // verus!
