//! The per-connection session step.
//!
//! A session reads one line at a time and answers each in turn: responses
//! leave in exactly the order their requests arrived, and nothing about a
//! line can end the session — only the transport can, by closing or
//! failing.  A blank line is skipped; a line that is not a request is
//! answered with a parse error on the same connection, with a null id
//! because none could be read; a well-formed request is answered by the
//! installed handler, and when none is installed yet, with an error that
//! keeps the request's id, immediately and without waiting.

use vstd::prelude::*;

use crate::protocol::{
    error_view, spec_decode_request, JsonRpcRequest, JsonRpcResponse, ResponseView,
    METHOD_NOT_FOUND, PARSE_ERROR,
};

verus! {

/// The capability boundary: whatever performs commands for a session.
///
/// The bridge calls `handle_request` for every decoded request and writes
/// whatever comes back.  An implementation owes its caller a well-formed
/// response that answers the request's own id; the implementations an
/// embedding runtime supplies are taken at their word on this, as the
/// boundary's contract.
pub trait CommandHandler {
    /// Produces the response to one request.
    fn handle_request(&self, req: JsonRpcRequest) -> (r: JsonRpcResponse)
        ensures
            r@.id == req@.id,
            r@.well_formed(),
    ;
}

/// What a session does with one line.
pub enum SessionStep {
    /// The line held nothing; read the next one.
    Skip,
    /// Write this response, then read the next line.
    Reply(JsonRpcResponse),
}

/// Mathematical model of a session step.
#[verifier::ext_equal]
pub enum StepView {
    Skip,
    Reply(ResponseView),
}

impl View for SessionStep {
    type V = StepView;

    open spec fn view(&self) -> StepView {
        match self {
            SessionStep::Skip => StepView::Skip,
            SessionStep::Reply(r) => StepView::Reply(r@),
        }
    }
}

/// Whether `s` holds only blank characters: spaces, tabs and line ends.
pub open spec fn is_blank(s: Seq<char>) -> bool {
    forall|i: int| 0 <= i < s.len() ==> crate::decode::is_ws_char(s[i])
}

/// Whether `line` holds only blank characters.
fn line_is_blank(line: &str) -> (r: bool)
    ensures
        r == is_blank(line@),
{
    let n = line.unicode_len();
    let mut i: usize = 0;
    while i < n
        invariant
            n == line@.len(),
            i <= n,
            forall|j: int| 0 <= j < i ==> crate::decode::is_ws_char(line@[j]),
        decreases n - i,
    {
        let c = line.get_char(i);
        if !(c == ' ' || c == '\t' || c == '\r' || c == '\n') {
            return false;
        }
        i = i + 1;
    }
    true
}

/// Drives one line of a session.
///
/// A blank line is skipped.  A line the grammar or the request schema
/// refuses is answered with `PARSE_ERROR` under a null id, and the session
/// carries on: the step never closes the connection, so the next line of
/// the same connection is handled like any other.  A decoded request is
/// answered by `handler`; with no handler installed, the step answers at
/// once with `METHOD_NOT_FOUND` and the text `Handler not initialized`,
/// keeping the request's id.  Every reply answers the id of the request
/// on its own line, so each client receives only its own responses.
pub fn handle_line<H: CommandHandler>(line: &str, handler: Option<&H>) -> (r: SessionStep)
    ensures
        is_blank(line@) ==> r@ == StepView::Skip,
        !is_blank(line@) ==> (match spec_decode_request(line@) {
            Some(req) => (match handler {
                Some(_) => r@ matches StepView::Reply(resp) && resp.id == req.id
                    && resp.well_formed(),
                None => r@ == StepView::Reply(
                    error_view(
                        req.id,
                        METHOD_NOT_FOUND as int,
                        ("Handler not initialized")@,
                    ),
                ),
            }),
            None => r@ == StepView::Reply(
                error_view(None, PARSE_ERROR as int, ("Parse error: invalid JSON")@),
            ),
        }),
{
    if line_is_blank(line) {
        return SessionStep::Skip;
    }
    match crate::protocol::decode_request(line) {
        Some(req) => match handler {
            Some(h) => SessionStep::Reply(h.handle_request(req)),
            None => {
                let id = match req.id {
                    Some(j) => Some(j),
                    None => None,
                };
                SessionStep::Reply(
                    JsonRpcResponse::error(id, METHOD_NOT_FOUND, "Handler not initialized"),
                )
            },
        },
        None => SessionStep::Reply(
            JsonRpcResponse::error(None, PARSE_ERROR, "Parse error: invalid JSON"),
        ),
    }
}

} // verus!
