//! The handoff of a script to the external execution context.
//!
//! A script is not run by the bridge itself: it is escaped, wrapped in a
//! call to the page's evaluation hook together with a fresh correlation
//! id, and handed to the page.  The page later reports back through a
//! separate channel; `eval_outcome` turns that report into the result the
//! waiting dispatch step needs.  The texts of the wrapper call and of
//! every message surfaced to the caller are stated exactly.

use vstd::prelude::*;

use crate::correlation::CorrelationTable;
use crate::json::{Json, JsonView};
use crate::protocol::opt_view;

verus! {

/// How one character of a script appears inside the single-quoted wrapper
/// call: backslashes, single quotes and line breaks are escaped.
pub open spec fn eval_esc_char(c: char) -> Seq<char> {
    if c == '\\' {
        seq!['\\', '\\']
    } else if c == '\'' {
        seq!['\\', '\'']
    } else if c == '\n' {
        seq!['\\', 'n']
    } else {
        seq![c]
    }
}

/// A whole script as it appears inside the wrapper call.
pub open spec fn eval_esc(s: Seq<char>) -> Seq<char>
    decreases s.len(),
{
    if s.len() == 0 {
        Seq::empty()
    } else {
        eval_esc_char(s[0]) + eval_esc(s.drop_first())
    }
}

/// Escapes `s` for its place inside the wrapper call.
fn escape_script(s: &str) -> (r: String)
    ensures
        r@ == eval_esc(s@),
{
    let n = s.unicode_len();
    let mut buf: Vec<char> = Vec::new();
    let mut i: usize = 0;
    proof {
        assert(s@.skip(0) =~= s@);
    }
    while i < n
        invariant
            n == s@.len(),
            i <= n,
            buf@ + (if i < n { eval_esc(s@.skip(i as int)) } else { Seq::empty() }) == eval_esc(
                s@,
            ),
        decreases n - i,
    {
        let c = s.get_char(i);
        proof {
            let t = s@.skip(i as int);
            assert(t[0] == s@[i as int]);
            if t.len() > 1 {
                assert(t.drop_first() =~= s@.skip(i as int + 1));
            } else {
                assert(eval_esc(t.drop_first()) =~= Seq::<char>::empty());
                assert(eval_esc(t) =~= eval_esc_char(s@[i as int]));
            }
        }
        if c == '\\' {
            buf.push('\\');
            buf.push('\\');
        } else if c == '\'' {
            buf.push('\\');
            buf.push('\'');
        } else if c == '\n' {
            buf.push('\\');
            buf.push('n');
        } else {
            buf.push(c);
        }
        proof {
            assert(buf@ + (if i + 1 < n {
                eval_esc(s@.skip(i as int + 1))
            } else {
                Seq::<char>::empty()
            }) =~= eval_esc(s@));
        }
        i = i + 1;
    }
    crate::json::chars_to_string(&buf)
}

/// The text of the call that hands `script` to the page's evaluation hook
/// under the correlation id `request_id`.
pub open spec fn eval_call_text(request_id: Seq<char>, script: Seq<char>) -> Seq<char> {
    ("window.__MCP_EVAL__('")@ + request_id + ("', '")@ + eval_esc(script) + ("')")@
}

/// Builds the call that hands `script` to the page's evaluation hook.
pub fn eval_call_js(request_id: &str, script: &str) -> (r: String)
    ensures
        r@ == eval_call_text(request_id@, script@),
{
    let esc = escape_script(script);
    let mut r = String::new();
    r.append("window.__MCP_EVAL__('");
    r.append(request_id);
    r.append("', '");
    r.append(esc.as_str());
    r.append("')");
    proof {
        assert(r@ =~= eval_call_text(request_id@, script@));
    }
    r
}

/// What the caller is told when the page's side of the bridge has not
/// announced itself yet.
pub fn bridge_not_ready_message() -> (r: &'static str)
    ensures
        r@ == ("MCP bridge not initialized. Call initMcpBridge() in your frontend.")@,
{
    "MCP bridge not initialized. Call initMcpBridge() in your frontend."
}

/// What the caller is told when the wait for the page's answer ran out.
pub fn timeout_message() -> (r: &'static str)
    ensures
        r@ == ("Timeout waiting for eval result")@,
{
    "Timeout waiting for eval result"
}

/// What the caller is told when the waiter was dropped without an answer.
pub fn channel_closed_message() -> (r: &'static str)
    ensures
        r@ == ("Channel closed unexpectedly")@,
{
    "Channel closed unexpectedly"
}

/// What the caller is told when the page refused the script, with the
/// page's own words.
pub fn eval_failed_message(e: &str) -> (r: String)
    ensures
        r@ == ("Failed to execute script: ")@ + e@,
{
    let mut r = String::new();
    r.append("Failed to execute script: ");
    r.append(e);
    proof {
        assert(r@ =~= ("Failed to execute script: ")@ + e@);
    }
    r
}

/// What the page reports back for one correlation id.
pub struct EvalResult {
    pub request_id: String,
    pub success: bool,
    pub value: Option<Json>,
    pub error: Option<String>,
}

/// Mathematical model of a page report.
#[verifier::ext_equal]
pub struct EvalResultView {
    pub request_id: Seq<char>,
    pub success: bool,
    pub value: Option<JsonView>,
    pub error: Option<Seq<char>>,
}

impl View for EvalResult {
    type V = EvalResultView;

    open spec fn view(&self) -> EvalResultView {
        EvalResultView {
            request_id: self.request_id@,
            success: self.success,
            value: opt_view(self.value),
            error: (match self.error {
                Some(ref e) => Some(e@),
                None => None,
            }),
        }
    }
}

/// The outcome a waiter is fulfilled with: the reported value — null when
/// the report carries none — on success, and on failure the reported
/// words, or a fixed text when even those are missing.
pub fn eval_outcome(res: EvalResult) -> (r: Result<Json, String>)
    ensures
        match r {
            Ok(v) => res@.success && v@ == (match res@.value {
                Some(x) => x,
                None => JsonView::Null,
            }),
            Err(e) => !res@.success && e@ == (match res@.error {
                Some(x) => x,
                None => ("Unknown error")@,
            }),
        },
{
    if res.success {
        match res.value {
            Some(v) => Ok(v),
            None => Ok(Json::Null),
        }
    } else {
        match res.error {
            Some(e) => Err(e),
            None => Err("Unknown error".to_owned()),
        }
    }
}


/// Relies on uuid's `Uuid::new_v4` and its `Display` impl: a fresh
/// random identifier, rendered in the 36-character hyphenated form.
#[verifier::external_body]
fn new_correlation_id() -> (r: String)
    ensures
        r@.len() == 36,
{
    uuid::Uuid::new_v4().to_string()
}

/// Opens one handoff to the external context: draws a fresh correlation
/// id, files `waiter` under it, and builds the call that carries the id
/// and the escaped script into the page.  The id is drawn at random from
/// a space wide enough that a collision with an outstanding id does not
/// arise in practice; were one ever drawn, nothing is filed and the
/// waiter comes back to the caller.
pub fn prepare_eval<W>(
    table: &mut CorrelationTable<W>,
    waiter: W,
    created_at: u64,
    script: &str,
) -> (r: Result<(String, String), W>)
    requires
        old(table).wf(),
    ensures
        final(table).wf(),
        match r {
            Ok((id, js)) => id@.len() == 36 && !old(table)@.contains_key(id@) && final(table)@
                == old(table)@.insert(id@, (waiter, created_at)) && js@ == eval_call_text(
                id@,
                script@,
            ),
            Err(w) => final(table)@ == old(table)@ && w == waiter,
        },
{
    let id = new_correlation_id();
    match table.register(id.clone(), waiter, created_at) {
        Ok(()) => {
            let js = eval_call_js(id.as_str(), script);
            Ok((id, js))
        },
        Err(w) => Err(w),
    }
}

} // verus!
