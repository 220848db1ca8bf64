//! The JSON-RPC 2.0 protocol data model.
//!
//! A request carries a protocol tag, an opaque optional `id`, a method name
//! and parameters; a response carries the same tag, the `id` it answers,
//! and exactly one of a result or an error.  The mapping between these
//! records and their wire documents is stated here: what a response looks
//! like on the wire, and which documents count as well-formed requests.

use vstd::prelude::*;

use crate::decode::parse_json;
use crate::json::{
    enc_json, encode_json, lemma_enc_json_single_line, line_safe, lookup_fields, Json,
    JsonView,
};

verus! {

/// The request or response text could not be read as a document.
pub const PARSE_ERROR: i32 = -32700;

/// The document is not a well-formed request.
pub const INVALID_REQUEST: i32 = -32600;

/// No handler knows the requested method.
pub const METHOD_NOT_FOUND: i32 = -32601;

/// The parameters do not fit the method.
pub const INVALID_PARAMS: i32 = -32602;

/// The handler failed internally.
pub const INTERNAL_ERROR: i32 = -32603;

/// The embedded runtime is not connected.
pub const APP_NOT_CONNECTED: i32 = -32000;

/// An action in the external execution context failed or never answered.
pub const EVAL_ERROR: i32 = -32001;

/// A native screen capture failed.
pub const SCREENSHOT_ERROR: i32 = -32002;

/// One JSON-RPC request.
#[derive(Debug)]
pub struct JsonRpcRequest {
    pub jsonrpc: String,
    pub id: Option<Json>,
    pub method: String,
    pub params: Json,
}

/// Mathematical model of a request.
#[verifier::ext_equal]
pub struct RequestView {
    pub jsonrpc: Seq<char>,
    pub id: Option<JsonView>,
    pub method: Seq<char>,
    pub params: JsonView,
}

/// The model of an optional document: the model of what is there.
pub open spec fn opt_view(o: Option<Json>) -> Option<JsonView> {
    match o {
        Some(j) => Some(j@),
        None => None,
    }
}

impl View for JsonRpcRequest {
    type V = RequestView;

    open spec fn view(&self) -> RequestView {
        RequestView {
            jsonrpc: self.jsonrpc@,
            id: opt_view(self.id),
            method: self.method@,
            params: self.params@,
        }
    }
}

/// One JSON-RPC error object.
#[derive(Debug)]
pub struct JsonRpcError {
    pub code: i32,
    pub message: String,
    pub data: Option<Json>,
}

/// Mathematical model of an error object.
#[verifier::ext_equal]
pub struct ErrorView {
    pub code: int,
    pub message: Seq<char>,
    pub data: Option<JsonView>,
}

impl View for JsonRpcError {
    type V = ErrorView;

    open spec fn view(&self) -> ErrorView {
        ErrorView { code: self.code as int, message: self.message@, data: opt_view(self.data) }
    }
}

/// One JSON-RPC response.
#[derive(Debug)]
pub struct JsonRpcResponse {
    pub jsonrpc: String,
    pub id: Option<Json>,
    pub result: Option<Json>,
    pub error: Option<JsonRpcError>,
}

/// Mathematical model of a response.
#[verifier::ext_equal]
pub struct ResponseView {
    pub jsonrpc: Seq<char>,
    pub id: Option<JsonView>,
    pub result: Option<JsonView>,
    pub error: Option<ErrorView>,
}

/// The model of an optional error object.
pub open spec fn opt_err_view(o: Option<JsonRpcError>) -> Option<ErrorView> {
    match o {
        Some(e) => Some(e@),
        None => None,
    }
}

impl View for JsonRpcResponse {
    type V = ResponseView;

    open spec fn view(&self) -> ResponseView {
        ResponseView {
            jsonrpc: self.jsonrpc@,
            id: opt_view(self.id),
            result: opt_view(self.result),
            error: opt_err_view(self.error),
        }
    }
}

impl ResponseView {
    /// A response is well formed when it carries the protocol tag and
    /// exactly one of a result or an error.
    pub open spec fn well_formed(self) -> bool {
        &&& self.jsonrpc == ("2.0")@
        &&& (self.result is Some) != (self.error is Some)
    }
}

/// The model of a response that answers `id` with `result`.
pub open spec fn success_view(id: Option<JsonView>, result: JsonView) -> ResponseView {
    ResponseView { jsonrpc: ("2.0")@, id, result: Some(result), error: None }
}

/// The model of a response that answers `id` with an error.
pub open spec fn error_view(id: Option<JsonView>, code: int, message: Seq<char>) -> ResponseView {
    ResponseView {
        jsonrpc: ("2.0")@,
        id,
        result: None,
        error: Some(ErrorView { code, message, data: None }),
    }
}

impl JsonRpcResponse {
    /// A response that answers `id` with `result`.
    pub fn success(id: Option<Json>, result: Json) -> (r: Self)
        ensures
            r@ == success_view(opt_view(id), result@),
            r@.well_formed(),
    {
        let r = JsonRpcResponse { jsonrpc: "2.0".to_owned(), id, result: Some(result), error: None };
        proof {
            assert(r@ =~= (ResponseView {
                jsonrpc: ("2.0")@,
                id: opt_view(r.id),
                result: opt_view(r.result),
                error: None,
            }));
        }
        r
    }

    /// A response that answers `id` with the error `code` and `message`.
    pub fn error(id: Option<Json>, code: i32, message: &str) -> (r: Self)
        ensures
            r@ == error_view(opt_view(id), code as int, message@),
            r@.well_formed(),
    {
        let r = JsonRpcResponse {
            jsonrpc: "2.0".to_owned(),
            id,
            result: None,
            error: Some(JsonRpcError { code, message: message.to_owned(), data: None }),
        };
        proof {
            assert(r@ =~= (ResponseView {
                jsonrpc: ("2.0")@,
                id: opt_view(r.id),
                result: None,
                error: opt_err_view(r.error),
            }));
        }
        r
    }
}

/// The wire document of the request `r`: all four members, an absent `id`
/// written as null.
pub open spec fn request_json(r: RequestView) -> JsonView {
    JsonView::Obj(
        seq![
            (("jsonrpc")@, JsonView::Str(r.jsonrpc)),
            (("id")@, match r.id {
                Some(v) => v,
                None => JsonView::Null,
            }),
            (("method")@, JsonView::Str(r.method)),
            (("params")@, r.params),
        ],
    )
}

/// The wire document of the error object `e`: `data` only when present.
pub open spec fn error_json(e: ErrorView) -> JsonView {
    JsonView::Obj(
        seq![(("code")@, JsonView::Int(e.code)), (("message")@, JsonView::Str(e.message))]
            + (match e.data {
            Some(d) => seq![(("data")@, d)],
            None => Seq::empty(),
        }),
    )
}

/// The wire document of the response `r`: the tag and the `id` always, the
/// result or the error only when present.
pub open spec fn response_json(r: ResponseView) -> JsonView {
    JsonView::Obj(
        seq![
            (("jsonrpc")@, JsonView::Str(r.jsonrpc)),
            (("id")@, match r.id {
                Some(v) => v,
                None => JsonView::Null,
            }),
        ] + (match r.result {
            Some(v) => seq![(("result")@, v)],
            None => Seq::empty(),
        }) + (match r.error {
            Some(e) => seq![(("error")@, error_json(e))],
            None => Seq::empty(),
        }),
    )
}

/// Builds the wire document of `req`.
pub fn request_to_json(req: JsonRpcRequest) -> (j: Json)
    ensures
        j@ == request_json(req@),
{
    let ghost rv = req@;
    let idj: Json = match req.id {
        Some(v) => v,
        None => Json::Null,
    };
    proof {
        assert(idj@ == (match rv.id {
            Some(v) => v,
            None => JsonView::Null,
        }));
    }
    let mut fields: Vec<(String, Json)> = Vec::new();
    fields.push(("jsonrpc".to_owned(), Json::Str(req.jsonrpc)));
    fields.push(("id".to_owned(), idj));
    fields.push(("method".to_owned(), Json::Str(req.method)));
    fields.push(("params".to_owned(), req.params));
    let j = Json::Obj(fields);
    proof {
        let fv = crate::json::views_of_fields(fields@);
        assert(fields@.len() == 4);
        assert(fv[0] == (("jsonrpc")@, JsonView::Str(rv.jsonrpc)));
        assert(fv[1] == (("id")@, idj@));
        assert(fv[2] == (("method")@, JsonView::Str(rv.method)));
        assert(fv[3] == (("params")@, rv.params));
        assert(fv =~= request_json(rv)->Obj_0);
        assert(j@ =~~= request_json(rv));
    }
    j
}

/// Builds the wire document of `err`.
fn error_to_json(err: JsonRpcError) -> (j: Json)
    ensures
        j@ == error_json(err@),
{
    let ghost ev = err@;
    let mut fields: Vec<(String, Json)> = Vec::new();
    fields.push(("code".to_owned(), Json::Int(err.code as i64)));
    fields.push(("message".to_owned(), Json::Str(err.message)));
    match err.data {
        Some(d) => {
            fields.push(("data".to_owned(), d));
        },
        None => {},
    }
    let j = Json::Obj(fields);
    proof {
        let fv = crate::json::views_of_fields(fields@);
        match ev.data {
            Some(d) => {
                assert(fields@.len() == 3);
                assert(fv[0] == (("code")@, JsonView::Int(ev.code)));
                assert(fv[1] == (("message")@, JsonView::Str(ev.message)));
                assert(fv[2] == (("data")@, d));
            },
            None => {
                assert(fields@.len() == 2);
                assert(fv[0] == (("code")@, JsonView::Int(ev.code)));
                assert(fv[1] == (("message")@, JsonView::Str(ev.message)));
            },
        }
        assert(fv =~= error_json(ev)->Obj_0);
        assert(j@ =~~= error_json(ev));
    }
    j
}

/// Builds the wire document of `resp`.
pub fn response_to_json(resp: JsonRpcResponse) -> (j: Json)
    ensures
        j@ == response_json(resp@),
{
    let ghost rv = resp@;
    let mut fields: Vec<(String, Json)> = Vec::new();
    fields.push(("jsonrpc".to_owned(), Json::Str(resp.jsonrpc)));
    fields.push((
        "id".to_owned(),
        match resp.id {
            Some(v) => v,
            None => Json::Null,
        },
    ));
    match resp.result {
        Some(v) => {
            fields.push(("result".to_owned(), v));
        },
        None => {},
    }
    match resp.error {
        Some(e) => {
            let ej = error_to_json(e);
            fields.push(("error".to_owned(), ej));
        },
        None => {},
    }
    let j = Json::Obj(fields);
    proof {
        let fv = crate::json::views_of_fields(fields@);
        assert(fv[0] == (("jsonrpc")@, JsonView::Str(rv.jsonrpc)));
        assert(fv[1] == (("id")@, match rv.id {
            Some(v) => v,
            None => JsonView::Null,
        }));
        match (rv.result, rv.error) {
            (Some(v), Some(e)) => {
                assert(fields@.len() == 4);
                assert(fv[2] == (("result")@, v));
                assert(fv[3] == (("error")@, error_json(e)));
            },
            (Some(v), None) => {
                assert(fields@.len() == 3);
                assert(fv[2] == (("result")@, v));
            },
            (None, Some(e)) => {
                assert(fields@.len() == 3);
                assert(fv[2] == (("error")@, error_json(e)));
            },
            (None, None) => {
                assert(fields@.len() == 2);
            },
        }
        assert(fv =~= response_json(rv)->Obj_0);
        assert(j@ =~~= response_json(rv));
    }
    j
}

/// Encodes `resp` as its one-line wire text.  The text holds no line
/// break, so writing it followed by a newline frames exactly one message.
pub fn encode_response(resp: JsonRpcResponse) -> (line: String)
    ensures
        line@ == enc_json(response_json(resp@)),
        line_safe(line@),
{
    let ghost rv = resp@;
    let j = response_to_json(resp);
    proof {
        lemma_enc_json_single_line(j@);
    }
    encode_json(&j)
}

/// Encodes `req` as its one-line wire text.
pub fn encode_request(req: JsonRpcRequest) -> (line: String)
    ensures
        line@ == enc_json(request_json(req@)),
        line_safe(line@),
{
    let ghost rv = req@;
    let j = request_to_json(req);
    proof {
        lemma_enc_json_single_line(j@);
    }
    encode_json(&j)
}

/// Which documents count as requests: an object whose `jsonrpc` and
/// `method` members are strings.  A missing or null `id` marks a request
/// without an id; missing parameters stand for the empty object.
pub open spec fn request_of_json(v: JsonView) -> Option<RequestView> {
    match v {
        JsonView::Obj(fs) => {
            match (lookup_fields(fs, ("jsonrpc")@), lookup_fields(fs, ("method")@)) {
                (Some(JsonView::Str(tag)), Some(JsonView::Str(m))) => Some(
                    RequestView {
                        jsonrpc: tag,
                        method: m,
                        id: match lookup_fields(fs, ("id")@) {
                            Some(JsonView::Null) => None,
                            Some(x) => Some(x),
                            None => None,
                        },
                        params: match lookup_fields(fs, ("params")@) {
                            Some(p) => p,
                            None => JsonView::Obj(Seq::empty()),
                        },
                    },
                ),
                _ => None,
            }
        },
        _ => None,
    }
}

/// What decoding a request line yields: the request of the document of the
/// text, if both steps go through.
pub open spec fn spec_decode_request(s: Seq<char>) -> Option<RequestView> {
    match parse_json(s) {
        Some(v) => request_of_json(v),
        None => None,
    }
}

/// Decodes one line into a request: text to document, document to record.
pub fn decode_request(line: &str) -> (r: Option<JsonRpcRequest>)
    ensures
        match r {
            Some(req) => spec_decode_request(line@) == Some(req@),
            None => spec_decode_request(line@) is None,
        },
{
    let v = match crate::decode::decode_json(line) {
        Some(v) => v,
        None => {
            return None;
        },
    };
    let tag = match v.get("jsonrpc") {
        Some(t) => match t.as_str_val() {
            Some(s) => s.clone(),
            None => {
                return None;
            },
        },
        None => {
            return None;
        },
    };
    let m = match v.get("method") {
        Some(t) => match t.as_str_val() {
            Some(s) => s.clone(),
            None => {
                return None;
            },
        },
        None => {
            return None;
        },
    };
    let id: Option<Json> = match v.get("id") {
        Some(x) => if x.is_null() {
            None
        } else {
            Some(x.duplicate())
        },
        None => None,
    };
    let params: Json = match v.get("params") {
        Some(p) => p.duplicate(),
        None => {
            let inner: Vec<(String, Json)> = Vec::new();
            proof {
                assert(crate::json::views_of_fields(inner@) =~= Seq::<(Seq<char>,
                    JsonView,
                )>::empty());
            }
            let pj = Json::Obj(inner);
            proof {
                assert(pj@ =~= JsonView::Obj(Seq::empty()));
            }
            pj
        },
    };
    let req = JsonRpcRequest { jsonrpc: tag, id, method: m, params };
    proof {
        let vv = v@;
        assert(vv is Obj);
        let fs = vv->Obj_0;
        assert(lookup_fields(fs, ("jsonrpc")@) == Some(JsonView::Str(req@.jsonrpc)));
        assert(lookup_fields(fs, ("method")@) == Some(JsonView::Str(req@.method)));
        assert(request_of_json(vv) is Some);
        assert(req@ =~~= request_of_json(vv)->Some_0);
    }
    Some(req)
}


/// The commands the runtime's debug server understands, as a typed form.
#[derive(Debug, Clone, PartialEq)]
pub enum DebugCommand {
    /// Render an accessibility snapshot of the page.
    Snapshot,
    /// Click the element a selector names.
    Click { selector: String },
    /// Fill the input a selector names.
    Fill { selector: String, value: String },
    /// Press one keyboard key.
    PressKey { key: String },
    /// Run a script in the page.
    EvaluateScript { script: String },
    /// Capture the window.
    Screenshot,
    /// Steer the page to a new address.
    Navigate { url: String },
    /// Read the captured console log.
    GetConsoleLogs,
    /// Read the captured network log.
    GetNetworkLogs,
    /// Health check.
    Ping,
}

/// The typed answers a debug command can produce.
#[derive(Debug)]
pub enum DebugResponse {
    Snapshot(SnapshotResult),
    Screenshot(ScreenshotResult),
    Logs(LogsResult),
    Script(ScriptResult),
    Success { success: bool },
    Pong { pong: bool },
}

/// A rendered page snapshot.
#[derive(Debug, Clone, PartialEq)]
pub struct SnapshotResult {
    pub html: String,
    pub url: String,
    pub title: String,
}

/// A captured image, carried as encoded text with its dimensions.
#[derive(Debug, Clone, PartialEq)]
pub struct ScreenshotResult {
    pub data: String,
    pub width: u32,
    pub height: u32,
}

/// A batch of captured log entries.
#[derive(Debug, Clone, PartialEq)]
pub struct LogsResult {
    pub logs: Vec<LogEntry>,
}

/// One captured log entry.
#[derive(Debug, Clone, PartialEq)]
pub struct LogEntry {
    pub level: String,
    pub message: String,
    pub timestamp: u64,
    pub source: Option<String>,
}

/// What a script run produced.
#[derive(Debug)]
pub struct ScriptResult {
    pub result: Json,
}

} // verus!
