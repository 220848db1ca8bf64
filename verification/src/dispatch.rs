//! The command dispatcher's decisions.
//!
//! Given a decoded request, the dispatcher either answers at once — a
//! health check, or a request it must refuse — or names the action the
//! surrounding runtime is to carry out: run a script in the page, list or
//! focus windows, capture the screen.  The decision is a pure function of
//! the request, stated by `spec_dispatch`; the runtime performs the action
//! and builds the response through the `complete_` functions, so every
//! response is produced by verified code and carries the request's own id.

use vstd::prelude::*;

use crate::commands::{
    click_js, click_js_text, click_ref_js, click_ref_js_text, fill_js, fill_js_text,
    fill_ref_js, fill_ref_js_text, get_console_logs_js, get_console_logs_js_text,
    get_frontend_logs_js, get_frontend_logs_js_text, get_hmr_updates_js,
    get_hmr_updates_js_text, get_network_logs_js, get_network_logs_js_text, navigate_js,
    navigate_js_text, press_key_js, press_key_js_text, snapshot_js, snapshot_js_text,
};
use crate::json::{obj_lookup, str_eq, Json, JsonView};
use crate::protocol::{
    error_view, opt_view, success_view, JsonRpcRequest, JsonRpcResponse, RequestView,
    ResponseView, EVAL_ERROR, METHOD_NOT_FOUND,
};

verus! {

/// What the runtime is to do for one request.
pub enum DispatchAction {
    /// Answer at once with this response.
    Respond(JsonRpcResponse),
    /// Run this script in the page of the named window, then answer
    /// through `complete_eval`.
    Eval { window: Option<String>, script: String },
    /// Enumerate the windows, then answer through `complete_list_windows`.
    ListWindows,
    /// Focus the named window, then answer through `complete_focus`.
    FocusWindow { label: String },
    /// Look up the native window id, then answer through
    /// `complete_window_id`.
    WindowId,
    /// Try a native capture of the named window; on failure fall back to
    /// running the capture script in the page.
    NativeScreenshot { window: Option<String> },
}

/// Mathematical model of a dispatch decision.
#[verifier::ext_equal]
pub enum ActionView {
    Respond(ResponseView),
    Eval { window: Option<Seq<char>>, script: Seq<char> },
    ListWindows,
    FocusWindow { label: Seq<char> },
    WindowId,
    NativeScreenshot { window: Option<Seq<char>> },
}

/// The model of an optional owned text.
pub open spec fn opt_str_view(o: Option<String>) -> Option<Seq<char>> {
    match o {
        Some(s) => Some(s@),
        None => None,
    }
}

impl View for DispatchAction {
    type V = ActionView;

    open spec fn view(&self) -> ActionView {
        match self {
            DispatchAction::Respond(r) => ActionView::Respond(r@),
            DispatchAction::Eval { window, script } => ActionView::Eval {
                window: opt_str_view(*window),
                script: script@,
            },
            DispatchAction::ListWindows => ActionView::ListWindows,
            DispatchAction::FocusWindow { label } => ActionView::FocusWindow { label: label@ },
            DispatchAction::WindowId => ActionView::WindowId,
            DispatchAction::NativeScreenshot { window } => ActionView::NativeScreenshot {
                window: opt_str_view(*window),
            },
        }
    }
}

/// The window a request names, when its `window` parameter is a string.
pub open spec fn window_of(req: RequestView) -> Option<Seq<char>> {
    match obj_lookup(req.params, ("window")@) {
        Some(JsonView::Str(s)) => Some(s),
        _ => None,
    }
}

/// The text of the parameter `key`, the empty text when it is missing or
/// not a string.
pub open spec fn str_param(req: RequestView, key: Seq<char>) -> Seq<char> {
    match obj_lookup(req.params, key) {
        Some(JsonView::Str(s)) => s,
        _ => Seq::empty(),
    }
}

/// The truth value of the parameter `key`, false when it is missing or not
/// a truth value.
pub open spec fn bool_param(req: RequestView, key: Seq<char>) -> bool {
    match obj_lookup(req.params, key) {
        Some(JsonView::Bool(b)) => b,
        _ => false,
    }
}

/// The snapshot reference a request names: its `ref` parameter, when that
/// is a number at or above zero.
pub open spec fn ref_param(req: RequestView) -> Option<int> {
    match obj_lookup(req.params, ("ref")@) {
        Some(JsonView::Int(i)) => if i >= 0 {
            Some(i)
        } else {
            None
        },
        _ => None,
    }
}

/// The model of the health-check answer.
pub open spec fn pong_result() -> JsonView {
    JsonView::Obj(seq![(("pong")@, JsonView::Bool(true))])
}

/// The decision table: what the dispatcher does for each request.
pub open spec fn spec_dispatch(req: RequestView) -> ActionView {
    let id = req.id;
    let w = window_of(req);
    if req.method == ("ping")@ {
        ActionView::Respond(success_view(id, pong_result()))
    } else if req.method == ("list_windows")@ {
        ActionView::ListWindows
    } else if req.method == ("focus_window")@ {
        match w {
            Some(l) => ActionView::FocusWindow { label: l },
            None => ActionView::Respond(
                error_view(id, EVAL_ERROR as int, ("Window label required")@),
            ),
        }
    } else if req.method == ("snapshot")@ {
        ActionView::Eval { window: w, script: snapshot_js_text() }
    } else if req.method == ("click")@ {
        ActionView::Eval {
            window: w,
            script: match ref_param(req) {
                Some(n) => click_ref_js_text((n % 0x100000000) as nat),
                None => click_js_text(str_param(req, ("selector")@)),
            },
        }
    } else if req.method == ("fill")@ {
        ActionView::Eval {
            window: w,
            script: match ref_param(req) {
                Some(n) => fill_ref_js_text(
                    (n % 0x100000000) as nat,
                    str_param(req, ("value")@),
                ),
                None => fill_js_text(
                    str_param(req, ("selector")@),
                    str_param(req, ("value")@),
                ),
            },
        }
    } else if req.method == ("press_key")@ {
        ActionView::Eval { window: w, script: press_key_js_text(str_param(req, ("key")@)) }
    } else if req.method == ("evaluate_script")@ {
        ActionView::Eval {
            window: w,
            script: ("return (")@ + str_param(req, ("script")@) + (");")@,
        }
    } else if req.method == ("navigate")@ {
        ActionView::Eval { window: w, script: navigate_js_text(str_param(req, ("url")@)) }
    } else if req.method == ("get_window_id")@ {
        ActionView::WindowId
    } else if req.method == ("screenshot")@ {
        ActionView::NativeScreenshot { window: w }
    } else if req.method == ("get_console_logs")@ {
        ActionView::Eval {
            window: w,
            script: get_console_logs_js_text(bool_param(req, ("clear")@)),
        }
    } else if req.method == ("get_network_logs")@ {
        ActionView::Eval {
            window: w,
            script: get_network_logs_js_text(bool_param(req, ("clear")@)),
        }
    } else if req.method == ("get_frontend_logs")@ {
        ActionView::Eval {
            window: w,
            script: get_frontend_logs_js_text(bool_param(req, ("clear")@)),
        }
    } else if req.method == ("get_hmr_updates")@ {
        ActionView::Eval {
            window: w,
            script: get_hmr_updates_js_text(bool_param(req, ("clear")@)),
        }
    } else {
        ActionView::Respond(
            error_view(id, METHOD_NOT_FOUND as int, ("Unknown method: ")@ + req.method),
        )
    }
}

/// The methods the dispatcher knows.
pub open spec fn is_known_method(m: Seq<char>) -> bool {
    ||| m == ("ping")@
    ||| m == ("list_windows")@
    ||| m == ("focus_window")@
    ||| m == ("snapshot")@
    ||| m == ("click")@
    ||| m == ("fill")@
    ||| m == ("press_key")@
    ||| m == ("evaluate_script")@
    ||| m == ("navigate")@
    ||| m == ("get_window_id")@
    ||| m == ("screenshot")@
    ||| m == ("get_console_logs")@
    ||| m == ("get_network_logs")@
    ||| m == ("get_frontend_logs")@
    ||| m == ("get_hmr_updates")@
}

/// A copy of the request's id, for the response that answers it.
fn dup_id(id: &Option<Json>) -> (r: Option<Json>)
    ensures
        opt_view(r) == opt_view(*id),
{
    match id {
        Some(j) => Some(j.duplicate()),
        None => None,
    }
}

/// The window parameter as an owned text, when present.
fn get_window(req: &JsonRpcRequest) -> (r: Option<String>)
    ensures
        opt_str_view(r) == window_of(req@),
{
    match req.params.get("window") {
        Some(v) => match v.as_str_val() {
            Some(s) => Some(s.clone()),
            None => None,
        },
        None => None,
    }
}

/// The string parameter `key` as an owned text, empty when missing.
pub fn get_str_param(req: &JsonRpcRequest, key: &str) -> (r: String)
    ensures
        r@ == str_param(req@, key@),
{
    match req.params.get(key) {
        Some(v) => match v.as_str_val() {
            Some(s) => s.clone(),
            None => String::new(),
        },
        None => String::new(),
    }
}

/// The truth parameter `key`, false when missing.
fn get_bool_param(req: &JsonRpcRequest, key: &str) -> (r: bool)
    ensures
        r == bool_param(req@, key@),
{
    match req.params.get(key) {
        Some(v) => match v.as_bool_val() {
            Some(b) => b,
            None => false,
        },
        None => false,
    }
}

/// The snapshot reference parameter, when present.
fn get_ref_param(req: &JsonRpcRequest) -> (r: Option<u64>)
    ensures
        match r {
            Some(n) => ref_param(req@) == Some(n as int),
            None => ref_param(req@) is None,
        },
{
    match req.params.get("ref") {
        Some(v) => v.as_u64_val(),
        None => None,
    }
}

/// Decides what to do for `req`: exactly what the decision table says.
/// An immediate answer carries the request's own id and is well formed;
/// an unknown method is answered with `METHOD_NOT_FOUND` and a message
/// naming the method.
pub fn dispatch_request(req: &JsonRpcRequest) -> (a: DispatchAction)
    ensures
        a@ == spec_dispatch(req@),
        a@ matches ActionView::Respond(r) ==> r.id == req@.id && r.well_formed(),
        !is_known_method(req@.method) ==> a@ == ActionView::Respond(
            error_view(
                req@.id,
                METHOD_NOT_FOUND as int,
                ("Unknown method: ")@ + req@.method,
            ),
        ),
{
    let m = req.method.as_str();
    if str_eq(m, "ping") {
        let mut fields: Vec<(String, Json)> = Vec::new();
        fields.push(("pong".to_owned(), Json::Bool(true)));
        let result = Json::Obj(fields);
        proof {
            let fv = crate::json::views_of_fields(fields@);
            assert(fields@.len() == 1);
            assert(fv[0] == (("pong")@, JsonView::Bool(true)));
            assert(fv =~= pong_result()->Obj_0);
            assert(result@ =~~= pong_result());
        }
        DispatchAction::Respond(JsonRpcResponse::success(dup_id(&req.id), result))
    } else if str_eq(m, "list_windows") {
        DispatchAction::ListWindows
    } else if str_eq(m, "focus_window") {
        match get_window(req) {
            Some(l) => DispatchAction::FocusWindow { label: l },
            None => DispatchAction::Respond(
                JsonRpcResponse::error(dup_id(&req.id), EVAL_ERROR, "Window label required"),
            ),
        }
    } else if str_eq(m, "snapshot") {
        DispatchAction::Eval { window: get_window(req), script: snapshot_js().to_owned() }
    } else if str_eq(m, "click") {
        let script = match get_ref_param(req) {
            Some(n) => click_ref_js((n % 0x100000000) as u32),
            None => click_js(get_str_param(req, "selector").as_str()),
        };
        DispatchAction::Eval { window: get_window(req), script }
    } else if str_eq(m, "fill") {
        let value = get_str_param(req, "value");
        let script = match get_ref_param(req) {
            Some(n) => fill_ref_js((n % 0x100000000) as u32, value.as_str()),
            None => fill_js(get_str_param(req, "selector").as_str(), value.as_str()),
        };
        DispatchAction::Eval { window: get_window(req), script }
    } else if str_eq(m, "press_key") {
        DispatchAction::Eval {
            window: get_window(req),
            script: press_key_js(get_str_param(req, "key").as_str()),
        }
    } else if str_eq(m, "evaluate_script") {
        let body = get_str_param(req, "script");
        let mut script = String::new();
        script.append("return (");
        script.append(body.as_str());
        script.append(");");
        proof {
            assert(script@ =~= ("return (")@ + str_param(req@, ("script")@) + (");")@);
        }
        DispatchAction::Eval { window: get_window(req), script }
    } else if str_eq(m, "navigate") {
        DispatchAction::Eval {
            window: get_window(req),
            script: navigate_js(get_str_param(req, "url").as_str()),
        }
    } else if str_eq(m, "get_window_id") {
        DispatchAction::WindowId
    } else if str_eq(m, "screenshot") {
        DispatchAction::NativeScreenshot { window: get_window(req) }
    } else if str_eq(m, "get_console_logs") {
        DispatchAction::Eval {
            window: get_window(req),
            script: get_console_logs_js(get_bool_param(req, "clear")),
        }
    } else if str_eq(m, "get_network_logs") {
        DispatchAction::Eval {
            window: get_window(req),
            script: get_network_logs_js(get_bool_param(req, "clear")),
        }
    } else if str_eq(m, "get_frontend_logs") {
        DispatchAction::Eval {
            window: get_window(req),
            script: get_frontend_logs_js(get_bool_param(req, "clear")),
        }
    } else if str_eq(m, "get_hmr_updates") {
        DispatchAction::Eval {
            window: get_window(req),
            script: get_hmr_updates_js(get_bool_param(req, "clear")),
        }
    } else {
        let mut msg = String::new();
        msg.append("Unknown method: ");
        msg.append(req.method.as_str());
        proof {
            assert(msg@ =~= ("Unknown method: ")@ + req@.method);
        }
        DispatchAction::Respond(
            JsonRpcResponse::error(dup_id(&req.id), METHOD_NOT_FOUND, msg.as_str()),
        )
    }
}

/// Builds the response for a finished script run: the result on success,
/// an `EVAL_ERROR` carrying the failure text otherwise.  Either way the
/// response answers `id`.
pub fn complete_eval(id: Option<Json>, outcome: Result<Json, String>) -> (r: JsonRpcResponse)
    ensures
        r@ == (match outcome {
            Ok(v) => success_view(opt_view(id), v@),
            Err(e) => error_view(opt_view(id), EVAL_ERROR as int, e@),
        }),
        r@.id == opt_view(id),
        r@.well_formed(),
{
    match outcome {
        Ok(v) => JsonRpcResponse::success(id, v),
        Err(e) => JsonRpcResponse::error(id, EVAL_ERROR, e.as_str()),
    }
}


/// One window of the running application, as plain values: what the
/// listing answer and the window-picking rule read.
pub struct WindowDesc {
    pub label: String,
    pub title: String,
    pub focused: bool,
    pub visible: bool,
    pub size: Option<(u32, u32)>,
}

/// Mathematical model of a window description.
#[verifier::ext_equal]
pub struct WindowDescView {
    pub label: Seq<char>,
    pub title: Seq<char>,
    pub focused: bool,
    pub visible: bool,
    pub size: Option<(u32, u32)>,
}

impl View for WindowDesc {
    type V = WindowDescView;

    open spec fn view(&self) -> WindowDescView {
        WindowDescView {
            label: self.label@,
            title: self.title@,
            focused: self.focused,
            visible: self.visible,
            size: self.size,
        }
    }
}

/// The document that describes one window, members in name order.
pub open spec fn window_json(w: WindowDescView) -> JsonView {
    JsonView::Obj(
        seq![
            (("focused")@, JsonView::Bool(w.focused)),
            (("label")@, JsonView::Str(w.label)),
            (("size")@, match w.size {
                Some((wd, ht)) => JsonView::Obj(
                    seq![
                        (("height")@, JsonView::Int(ht as int)),
                        (("width")@, JsonView::Int(wd as int)),
                    ],
                ),
                None => JsonView::Null,
            }),
            (("title")@, JsonView::Str(w.title)),
            (("visible")@, JsonView::Bool(w.visible)),
        ],
    )
}

/// The documents of the windows in `ws`, in order.
pub open spec fn windows_json(ws: Seq<WindowDescView>) -> Seq<JsonView> {
    Seq::new(ws.len(), |i: int| if 0 <= i < ws.len() { window_json(ws[i]) } else { JsonView::Null })
}

/// The views of the windows in `ws`.
pub open spec fn window_views(ws: Seq<WindowDesc>) -> Seq<WindowDescView> {
    Seq::new(
        ws.len(),
        |i: int| if 0 <= i < ws.len() {
            ws[i]@
        } else {
            WindowDescView {
                label: Seq::empty(),
                title: Seq::empty(),
                focused: false,
                visible: false,
                size: None,
            }
        },
    )
}

/// Builds the document that describes one window.
fn window_to_json(w: WindowDesc) -> (j: Json)
    ensures
        j@ == window_json(w@),
{
    let ghost wv = w@;
    let size_json: Json = match w.size {
        Some((wd, ht)) => {
            let mut sf: Vec<(String, Json)> = Vec::new();
            sf.push(("height".to_owned(), Json::Int(ht as i64)));
            sf.push(("width".to_owned(), Json::Int(wd as i64)));
            let sj = Json::Obj(sf);
            proof {
                let sv = crate::json::views_of_fields(sf@);
                assert(sf@.len() == 2);
                assert(sv[0] == (("height")@, JsonView::Int(ht as int)));
                assert(sv[1] == (("width")@, JsonView::Int(wd as int)));
                assert(sv =~= (match wv.size {
                    Some((wd2, ht2)) => JsonView::Obj(
                        seq![
                            (("height")@, JsonView::Int(ht2 as int)),
                            (("width")@, JsonView::Int(wd2 as int)),
                        ],
                    ),
                    None => JsonView::Null,
                })->Obj_0);
            }
            sj
        },
        None => Json::Null,
    };
    let mut fields: Vec<(String, Json)> = Vec::new();
    fields.push(("focused".to_owned(), Json::Bool(w.focused)));
    fields.push(("label".to_owned(), Json::Str(w.label)));
    fields.push(("size".to_owned(), size_json));
    fields.push(("title".to_owned(), Json::Str(w.title)));
    fields.push(("visible".to_owned(), Json::Bool(w.visible)));
    let j = Json::Obj(fields);
    proof {
        let fv = crate::json::views_of_fields(fields@);
        assert(fields@.len() == 5);
        assert(fv[0] == (("focused")@, JsonView::Bool(wv.focused)));
        assert(fv[1] == (("label")@, JsonView::Str(wv.label)));
        assert(fv[2] == window_json(wv)->Obj_0[2]);
        assert(fv[3] == (("title")@, JsonView::Str(wv.title)));
        assert(fv[4] == (("visible")@, JsonView::Bool(wv.visible)));
        assert(fv =~= window_json(wv)->Obj_0);
        assert(j@ =~~= window_json(wv));
    }
    j
}

/// Builds the answer to a window listing: the request's id with the
/// documents of all the windows, in the order given.
#[verifier::loop_isolation(false)]
pub fn complete_list_windows(id: Option<Json>, windows: Vec<WindowDesc>) -> (r: JsonRpcResponse)
    ensures
        r@ == success_view(
            opt_view(id),
            JsonView::Obj(
                seq![
                    (("windows")@, JsonView::Arr(windows_json(window_views(windows@)))),
                ],
            ),
        ),
        r@.id == opt_view(id),
        r@.well_formed(),
{
    let ghost wsv = window_views(windows@);
    let mut items: Vec<Json> = Vec::new();
    let mut k: usize = 0;
    let mut rest = windows;
    proof {
        assert(crate::json::views_of(items@) =~= windows_json(wsv).take(0));
    }
    let n = rest.len();
    while k < n
        invariant
            k <= n,
            n == rest@.len(),
            wsv == window_views(rest@),
            wsv.len() == n,
            crate::json::views_of(items@) =~= windows_json(wsv).take(k as int),
        decreases n - k,
    {
        let ghost before = items@;
        let wj = window_to_json(rest[k].duplicate_desc());
        items.push(wj);
        proof {
            assert(wsv[k as int] == rest@[k as int]@);
            assert(crate::json::views_of(items@)[k as int] == wj@);
            assert(windows_json(wsv)[k as int] == window_json(wsv[k as int]));
            assert(crate::json::views_of(items@) =~= windows_json(wsv).take(k as int + 1));
        }
        k = k + 1;
    }
    proof {
        assert(windows_json(wsv).take(wsv.len() as int) =~= windows_json(wsv));
    }
    let arr = Json::Arr(items);
    let mut fields: Vec<(String, Json)> = Vec::new();
    fields.push(("windows".to_owned(), arr));
    let result = Json::Obj(fields);
    proof {
        let fv = crate::json::views_of_fields(fields@);
        assert(fields@.len() == 1);
        assert(fv[0] == (("windows")@, JsonView::Arr(windows_json(wsv))));
        assert(fv =~= seq![(("windows")@, JsonView::Arr(windows_json(wsv)))]);
        assert(result@ =~~= JsonView::Obj(
            seq![(("windows")@, JsonView::Arr(windows_json(wsv)))],
        ));
    }
    JsonRpcResponse::success(id, result)
}

impl WindowDesc {
    /// A copy whose model provably equals this one's.
    pub fn duplicate_desc(&self) -> (r: WindowDesc)
        ensures
            r@ == self@,
    {
        WindowDesc {
            label: self.label.clone(),
            title: self.title.clone(),
            focused: self.focused,
            visible: self.visible,
            size: self.size,
        }
    }
}

/// How an attempt to focus a window ended.
pub enum FocusOutcome {
    /// The window took focus.
    Focused,
    /// No window carries the requested label.
    NotFound,
    /// The runtime refused, with its own words.
    Failed(String),
}

/// Builds the answer to a focus request on the window labelled `label`:
/// the label on success, `EVAL_ERROR` naming the label when no window
/// carries it, and `EVAL_ERROR` with the runtime's words otherwise.
pub fn complete_focus(id: Option<Json>, label: &str, outcome: FocusOutcome) -> (r:
    JsonRpcResponse)
    ensures
        r@ == (match outcome {
            FocusOutcome::Focused => success_view(
                opt_view(id),
                JsonView::Obj(seq![(("focused")@, JsonView::Str(label@))]),
            ),
            FocusOutcome::NotFound => error_view(
                opt_view(id),
                EVAL_ERROR as int,
                ("Window '")@ + label@ + ("' not found")@,
            ),
            FocusOutcome::Failed(e) => error_view(opt_view(id), EVAL_ERROR as int, e@),
        }),
        r@.id == opt_view(id),
        r@.well_formed(),
{
    match outcome {
        FocusOutcome::Focused => {
            let mut fields: Vec<(String, Json)> = Vec::new();
            fields.push(("focused".to_owned(), Json::Str(label.to_owned())));
            let result = Json::Obj(fields);
            proof {
                let fv = crate::json::views_of_fields(fields@);
                assert(fields@.len() == 1);
                assert(fv[0] == (("focused")@, JsonView::Str(label@)));
                assert(fv =~= seq![(("focused")@, JsonView::Str(label@))]);
                assert(result@ =~~= JsonView::Obj(seq![(("focused")@, JsonView::Str(label@))]));
            }
            JsonRpcResponse::success(id, result)
        },
        FocusOutcome::NotFound => {
            let mut msg = String::new();
            msg.append("Window '");
            msg.append(label);
            msg.append("' not found");
            proof {
                assert(msg@ =~= ("Window '")@ + label@ + ("' not found")@);
            }
            JsonRpcResponse::error(id, EVAL_ERROR, msg.as_str())
        },
        FocusOutcome::Failed(e) => JsonRpcResponse::error(id, EVAL_ERROR, e.as_str()),
    }
}

/// Builds the answer to a native window-id request for the process `pid`:
/// the id and the pid on success, `EVAL_ERROR` with the failure's words
/// otherwise.
pub fn complete_window_id(id: Option<Json>, pid: u32, outcome: Result<u32, String>) -> (r:
    JsonRpcResponse)
    ensures
        r@ == (match outcome {
            Ok(wid) => success_view(
                opt_view(id),
                JsonView::Obj(
                    seq![
                        (("pid")@, JsonView::Int(pid as int)),
                        (("window_id")@, JsonView::Int(wid as int)),
                    ],
                ),
            ),
            Err(e) => error_view(opt_view(id), EVAL_ERROR as int, e@),
        }),
        r@.id == opt_view(id),
        r@.well_formed(),
{
    match outcome {
        Ok(wid) => {
            let mut fields: Vec<(String, Json)> = Vec::new();
            fields.push(("pid".to_owned(), Json::Int(pid as i64)));
            fields.push(("window_id".to_owned(), Json::Int(wid as i64)));
            let result = Json::Obj(fields);
            proof {
                let fv = crate::json::views_of_fields(fields@);
                assert(fields@.len() == 2);
                assert(fv[0] == (("pid")@, JsonView::Int(pid as int)));
                assert(fv[1] == (("window_id")@, JsonView::Int(wid as int)));
                assert(fv =~= seq![
                    (("pid")@, JsonView::Int(pid as int)),
                    (("window_id")@, JsonView::Int(wid as int)),
                ]);
                assert(result@ =~~= JsonView::Obj(
                    seq![
                        (("pid")@, JsonView::Int(pid as int)),
                        (("window_id")@, JsonView::Int(wid as int)),
                    ],
                ));
            }
            JsonRpcResponse::success(id, result)
        },
        Err(e) => JsonRpcResponse::error(id, EVAL_ERROR, e.as_str()),
    }
}

/// Picks the window a script runs in: the named window when a label is
/// given, else the first focused window, else the first window at all.
/// The errors carry the texts the caller surfaces.
#[verifier::loop_isolation(false)]
pub fn pick_webview(windows: &Vec<WindowDesc>, label: Option<&str>) -> (r: Result<
    usize,
    String,
>)
    ensures
        match (r, label) {
            (Ok(i), Some(l)) => i < windows@.len() && windows@[i as int]@.label == l@ && (
            forall|j: int| 0 <= j < i ==> windows@[j]@.label != l@),
            (Err(e), Some(l)) => (forall|j: int|
                0 <= j < windows@.len() ==> windows@[j]@.label != l@) && e@ == ("Window '")@
                + l@ + ("' not found")@,
            (Ok(i), None) => i < windows@.len() && ((windows@[i as int]@.focused && forall|
                j: int,
            | 0 <= j < i ==> !windows@[j]@.focused) || (i == 0 && windows@.len() > 0 && forall|
                j: int,
            | 0 <= j < windows@.len() ==> !windows@[j]@.focused)),
            (Err(e), None) => windows@.len() == 0 && e@ == ("No webview available")@,
        },
{
    match label {
        Some(l) => {
            let mut k: usize = 0;
            while k < windows.len()
                invariant
                    k <= windows@.len(),
                    forall|j: int| 0 <= j < k ==> windows@[j]@.label != l@,
                decreases windows@.len() - k,
            {
                if str_eq(windows[k].label.as_str(), l) {
                    return Ok(k);
                }
                k = k + 1;
            }
            let mut msg = String::new();
            msg.append("Window '");
            msg.append(l);
            msg.append("' not found");
            proof {
                assert(msg@ =~= ("Window '")@ + l@ + ("' not found")@);
            }
            Err(msg)
        },
        None => {
            let mut k: usize = 0;
            while k < windows.len()
                invariant
                    k <= windows@.len(),
                    forall|j: int| 0 <= j < k ==> !windows@[j]@.focused,
                decreases windows@.len() - k,
            {
                if windows[k].focused {
                    return Ok(k);
                }
                k = k + 1;
            }
            if windows.len() > 0 {
                Ok(0)
            } else {
                Err("No webview available".to_owned())
            }
        },
    }
}


/// The id law: every immediate answer of the dispatcher is well formed
/// and carries the id of the request it answers, whatever the request.
pub proof fn lemma_dispatch_preserves_id(req: RequestView)
    ensures
        spec_dispatch(req) matches ActionView::Respond(r) ==> r.id == req.id
            && r.well_formed(),
{
}

/// The refusal law: a method the dispatcher does not know is answered
/// with `METHOD_NOT_FOUND`, a message naming that method, and the
/// request's own id.
pub proof fn lemma_unknown_method_refused(req: RequestView)
    requires
        !is_known_method(req.method),
    ensures
        spec_dispatch(req) == ActionView::Respond(
            error_view(
                req.id,
                METHOD_NOT_FOUND as int,
                ("Unknown method: ")@ + req.method,
            ),
        ),
{
}

} // verus!
