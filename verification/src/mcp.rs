//! The controller's protocol layer.
//!
//! The controller reads requests on its own channel, serves the protocol
//! handshake and the tool catalogue itself, performs the application
//! lifecycle tools locally, and forwards every other tool call over the
//! bridge to the embedded runtime.  The routing is a pure function of the
//! request; the surrounding process performs the named action and builds
//! the answer through the `complete_` functions, each of which wraps its
//! text in the tool-answer shape and keeps the request's id.

use vstd::prelude::*;

use crate::json::{enc_json, encode_json, obj_lookup, str_eq, views_of, views_of_fields, Json,
    JsonView};
use crate::protocol::{
    error_view, opt_view, success_view, JsonRpcRequest, JsonRpcResponse, RequestView,
    ResponseView, METHOD_NOT_FOUND,
};
use crate::dispatch::str_param;

verus! {

/// Whether the managed application is off, starting, or serving.
#[derive(Clone, Copy, PartialEq, Eq, Structural, Debug)]
pub enum AppStatus {
    NotRunning,
    Starting,
    Running,
}

/// The status's name on the wire.
pub fn status_text(s: AppStatus) -> (r: &'static str)
    ensures
        s == AppStatus::NotRunning ==> r@ == ("not_running")@,
        s == AppStatus::Starting ==> r@ == ("starting")@,
        s == AppStatus::Running ==> r@ == ("running")@,
{
    match s {
        AppStatus::NotRunning => "not_running",
        AppStatus::Starting => "starting",
        AppStatus::Running => "running",
    }
}

/// One tool of the catalogue.
#[derive(Debug)]
pub struct McpTool {
    pub name: String,
    pub description: String,
    pub input_schema: Json,
}

/// What the controller is to do for one request.
pub enum McpAction {
    /// Answer at once with this response.
    Respond(JsonRpcResponse),
    /// Answer with the tool catalogue, through `complete_tools_list`.
    ToolsList { id: Option<Json> },
    /// Report the application's status, through `complete_app_status`.
    AppStatus { id: Option<Json> },
    /// Launch the application, then answer through
    /// `complete_tool_outcome`.
    LaunchApp { id: Option<Json>, wait_for_ready: bool, timeout_secs: u64 },
    /// Stop the application, then answer through `complete_tool_outcome`.
    StopApp { id: Option<Json> },
    /// Send the tool call over the bridge, then answer through
    /// `complete_forward`.
    Forward { id: Option<Json>, method: String, params: Json },
}

/// Mathematical model of a controller decision.
#[verifier::ext_equal]
pub enum McpActionView {
    Respond(ResponseView),
    ToolsList { id: Option<JsonView> },
    AppStatus { id: Option<JsonView> },
    LaunchApp { id: Option<JsonView>, wait_for_ready: bool, timeout_secs: u64 },
    StopApp { id: Option<JsonView> },
    Forward { id: Option<JsonView>, method: Seq<char>, params: JsonView },
}

impl View for McpAction {
    type V = McpActionView;

    open spec fn view(&self) -> McpActionView {
        match self {
            McpAction::Respond(r) => McpActionView::Respond(r@),
            McpAction::ToolsList { id } => McpActionView::ToolsList { id: opt_view(*id) },
            McpAction::AppStatus { id } => McpActionView::AppStatus { id: opt_view(*id) },
            McpAction::LaunchApp { id, wait_for_ready, timeout_secs } => {
                McpActionView::LaunchApp {
                    id: opt_view(*id),
                    wait_for_ready: *wait_for_ready,
                    timeout_secs: *timeout_secs,
                }
            },
            McpAction::StopApp { id } => McpActionView::StopApp { id: opt_view(*id) },
            McpAction::Forward { id, method, params } => McpActionView::Forward {
                id: opt_view(*id),
                method: method@,
                params: params@,
            },
        }
    }
}

/// The handshake answer: protocol version and the server's own name,
/// members in name order.
pub open spec fn initialize_result_json() -> JsonView {
    JsonView::Obj(
        seq![
            (("capabilities")@, JsonView::Obj(
                seq![(("tools")@, JsonView::Obj(Seq::empty()))],
            )),
            (("protocolVersion")@, JsonView::Str(("2024-11-05")@)),
            (("serverInfo")@, JsonView::Obj(
                seq![
                    (("name")@, JsonView::Str(("tauri-mcp")@)),
                    (("version")@, JsonView::Str(("0.1.0")@)),
                ],
            )),
        ],
    )
}

/// Builds the handshake answer.
fn initialize_result() -> (j: Json)
    ensures
        j@ == initialize_result_json(),
{
    let tools_inner: Vec<(String, Json)> = Vec::new();
    proof {
        assert(views_of_fields(tools_inner@) =~= Seq::<(Seq<char>, JsonView)>::empty());
    }
    let tools_obj = Json::Obj(tools_inner);
    proof {
        assert(tools_obj@ =~= JsonView::Obj(Seq::empty()));
    }
    let mut caps: Vec<(String, Json)> = Vec::new();
    caps.push(("tools".to_owned(), tools_obj));
    let mut info: Vec<(String, Json)> = Vec::new();
    info.push(("name".to_owned(), Json::Str("tauri-mcp".to_owned())));
    info.push(("version".to_owned(), Json::Str("0.1.0".to_owned())));
    let mut fields: Vec<(String, Json)> = Vec::new();
    fields.push(("capabilities".to_owned(), Json::Obj(caps)));
    fields.push(("protocolVersion".to_owned(), Json::Str("2024-11-05".to_owned())));
    fields.push(("serverInfo".to_owned(), Json::Obj(info)));
    let j = Json::Obj(fields);
    proof {
        let fv = views_of_fields(fields@);
        assert(fields@.len() == 3);
        assert(fv[0] == initialize_result_json()->Obj_0[0]) by {
            assert(views_of_fields(caps@) =~= seq![(("tools")@, JsonView::Obj(
                Seq::<(Seq<char>, JsonView)>::empty(),
            ))]);
            assert(fields@[0].1@ =~~= JsonView::Obj(
                seq![(("tools")@, JsonView::Obj(Seq::empty()))],
            ));
        }
        assert(fv[1] == initialize_result_json()->Obj_0[1]);
        assert(fv[2] == initialize_result_json()->Obj_0[2]) by {
            assert(views_of_fields(info@) =~= seq![
                (("name")@, JsonView::Str(("tauri-mcp")@)),
                (("version")@, JsonView::Str(("0.1.0")@)),
            ]);
            assert(fields@[2].1@ =~~= JsonView::Obj(
                seq![
                    (("name")@, JsonView::Str(("tauri-mcp")@)),
                    (("version")@, JsonView::Str(("0.1.0")@)),
                ],
            ));
        }
        assert(fv =~= initialize_result_json()->Obj_0);
        assert(j@ =~~= initialize_result_json());
    }
    j
}

/// The wire value a tool call's arguments stand for: the `arguments`
/// member, the empty object when it is missing.
pub open spec fn arguments_of(req: RequestView) -> JsonView {
    match obj_lookup(req.params, ("arguments")@) {
        Some(a) => a,
        None => JsonView::Obj(Seq::empty()),
    }
}

/// Whether the launch is to wait for readiness: its `wait_for_ready`
/// argument, true when missing.
pub open spec fn wait_for_ready_of(args: JsonView) -> bool {
    match obj_lookup(args, ("wait_for_ready")@) {
        Some(JsonView::Bool(b)) => b,
        _ => true,
    }
}

/// How long the launch may wait: its `timeout_secs` argument, sixty
/// seconds when missing.
pub open spec fn timeout_secs_of(args: JsonView) -> int {
    match obj_lookup(args, ("timeout_secs")@) {
        Some(JsonView::Int(i)) => if i >= 0 {
            i
        } else {
            60
        },
        _ => 60,
    }
}

/// The controller's decision table.
pub open spec fn spec_mcp_route(req: RequestView) -> McpActionView {
    let id = req.id;
    if req.method == ("initialize")@ {
        McpActionView::Respond(success_view(id, initialize_result_json()))
    } else if req.method == ("notifications/initialized")@ {
        McpActionView::Respond(success_view(id, JsonView::Obj(Seq::empty())))
    } else if req.method == ("tools/list")@ {
        McpActionView::ToolsList { id }
    } else if req.method == ("tools/call")@ {
        let name = str_param(req, ("name")@);
        let args = arguments_of(req);
        if name == ("app_status")@ {
            McpActionView::AppStatus { id }
        } else if name == ("launch_app")@ {
            McpActionView::LaunchApp {
                id,
                wait_for_ready: wait_for_ready_of(args),
                timeout_secs: timeout_secs_of(args) as u64,
            }
        } else if name == ("stop_app")@ {
            McpActionView::StopApp { id }
        } else {
            McpActionView::Forward { id, method: name, params: args }
        }
    } else {
        McpActionView::Respond(
            error_view(id, METHOD_NOT_FOUND as int, ("Unknown method: ")@ + req.method),
        )
    }
}

/// Decides what the controller does for `req`: exactly what the decision
/// table says, and an immediate answer keeps the request's id.
pub fn mcp_route(req: &JsonRpcRequest) -> (a: McpAction)
    ensures
        a@ == spec_mcp_route(req@),
        a@ matches McpActionView::Respond(r) ==> r.id == req@.id && r.well_formed(),
{
    let m = req.method.as_str();
    let id = dup_opt(&req.id);
    if str_eq(m, "initialize") {
        McpAction::Respond(JsonRpcResponse::success(id, initialize_result()))
    } else if str_eq(m, "notifications/initialized") {
        let inner: Vec<(String, Json)> = Vec::new();
        proof {
            assert(views_of_fields(inner@) =~= Seq::<(Seq<char>, JsonView)>::empty());
        }
        let empty = Json::Obj(inner);
        proof {
            assert(empty@ =~= JsonView::Obj(Seq::empty()));
        }
        McpAction::Respond(JsonRpcResponse::success(id, empty))
    } else if str_eq(m, "tools/list") {
        McpAction::ToolsList { id }
    } else if str_eq(m, "tools/call") {
        let name = crate::dispatch::get_str_param(req, "name");
        let args: Json = match req.params.get("arguments") {
            Some(a) => a.duplicate(),
            None => {
                let inner: Vec<(String, Json)> = Vec::new();
                proof {
                    assert(views_of_fields(inner@) =~= Seq::<(Seq<char>, JsonView)>::empty());
                }
                let e = Json::Obj(inner);
                proof {
                    assert(e@ =~= JsonView::Obj(Seq::empty()));
                }
                e
            },
        };
        if str_eq(name.as_str(), "app_status") {
            McpAction::AppStatus { id }
        } else if str_eq(name.as_str(), "launch_app") {
            let wait_for_ready: bool = match args.get("wait_for_ready") {
                Some(v) => match v.as_bool_val() {
                    Some(b) => b,
                    None => true,
                },
                None => true,
            };
            let timeout_secs: u64 = match args.get("timeout_secs") {
                Some(v) => match v.as_u64_val() {
                    Some(n) => n,
                    None => 60,
                },
                None => 60,
            };
            McpAction::LaunchApp { id, wait_for_ready, timeout_secs }
        } else if str_eq(name.as_str(), "stop_app") {
            McpAction::StopApp { id }
        } else {
            McpAction::Forward { id, method: name, params: args }
        }
    } else {
        let mut msg = String::new();
        msg.append("Unknown method: ");
        msg.append(req.method.as_str());
        proof {
            assert(msg@ =~= ("Unknown method: ")@ + req@.method);
        }
        McpAction::Respond(JsonRpcResponse::error(id, METHOD_NOT_FOUND, msg.as_str()))
    }
}

/// A copy of an optional id.
fn dup_opt(id: &Option<Json>) -> (r: Option<Json>)
    ensures
        opt_view(r) == opt_view(*id),
{
    match id {
        Some(j) => Some(j.duplicate()),
        None => None,
    }
}

/// The shape of a tool answer carrying `text`.
pub open spec fn tool_text_json(text: Seq<char>) -> JsonView {
    JsonView::Obj(
        seq![
            (("content")@, JsonView::Arr(
                seq![
                    JsonView::Obj(
                        seq![
                            (("text")@, JsonView::Str(text)),
                            (("type")@, JsonView::Str(("text")@)),
                        ],
                    ),
                ],
            )),
        ],
    )
}

/// The shape of a failed tool answer carrying `text`: still a successful
/// response on the wire, marked as an error inside the answer.
pub open spec fn tool_error_json(text: Seq<char>) -> JsonView {
    JsonView::Obj(
        seq![
            (("content")@, JsonView::Arr(
                seq![
                    JsonView::Obj(
                        seq![
                            (("text")@, JsonView::Str(text)),
                            (("type")@, JsonView::Str(("text")@)),
                        ],
                    ),
                ],
            )),
            (("isError")@, JsonView::Bool(true)),
        ],
    )
}

/// Builds the document of one text entry.
fn text_entry(text: &str) -> (j: Json)
    ensures
        j@ == JsonView::Obj(
            seq![(("text")@, JsonView::Str(text@)), (("type")@, JsonView::Str(("text")@))],
        ),
{
    let mut fields: Vec<(String, Json)> = Vec::new();
    fields.push(("text".to_owned(), Json::Str(text.to_owned())));
    fields.push(("type".to_owned(), Json::Str("text".to_owned())));
    let j = Json::Obj(fields);
    proof {
        let fv = views_of_fields(fields@);
        assert(fields@.len() == 2);
        assert(fv[0] == (("text")@, JsonView::Str(text@)));
        assert(fv[1] == (("type")@, JsonView::Str(("text")@)));
        assert(fv =~= seq![
            (("text")@, JsonView::Str(text@)),
            (("type")@, JsonView::Str(("text")@)),
        ]);
        assert(j@ =~~= JsonView::Obj(
            seq![(("text")@, JsonView::Str(text@)), (("type")@, JsonView::Str(("text")@))],
        ));
    }
    j
}

/// Builds the tool answer that carries `text`, answering `id`.
pub fn complete_tool_text(id: Option<Json>, text: &str) -> (r: JsonRpcResponse)
    ensures
        r@ == success_view(opt_view(id), tool_text_json(text@)),
        r@.id == opt_view(id),
        r@.well_formed(),
{
    let entry = text_entry(text);
    let mut items: Vec<Json> = Vec::new();
    items.push(entry);
    let arr = Json::Arr(items);
    let mut fields: Vec<(String, Json)> = Vec::new();
    fields.push(("content".to_owned(), arr));
    let result = Json::Obj(fields);
    proof {
        assert(views_of(items@) =~= seq![tool_text_json(text@)->Obj_0[0].1->Arr_0[0]]);
        let fv = views_of_fields(fields@);
        assert(fields@.len() == 1);
        assert(fv =~= tool_text_json(text@)->Obj_0);
        assert(result@ =~~= tool_text_json(text@));
    }
    JsonRpcResponse::success(id, result)
}

/// Builds the tool answer that reports a failure with `text`, answering
/// `id`.
pub fn complete_tool_error(id: Option<Json>, text: &str) -> (r: JsonRpcResponse)
    ensures
        r@ == success_view(opt_view(id), tool_error_json(text@)),
        r@.id == opt_view(id),
        r@.well_formed(),
{
    let entry = text_entry(text);
    let mut items: Vec<Json> = Vec::new();
    items.push(entry);
    let arr = Json::Arr(items);
    let mut fields: Vec<(String, Json)> = Vec::new();
    fields.push(("content".to_owned(), arr));
    fields.push(("isError".to_owned(), Json::Bool(true)));
    let result = Json::Obj(fields);
    proof {
        assert(views_of(items@) =~= seq![tool_error_json(text@)->Obj_0[0].1->Arr_0[0]]);
        let fv = views_of_fields(fields@);
        assert(fields@.len() == 2);
        assert(fv =~= tool_error_json(text@)->Obj_0);
        assert(result@ =~~= tool_error_json(text@));
    }
    JsonRpcResponse::success(id, result)
}

/// Builds the answer to a lifecycle tool: the reported text on success,
/// the failure's words prefixed with `Error: ` otherwise.
pub fn complete_tool_outcome(id: Option<Json>, outcome: Result<String, String>) -> (r:
    JsonRpcResponse)
    ensures
        r@ == (match outcome {
            Ok(msg) => success_view(opt_view(id), tool_text_json(msg@)),
            Err(e) => success_view(opt_view(id), tool_error_json(("Error: ")@ + e@)),
        }),
        r@.id == opt_view(id),
        r@.well_formed(),
{
    match outcome {
        Ok(msg) => complete_tool_text(id, msg.as_str()),
        Err(e) => {
            let mut text = String::new();
            text.append("Error: ");
            text.append(e.as_str());
            proof {
                assert(text@ =~= ("Error: ")@ + e@);
            }
            complete_tool_error(id, text.as_str())
        },
    }
}

/// Builds the answer to a forwarded tool call: the result's one-line text
/// on success, the failure's words prefixed with `Error: ` otherwise.
pub fn complete_forward(id: Option<Json>, outcome: Result<Json, String>) -> (r: JsonRpcResponse)
    ensures
        r@ == (match outcome {
            Ok(v) => success_view(opt_view(id), tool_text_json(enc_json(v@))),
            Err(e) => success_view(opt_view(id), tool_error_json(("Error: ")@ + e@)),
        }),
        r@.id == opt_view(id),
        r@.well_formed(),
{
    match outcome {
        Ok(v) => {
            let text = encode_json(&v);
            complete_tool_text(id, text.as_str())
        },
        Err(e) => {
            let mut text = String::new();
            text.append("Error: ");
            text.append(e.as_str());
            proof {
                assert(text@ =~= ("Error: ")@ + e@);
            }
            complete_tool_error(id, text.as_str())
        },
    }
}

/// Builds the answer to a status inquiry: the status's name and the
/// endpoint's path, encoded as one line of text.
pub fn complete_app_status(id: Option<Json>, status: AppStatus, socket_path: &str) -> (r:
    JsonRpcResponse)
    ensures
        r@ == success_view(
            opt_view(id),
            tool_text_json(
                enc_json(
                    JsonView::Obj(
                        seq![
                            (("socket_path")@, JsonView::Str(socket_path@)),
                            (("status")@, JsonView::Str(
                                (if status == AppStatus::NotRunning {
                                    ("not_running")@
                                } else if status == AppStatus::Starting {
                                    ("starting")@
                                } else {
                                    ("running")@
                                }),
                            )),
                        ],
                    ),
                ),
            ),
        ),
        r@.id == opt_view(id),
        r@.well_formed(),
{
    let mut fields: Vec<(String, Json)> = Vec::new();
    fields.push(("socket_path".to_owned(), Json::Str(socket_path.to_owned())));
    fields.push(("status".to_owned(), Json::Str(status_text(status).to_owned())));
    let j = Json::Obj(fields);
    proof {
        let fv = views_of_fields(fields@);
        assert(fields@.len() == 2);
        assert(fv[0] == (("socket_path")@, JsonView::Str(socket_path@)));
        assert(fv[1] == (("status")@, JsonView::Str(
            (if status == AppStatus::NotRunning {
                ("not_running")@
            } else if status == AppStatus::Starting {
                ("starting")@
            } else {
                ("running")@
            }),
        )));
        assert(fv =~= seq![
            (("socket_path")@, JsonView::Str(socket_path@)),
            (("status")@, JsonView::Str(
                (if status == AppStatus::NotRunning {
                    ("not_running")@
                } else if status == AppStatus::Starting {
                    ("starting")@
                } else {
                    ("running")@
                }),
            )),
        ]);
        assert(j@ =~~= JsonView::Obj(
            seq![
                (("socket_path")@, JsonView::Str(socket_path@)),
                (("status")@, JsonView::Str(
                    (if status == AppStatus::NotRunning {
                        ("not_running")@
                    } else if status == AppStatus::Starting {
                        ("starting")@
                    } else {
                        ("running")@
                    }),
                )),
            ],
        ));
    }
    let text = encode_json(&j);
    complete_tool_text(id, text.as_str())
}


/// The documents of string items, element by element.
pub open spec fn str_items(ss: Seq<Seq<char>>) -> Seq<JsonView> {
    Seq::new(ss.len(), |i: int| if 0 <= i < ss.len() { JsonView::Str(ss[i]) } else { JsonView::Null })
}

/// The views of owned texts, element by element.
pub open spec fn str_views(ss: Seq<String>) -> Seq<Seq<char>> {
    Seq::new(ss.len(), |i: int| if 0 <= i < ss.len() { ss[i]@ } else { Seq::empty() })
}

/// Builds one property of a tool schema: its type and description,
/// members in name order.
fn make_prop(desc: &str, ty: &str) -> (j: Json)
    ensures
        j@ == JsonView::Obj(
            seq![
                (("description")@, JsonView::Str(desc@)),
                (("type")@, JsonView::Str(ty@)),
            ],
        ),
{
    let mut fields: Vec<(String, Json)> = Vec::new();
    fields.push(("description".to_owned(), Json::Str(desc.to_owned())));
    fields.push(("type".to_owned(), Json::Str(ty.to_owned())));
    let j = Json::Obj(fields);
    proof {
        let fv = views_of_fields(fields@);
        assert(fields@.len() == 2);
        assert(fv[0] == (("description")@, JsonView::Str(desc@)));
        assert(fv[1] == (("type")@, JsonView::Str(ty@)));
        assert(fv =~= seq![
            (("description")@, JsonView::Str(desc@)),
            (("type")@, JsonView::Str(ty@)),
        ]);
        assert(j@ =~~= JsonView::Obj(
            seq![
                (("description")@, JsonView::Str(desc@)),
                (("type")@, JsonView::Str(ty@)),
            ],
        ));
    }
    j
}

/// Builds a tool's input schema: an object with the given properties and
/// required names, members in name order.
#[verifier::loop_isolation(false)]
fn make_schema(props: Vec<(String, Json)>, required: Vec<String>) -> (j: Json)
    ensures
        j@ == JsonView::Obj(
            seq![
                (("properties")@, JsonView::Obj(views_of_fields(props@))),
                (("required")@, JsonView::Arr(str_items(str_views(required@)))),
                (("type")@, JsonView::Str(("object")@)),
            ],
        ),
{
    let ghost rv = str_items(str_views(required@));
    let mut items: Vec<Json> = Vec::new();
    let mut k: usize = 0;
    proof {
        assert(views_of(items@) =~= rv.take(0));
    }
    while k < required.len()
        invariant
            k <= required@.len(),
            rv == str_items(str_views(required@)),
            rv.len() == required@.len(),
            views_of(items@) =~= rv.take(k as int),
        decreases required@.len() - k,
    {
        items.push(Json::Str(required[k].clone()));
        proof {
            assert(views_of(items@) =~= rv.take(k as int + 1));
        }
        k = k + 1;
    }
    proof {
        assert(rv.take(required@.len() as int) =~= rv);
    }
    let props_obj = Json::Obj(props);
    let req_arr = Json::Arr(items);
    let mut fields: Vec<(String, Json)> = Vec::new();
    fields.push(("properties".to_owned(), props_obj));
    fields.push(("required".to_owned(), req_arr));
    fields.push(("type".to_owned(), Json::Str("object".to_owned())));
    let j = Json::Obj(fields);
    proof {
        let fv = views_of_fields(fields@);
        assert(fields@.len() == 3);
        assert(fv =~= seq![
            (("properties")@, JsonView::Obj(views_of_fields(fields@[0].1->Obj_0@))),
            (("required")@, JsonView::Arr(rv)),
            (("type")@, JsonView::Str(("object")@)),
        ]);
        assert(j@ =~~= JsonView::Obj(
            seq![
                (("properties")@, JsonView::Obj(views_of_fields(fields@[0].1->Obj_0@))),
                (("required")@, JsonView::Arr(rv)),
                (("type")@, JsonView::Str(("object")@)),
            ],
        ));
    }
    j
}

/// An empty schema: a tool that takes no arguments.
fn make_empty_schema() -> (j: Json)
    ensures
        j@ == JsonView::Obj(
            seq![
                (("properties")@, JsonView::Obj(Seq::empty())),
                (("required")@, JsonView::Arr(Seq::empty())),
                (("type")@, JsonView::Str(("object")@)),
            ],
        ),
{
    let props: Vec<(String, Json)> = Vec::new();
    let required: Vec<String> = Vec::new();
    proof {
        assert(views_of_fields(props@) =~= Seq::<(Seq<char>, JsonView)>::empty());
        assert(str_items(str_views(required@)) =~= Seq::<JsonView>::empty());
    }
    let j = make_schema(props, required);
    proof {
        assert(j@ =~~= JsonView::Obj(
            seq![
                (("properties")@, JsonView::Obj(Seq::empty())),
                (("required")@, JsonView::Arr(Seq::empty())),
                (("type")@, JsonView::Str(("object")@)),
            ],
        ));
    }
    j
}

/// The tool catalogue: every tool the controller offers, in a fixed
/// order — the three lifecycle tools first, the bridge tools after.
pub fn get_tools() -> (r: Vec<McpTool>)
    ensures
        r@.len() == 12,
        r@[0].name@ == ("app_status")@,
        r@[1].name@ == ("launch_app")@,
        r@[2].name@ == ("stop_app")@,
        r@[3].name@ == ("snapshot")@,
        r@[4].name@ == ("click")@,
        r@[5].name@ == ("fill")@,
        r@[6].name@ == ("press_key")@,
        r@[7].name@ == ("evaluate_script")@,
        r@[8].name@ == ("screenshot")@,
        r@[9].name@ == ("navigate")@,
        r@[10].name@ == ("get_console_logs")@,
        r@[11].name@ == ("get_network_logs")@,
{
    let mut r: Vec<McpTool> = Vec::new();
    r.push(McpTool {
        name: "app_status".to_owned(),
        description: "Check if the Tauri app is running".to_owned(),
        input_schema: make_empty_schema(),
    });
    let mut launch_props: Vec<(String, Json)> = Vec::new();
    launch_props.push((
        "wait_for_ready".to_owned(),
        make_prop("Wait for app to be ready before returning (default: true)", "boolean"),
    ));
    launch_props.push((
        "timeout_secs".to_owned(),
        make_prop(
            "Timeout in seconds to wait for app to be ready (default: 60)",
            "integer",
        ),
    ));
    r.push(McpTool {
        name: "launch_app".to_owned(),
        description: "Launch the Tauri desktop app (runs 'pnpm tauri dev' in apps/desktop)"
            .to_owned(),
        input_schema: make_schema(launch_props, Vec::new()),
    });
    r.push(McpTool {
        name: "stop_app".to_owned(),
        description: "Stop the running Tauri app".to_owned(),
        input_schema: make_empty_schema(),
    });
    r.push(McpTool {
        name: "snapshot".to_owned(),
        description: "Get accessibility tree snapshot of the current page. Returns a tree with ref numbers that can be used with click/fill tools. Each element shows: [ref=N] role/tag \"name\" value=\"...\" [checked] [disabled]"
            .to_owned(),
        input_schema: make_empty_schema(),
    });
    let mut click_props: Vec<(String, Json)> = Vec::new();
    click_props.push((
        "ref".to_owned(),
        make_prop("Element ref number from snapshot (preferred)", "integer"),
    ));
    click_props.push((
        "selector".to_owned(),
        make_prop("CSS selector of the element to click (fallback)", "string"),
    ));
    r.push(McpTool {
        name: "click".to_owned(),
        description: "Click an element. Use 'ref' (from snapshot) or 'selector' (CSS). Ref is preferred as it's more reliable after taking a snapshot."
            .to_owned(),
        input_schema: make_schema(click_props, Vec::new()),
    });
    let mut fill_props: Vec<(String, Json)> = Vec::new();
    fill_props.push((
        "ref".to_owned(),
        make_prop("Element ref number from snapshot (preferred)", "integer"),
    ));
    fill_props.push((
        "selector".to_owned(),
        make_prop("CSS selector of the input element (fallback)", "string"),
    ));
    fill_props.push((
        "value".to_owned(),
        make_prop("Value to fill into the input", "string"),
    ));
    let mut fill_required: Vec<String> = Vec::new();
    fill_required.push("value".to_owned());
    r.push(McpTool {
        name: "fill".to_owned(),
        description: "Fill an input element with a value. Use 'ref' (from snapshot) or 'selector' (CSS). Ref is preferred as it's more reliable after taking a snapshot."
            .to_owned(),
        input_schema: make_schema(fill_props, fill_required),
    });
    let mut key_props: Vec<(String, Json)> = Vec::new();
    key_props.push((
        "key".to_owned(),
        make_prop("Key to press (e.g., 'Enter', 'Tab', 'Escape')", "string"),
    ));
    let mut key_required: Vec<String> = Vec::new();
    key_required.push("key".to_owned());
    r.push(McpTool {
        name: "press_key".to_owned(),
        description: "Press a keyboard key".to_owned(),
        input_schema: make_schema(key_props, key_required),
    });
    let mut script_props: Vec<(String, Json)> = Vec::new();
    script_props.push((
        "script".to_owned(),
        make_prop("JavaScript code to execute", "string"),
    ));
    let mut script_required: Vec<String> = Vec::new();
    script_required.push("script".to_owned());
    r.push(McpTool {
        name: "evaluate_script".to_owned(),
        description: "Execute custom JavaScript in the webview".to_owned(),
        input_schema: make_schema(script_props, script_required),
    });
    r.push(McpTool {
        name: "screenshot".to_owned(),
        description: "Take a screenshot of the current page".to_owned(),
        input_schema: make_empty_schema(),
    });
    let mut nav_props: Vec<(String, Json)> = Vec::new();
    nav_props.push(("url".to_owned(), make_prop("URL to navigate to", "string")));
    let mut nav_required: Vec<String> = Vec::new();
    nav_required.push("url".to_owned());
    r.push(McpTool {
        name: "navigate".to_owned(),
        description: "Navigate to a URL".to_owned(),
        input_schema: make_schema(nav_props, nav_required),
    });
    r.push(McpTool {
        name: "get_console_logs".to_owned(),
        description: "Get captured console logs from the frontend".to_owned(),
        input_schema: make_empty_schema(),
    });
    r.push(McpTool {
        name: "get_network_logs".to_owned(),
        description: "Get captured network request logs".to_owned(),
        input_schema: make_empty_schema(),
    });
    r
}

/// The document of one catalogue entry: name, description and schema, in
/// the record's own order.
pub open spec fn tool_json(name: Seq<char>, desc: Seq<char>, schema: JsonView) -> JsonView {
    JsonView::Obj(
        seq![
            (("name")@, JsonView::Str(name)),
            (("description")@, JsonView::Str(desc)),
            (("inputSchema")@, schema),
        ],
    )
}

/// The documents of the catalogue's entries, in order.
pub open spec fn tools_json(ts: Seq<McpTool>) -> Seq<JsonView> {
    Seq::new(
        ts.len(),
        |i: int| if 0 <= i < ts.len() {
            tool_json(ts[i].name@, ts[i].description@, ts[i].input_schema@)
        } else {
            JsonView::Null
        },
    )
}

/// Builds the answer to a catalogue request: the documents of all the
/// given tools under `tools`, answering `id`.
#[verifier::loop_isolation(false)]
pub fn complete_tools_list(id: Option<Json>, tools: Vec<McpTool>) -> (r: JsonRpcResponse)
    ensures
        r@ == success_view(
            opt_view(id),
            JsonView::Obj(seq![(("tools")@, JsonView::Arr(tools_json(tools@)))]),
        ),
        r@.id == opt_view(id),
        r@.well_formed(),
{
    let ghost tv = tools_json(tools@);
    let mut items: Vec<Json> = Vec::new();
    let mut k: usize = 0;
    proof {
        assert(views_of(items@) =~= tv.take(0));
    }
    while k < tools.len()
        invariant
            k <= tools@.len(),
            tv == tools_json(tools@),
            tv.len() == tools@.len(),
            views_of(items@) =~= tv.take(k as int),
        decreases tools@.len() - k,
    {
        let t = &tools[k];
        let mut fields: Vec<(String, Json)> = Vec::new();
        fields.push(("name".to_owned(), Json::Str(t.name.clone())));
        fields.push(("description".to_owned(), Json::Str(t.description.clone())));
        fields.push(("inputSchema".to_owned(), t.input_schema.duplicate()));
        let tj = Json::Obj(fields);
        proof {
            let fv = views_of_fields(fields@);
            assert(fields@.len() == 3);
            assert(fv[0] == (("name")@, JsonView::Str(tools@[k as int].name@)));
            assert(fv[1] == (("description")@, JsonView::Str(tools@[k as int].description@)));
            assert(fv[2] == (("inputSchema")@, tools@[k as int].input_schema@));
            assert(fv =~= tool_json(
                tools@[k as int].name@,
                tools@[k as int].description@,
                tools@[k as int].input_schema@,
            )->Obj_0);
            assert(tj@ =~~= tv[k as int]);
        }
        items.push(tj);
        proof {
            assert(views_of(items@) =~= tv.take(k as int + 1));
        }
        k = k + 1;
    }
    proof {
        assert(tv.take(tools@.len() as int) =~= tv);
    }
    let arr = Json::Arr(items);
    let mut fields: Vec<(String, Json)> = Vec::new();
    fields.push(("tools".to_owned(), arr));
    let result = Json::Obj(fields);
    proof {
        let fv = views_of_fields(fields@);
        assert(fields@.len() == 1);
        assert(fv[0] == (("tools")@, JsonView::Arr(tv)));
        assert(fv =~= seq![(("tools")@, JsonView::Arr(tv))]);
        assert(result@ =~~= JsonView::Obj(seq![(("tools")@, JsonView::Arr(tv))]));
    }
    JsonRpcResponse::success(id, result)
}


/// The id law on the controller's side: every immediate answer of the
/// routing carries the id of the request it answers and is well formed.
pub proof fn lemma_mcp_route_preserves_id(req: RequestView)
    ensures
        spec_mcp_route(req) matches McpActionView::Respond(r) ==> r.id == req.id
            && r.well_formed(),
{
}

} // verus!
