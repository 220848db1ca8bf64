use mcp_bridge::decode::decode_json;
use mcp_bridge::dispatch::{
    complete_eval, complete_focus, complete_list_windows, complete_window_id, dispatch_request,
    pick_webview, DispatchAction, FocusOutcome, WindowDesc,
};
use mcp_bridge::eval::{
    bridge_not_ready_message, channel_closed_message, eval_call_js, eval_failed_message,
    eval_outcome, timeout_message, EvalResult,
};
use mcp_bridge::json::{encode_json, Json};
use mcp_bridge::protocol::{
    decode_request, encode_response, JsonRpcRequest, JsonRpcResponse, EVAL_ERROR,
    METHOD_NOT_FOUND, PARSE_ERROR,
};
use mcp_bridge::screenshot::{select_window_for_pid, CaptureWindow};
use mcp_bridge::session::{handle_line, CommandHandler, SessionStep};

/// A handler that answers the immediate decisions of the dispatcher and
/// echoes the script for actions that would leave the process.
struct LocalHandler;

impl CommandHandler for LocalHandler {
    fn handle_request(&self, req: JsonRpcRequest) -> JsonRpcResponse {
        let id = req.id.as_ref().map(|j| j.duplicate());
        match dispatch_request(&req) {
            DispatchAction::Respond(r) => r,
            DispatchAction::Eval { script, .. } => {
                complete_eval(id, Ok(Json::Str(script)))
            }
            _ => complete_eval(id, Err("not available here".to_string())),
        }
    }
}

fn reply_line(line: &str) -> Option<String> {
    match handle_line(line, Some(&LocalHandler)) {
        SessionStep::Skip => None,
        SessionStep::Reply(r) => Some(encode_response(r)),
    }
}

#[test]
fn ping_round_trip_is_exact() {
    let out = reply_line("{\"jsonrpc\":\"2.0\",\"id\":1,\"method\":\"ping\",\"params\":{}}");
    assert_eq!(
        out.as_deref(),
        Some("{\"jsonrpc\":\"2.0\",\"id\":1,\"result\":{\"pong\":true}}")
    );
}

#[test]
fn response_id_matches_request_id() {
    for (line, id_text) in [
        ("{\"jsonrpc\":\"2.0\",\"id\":7,\"method\":\"ping\"}", "7"),
        ("{\"jsonrpc\":\"2.0\",\"id\":\"abc\",\"method\":\"ping\"}", "\"abc\""),
        ("{\"jsonrpc\":\"2.0\",\"id\":[1,2],\"method\":\"nope\"}", "[1,2]"),
    ] {
        let out = reply_line(line).unwrap();
        let parsed = decode_json(&out).unwrap();
        assert_eq!(encode_json(parsed.get("id").unwrap()), id_text);
    }
}

#[test]
fn unknown_method_names_the_method() {
    let out = reply_line("{\"jsonrpc\":\"2.0\",\"id\":3,\"method\":\"frobnicate\"}").unwrap();
    let parsed = decode_json(&out).unwrap();
    assert_eq!(encode_json(parsed.get("id").unwrap()), "3");
    let err = parsed.get("error").unwrap();
    assert_eq!(
        encode_json(err.get("code").unwrap()),
        format!("{}", METHOD_NOT_FOUND)
    );
    let msg = err.get("message").unwrap().as_str_val().unwrap();
    assert_eq!(msg, "Unknown method: frobnicate");
    assert!(msg.contains("frobnicate"));
}

#[test]
fn malformed_json_yields_parse_error_and_session_continues() {
    // Malformed input: a parse error with a null id.
    let out = reply_line("{\"jsonrpc\":\"2.0\",\"id\":1,").unwrap();
    let parsed = decode_json(&out).unwrap();
    assert!(parsed.get("id").unwrap().is_null());
    assert_eq!(
        encode_json(parsed.get("error").unwrap().get("code").unwrap()),
        format!("{}", PARSE_ERROR)
    );
    // The same session's next line is served normally.
    let next = reply_line("{\"jsonrpc\":\"2.0\",\"id\":2,\"method\":\"ping\",\"params\":{}}");
    assert_eq!(
        next.as_deref(),
        Some("{\"jsonrpc\":\"2.0\",\"id\":2,\"result\":{\"pong\":true}}")
    );
}

#[test]
fn schema_mismatch_is_a_parse_error() {
    // A well-formed document that is not a request.
    let out = reply_line("{\"id\":1}").unwrap();
    let parsed = decode_json(&out).unwrap();
    assert_eq!(
        encode_json(parsed.get("error").unwrap().get("code").unwrap()),
        format!("{}", PARSE_ERROR)
    );
}

#[test]
fn blank_lines_are_skipped() {
    assert!(reply_line("").is_none());
    assert!(reply_line("   \r\n").is_none());
    assert!(reply_line("\n").is_none());
}

#[test]
fn no_handler_yields_not_initialized_with_id_kept() {
    let step = handle_line::<LocalHandler>(
        "{\"jsonrpc\":\"2.0\",\"id\":7,\"method\":\"ping\",\"params\":{}}",
        None,
    );
    let SessionStep::Reply(resp) = step else { panic!("expected a reply") };
    let out = encode_response(resp);
    let parsed = decode_json(&out).unwrap();
    assert_eq!(encode_json(parsed.get("id").unwrap()), "7");
    let err = parsed.get("error").unwrap();
    assert_eq!(
        encode_json(err.get("code").unwrap()),
        format!("{}", METHOD_NOT_FOUND)
    );
    assert_eq!(
        err.get("message").unwrap().as_str_val().unwrap(),
        "Handler not initialized"
    );
}

#[test]
fn two_sessions_each_get_their_own_answer() {
    // Two concurrent connections are independent sessions; each reply
    // carries only the id of the request on its own line.
    let a = reply_line("{\"jsonrpc\":\"2.0\",\"id\":101,\"method\":\"ping\",\"params\":{}}");
    let b = reply_line("{\"jsonrpc\":\"2.0\",\"id\":202,\"method\":\"ping\",\"params\":{}}");
    assert_eq!(
        a.as_deref(),
        Some("{\"jsonrpc\":\"2.0\",\"id\":101,\"result\":{\"pong\":true}}")
    );
    assert_eq!(
        b.as_deref(),
        Some("{\"jsonrpc\":\"2.0\",\"id\":202,\"result\":{\"pong\":true}}")
    );
}

fn request(line: &str) -> JsonRpcRequest {
    decode_request(line).expect("well-formed request")
}

#[test]
fn click_dispatch_prefers_ref_over_selector() {
    let req = request(
        "{\"jsonrpc\":\"2.0\",\"id\":1,\"method\":\"click\",\"params\":{\"ref\":5,\"selector\":\"#x\"}}",
    );
    match dispatch_request(&req) {
        DispatchAction::Eval { window, script } => {
            assert!(window.is_none());
            assert_eq!(script, mcp_bridge::commands::click_ref_js(5));
        }
        _ => panic!("expected a script action"),
    }
    let req = request(
        "{\"jsonrpc\":\"2.0\",\"id\":1,\"method\":\"click\",\"params\":{\"selector\":\"#x\",\"window\":\"main\"}}",
    );
    match dispatch_request(&req) {
        DispatchAction::Eval { window, script } => {
            assert_eq!(window.as_deref(), Some("main"));
            assert_eq!(script, mcp_bridge::commands::click_js("#x"));
        }
        _ => panic!("expected a script action"),
    }
}

#[test]
fn evaluate_script_is_wrapped_in_a_return() {
    let req = request(
        "{\"jsonrpc\":\"2.0\",\"id\":1,\"method\":\"evaluate_script\",\"params\":{\"script\":\"1+1\"}}",
    );
    match dispatch_request(&req) {
        DispatchAction::Eval { script, .. } => assert_eq!(script, "return (1+1);"),
        _ => panic!("expected a script action"),
    }
}

#[test]
fn lifecycle_and_native_methods_become_actions() {
    let r = request("{\"jsonrpc\":\"2.0\",\"id\":1,\"method\":\"get_window_id\"}");
    assert!(matches!(dispatch_request(&r), DispatchAction::WindowId));
    let r = request("{\"jsonrpc\":\"2.0\",\"id\":1,\"method\":\"screenshot\"}");
    assert!(matches!(
        dispatch_request(&r),
        DispatchAction::NativeScreenshot { window: None }
    ));
    let r = request("{\"jsonrpc\":\"2.0\",\"id\":1,\"method\":\"list_windows\"}");
    assert!(matches!(dispatch_request(&r), DispatchAction::ListWindows));
}

#[test]
fn focus_window_without_label_is_refused() {
    let r = request("{\"jsonrpc\":\"2.0\",\"id\":4,\"method\":\"focus_window\",\"params\":{}}");
    match dispatch_request(&r) {
        DispatchAction::Respond(resp) => {
            let out = decode_json(&encode_response(resp)).unwrap();
            let err = out.get("error").unwrap();
            assert_eq!(encode_json(err.get("code").unwrap()), format!("{}", EVAL_ERROR));
            assert_eq!(
                err.get("message").unwrap().as_str_val().unwrap(),
                "Window label required"
            );
            assert_eq!(encode_json(out.get("id").unwrap()), "4");
        }
        _ => panic!("expected an immediate answer"),
    }
}

#[test]
fn complete_eval_builds_both_outcomes() {
    let ok = complete_eval(Some(Json::Int(9)), Ok(Json::Bool(true)));
    assert_eq!(
        encode_response(ok),
        "{\"jsonrpc\":\"2.0\",\"id\":9,\"result\":true}"
    );
    let err = complete_eval(Some(Json::Int(9)), Err("boom".to_string()));
    assert_eq!(
        encode_response(err),
        format!(
            "{{\"jsonrpc\":\"2.0\",\"id\":9,\"error\":{{\"code\":{EVAL_ERROR},\"message\":\"boom\"}}}}"
        )
    );
}

#[test]
fn eval_call_escapes_the_script() {
    let js = eval_call_js("id-1", "let s = 'a\\b';\nuse(s);");
    assert_eq!(
        js,
        "window.__MCP_EVAL__('id-1', 'let s = \\'a\\\\b\\';\\nuse(s);')"
    );
}

#[test]
fn eval_outcome_maps_reports() {
    let r = eval_outcome(EvalResult {
        request_id: "x".to_string(),
        success: true,
        value: Some(Json::Int(3)),
        error: None,
    });
    assert_eq!(encode_json(&r.unwrap()), "3");
    let r = eval_outcome(EvalResult {
        request_id: "x".to_string(),
        success: true,
        value: None,
        error: None,
    });
    assert_eq!(encode_json(&r.unwrap()), "null");
    let r = eval_outcome(EvalResult {
        request_id: "x".to_string(),
        success: false,
        value: None,
        error: Some("bad".to_string()),
    });
    assert_eq!(r.unwrap_err(), "bad");
    let r = eval_outcome(EvalResult {
        request_id: "x".to_string(),
        success: false,
        value: None,
        error: None,
    });
    assert_eq!(r.unwrap_err(), "Unknown error");
}

#[test]
fn fixed_messages_are_exact() {
    assert_eq!(
        bridge_not_ready_message(),
        "MCP bridge not initialized. Call initMcpBridge() in your frontend."
    );
    assert_eq!(timeout_message(), "Timeout waiting for eval result");
    assert_eq!(channel_closed_message(), "Channel closed unexpectedly");
    assert_eq!(eval_failed_message("x"), "Failed to execute script: x");
}

fn window(label: &str, focused: bool) -> WindowDesc {
    WindowDesc {
        label: label.to_string(),
        title: format!("{label} title"),
        focused,
        visible: true,
        size: Some((800, 600)),
    }
}

#[test]
fn pick_webview_prefers_label_then_focus_then_first() {
    let ws = vec![window("a", false), window("b", true), window("c", false)];
    assert_eq!(pick_webview(&ws, Some("c")), Ok(2));
    assert_eq!(
        pick_webview(&ws, Some("zz")),
        Err("Window 'zz' not found".to_string())
    );
    assert_eq!(pick_webview(&ws, None), Ok(1));
    let unfocused = vec![window("a", false), window("b", false)];
    assert_eq!(pick_webview(&unfocused, None), Ok(0));
    let none: Vec<WindowDesc> = Vec::new();
    assert_eq!(pick_webview(&none, None), Err("No webview available".to_string()));
}

#[test]
fn list_windows_answer_is_exact() {
    let ws = vec![WindowDesc {
        label: "main".to_string(),
        title: "Main".to_string(),
        focused: true,
        visible: true,
        size: Some((640, 480)),
    }];
    let resp = complete_list_windows(Some(Json::Int(1)), ws);
    assert_eq!(
        encode_response(resp),
        "{\"jsonrpc\":\"2.0\",\"id\":1,\"result\":{\"windows\":[{\"focused\":true,\"label\":\"main\",\"size\":{\"height\":480,\"width\":640},\"title\":\"Main\",\"visible\":true}]}}"
    );
    let bare = vec![WindowDesc {
        label: "x".to_string(),
        title: String::new(),
        focused: false,
        visible: false,
        size: None,
    }];
    let resp = complete_list_windows(None, bare);
    assert_eq!(
        encode_response(resp),
        "{\"jsonrpc\":\"2.0\",\"id\":null,\"result\":{\"windows\":[{\"focused\":false,\"label\":\"x\",\"size\":null,\"title\":\"\",\"visible\":false}]}}"
    );
}

#[test]
fn focus_and_window_id_answers_are_exact() {
    let resp = complete_focus(Some(Json::Int(2)), "main", FocusOutcome::Focused);
    assert_eq!(
        encode_response(resp),
        "{\"jsonrpc\":\"2.0\",\"id\":2,\"result\":{\"focused\":\"main\"}}"
    );
    let resp = complete_focus(Some(Json::Int(2)), "gone", FocusOutcome::NotFound);
    let parsed = decode_json(&encode_response(resp)).unwrap();
    assert_eq!(
        parsed
            .get("error")
            .unwrap()
            .get("message")
            .unwrap()
            .as_str_val()
            .unwrap(),
        "Window 'gone' not found"
    );
    let resp = complete_window_id(Some(Json::Int(3)), 4242, Ok(99));
    assert_eq!(
        encode_response(resp),
        "{\"jsonrpc\":\"2.0\",\"id\":3,\"result\":{\"pid\":4242,\"window_id\":99}}"
    );
}

fn capture(pid: u32, w: u32, h: u32, minimized: bool) -> CaptureWindow {
    CaptureWindow { id: w + h, pid, width: w, height: h, minimized, on_monitor: true }
}

#[test]
fn window_selection_takes_the_largest() {
    let ws = vec![capture(5, 100, 100, false), capture(5, 300, 200, false), capture(6, 900, 900, false)];
    assert_eq!(select_window_for_pid(&ws, 5), Ok(1));
}

#[test]
fn window_selection_ties_go_to_the_last() {
    let ws = vec![capture(5, 200, 300, false), capture(5, 300, 200, false)];
    assert_eq!(select_window_for_pid(&ws, 5), Ok(1));
}

#[test]
fn window_selection_skips_minimized_and_reports_absence() {
    let ws = vec![capture(5, 100, 100, true)];
    assert_eq!(
        select_window_for_pid(&ws, 5),
        Err("No visible window found for PID 5".to_string())
    );
    assert_eq!(
        select_window_for_pid(&ws, 7),
        Err("No visible window found for PID 7".to_string())
    );
}
