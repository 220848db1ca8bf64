use mcp_bridge::client::{
    build_command_request, command_request_line, connect_failure_message, read_response_line,
    ConnectFailure,
};
use mcp_bridge::endpoint::{
    connection_path, derive_dev_port, endpoint_name, project_root_from, socket_file_name,
    unix_socket_path, windows_pipe_name, PlatformKind,
};
use mcp_bridge::json::{encode_json, Json};
use mcp_bridge::mcp::{
    complete_app_status, complete_forward, complete_tool_outcome, complete_tool_text,
    complete_tools_list, get_tools, mcp_route, AppStatus, McpAction,
};
use mcp_bridge::protocol::{decode_request, encode_response, METHOD_NOT_FOUND};

fn route(line: &str) -> McpAction {
    mcp_route(&decode_request(line).expect("well-formed"))
}

#[test]
fn initialize_answer_is_exact() {
    match route("{\"jsonrpc\":\"2.0\",\"id\":0,\"method\":\"initialize\"}") {
        McpAction::Respond(r) => assert_eq!(
            encode_response(r),
            "{\"jsonrpc\":\"2.0\",\"id\":0,\"result\":{\"capabilities\":{\"tools\":{}},\"protocolVersion\":\"2024-11-05\",\"serverInfo\":{\"name\":\"tauri-mcp\",\"version\":\"0.1.0\"}}}"
        ),
        _ => panic!("expected an immediate answer"),
    }
}

#[test]
fn initialized_notification_is_acknowledged() {
    match route("{\"jsonrpc\":\"2.0\",\"id\":1,\"method\":\"notifications/initialized\"}") {
        McpAction::Respond(r) => {
            assert_eq!(encode_response(r), "{\"jsonrpc\":\"2.0\",\"id\":1,\"result\":{}}")
        }
        _ => panic!("expected an immediate answer"),
    }
}

#[test]
fn tool_calls_are_routed() {
    assert!(matches!(
        route("{\"jsonrpc\":\"2.0\",\"id\":1,\"method\":\"tools/list\"}"),
        McpAction::ToolsList { .. }
    ));
    assert!(matches!(
        route(
            "{\"jsonrpc\":\"2.0\",\"id\":1,\"method\":\"tools/call\",\"params\":{\"name\":\"app_status\"}}"
        ),
        McpAction::AppStatus { .. }
    ));
    assert!(matches!(
        route(
            "{\"jsonrpc\":\"2.0\",\"id\":1,\"method\":\"tools/call\",\"params\":{\"name\":\"stop_app\"}}"
        ),
        McpAction::StopApp { .. }
    ));
    match route(
        "{\"jsonrpc\":\"2.0\",\"id\":1,\"method\":\"tools/call\",\"params\":{\"name\":\"launch_app\",\"arguments\":{\"wait_for_ready\":false,\"timeout_secs\":5}}}",
    ) {
        McpAction::LaunchApp { wait_for_ready, timeout_secs, .. } => {
            assert!(!wait_for_ready);
            assert_eq!(timeout_secs, 5);
        }
        _ => panic!("expected a launch"),
    }
    match route(
        "{\"jsonrpc\":\"2.0\",\"id\":1,\"method\":\"tools/call\",\"params\":{\"name\":\"launch_app\"}}",
    ) {
        McpAction::LaunchApp { wait_for_ready, timeout_secs, .. } => {
            assert!(wait_for_ready);
            assert_eq!(timeout_secs, 60);
        }
        _ => panic!("expected a launch"),
    }
    match route(
        "{\"jsonrpc\":\"2.0\",\"id\":1,\"method\":\"tools/call\",\"params\":{\"name\":\"snapshot\",\"arguments\":{\"k\":1}}}",
    ) {
        McpAction::Forward { method, params, .. } => {
            assert_eq!(method, "snapshot");
            assert_eq!(encode_json(&params), "{\"k\":1}");
        }
        _ => panic!("expected a forward"),
    }
}

#[test]
fn unknown_controller_method_is_refused() {
    match route("{\"jsonrpc\":\"2.0\",\"id\":8,\"method\":\"bogus\"}") {
        McpAction::Respond(r) => {
            let out = mcp_bridge::decode::decode_json(&encode_response(r)).unwrap();
            assert_eq!(encode_json(out.get("id").unwrap()), "8");
            let err = out.get("error").unwrap();
            assert_eq!(
                encode_json(err.get("code").unwrap()),
                format!("{}", METHOD_NOT_FOUND)
            );
            assert_eq!(
                err.get("message").unwrap().as_str_val().unwrap(),
                "Unknown method: bogus"
            );
        }
        _ => panic!("expected an immediate answer"),
    }
}

#[test]
fn tool_catalogue_names_every_tool() {
    let tools = get_tools();
    let names: Vec<&str> = tools.iter().map(|t| t.name.as_str()).collect();
    assert_eq!(
        names,
        [
            "app_status",
            "launch_app",
            "stop_app",
            "snapshot",
            "click",
            "fill",
            "press_key",
            "evaluate_script",
            "screenshot",
            "navigate",
            "get_console_logs",
            "get_network_logs",
        ]
    );
}

#[test]
fn tools_list_answer_carries_the_catalogue() {
    let resp = complete_tools_list(Some(Json::Int(1)), get_tools());
    let out = mcp_bridge::decode::decode_json(&encode_response(resp)).unwrap();
    let tools = out.get("result").unwrap().get("tools").unwrap();
    let text = encode_json(tools);
    assert!(text.starts_with("[{\"name\":\"app_status\","));
    assert!(text.contains("\"inputSchema\":{\"properties\":{},\"required\":[],\"type\":\"object\"}"));
    assert!(text.contains("\"required\":[\"value\"]"));
}

#[test]
fn tool_answers_wrap_text() {
    let r = complete_tool_text(Some(Json::Int(1)), "done");
    assert_eq!(
        encode_response(r),
        "{\"jsonrpc\":\"2.0\",\"id\":1,\"result\":{\"content\":[{\"text\":\"done\",\"type\":\"text\"}]}}"
    );
    let r = complete_tool_outcome(Some(Json::Int(1)), Ok("App stopped".to_string()));
    assert_eq!(
        encode_response(r),
        "{\"jsonrpc\":\"2.0\",\"id\":1,\"result\":{\"content\":[{\"text\":\"App stopped\",\"type\":\"text\"}]}}"
    );
    let r = complete_tool_outcome(Some(Json::Int(1)), Err("no app".to_string()));
    assert_eq!(
        encode_response(r),
        "{\"jsonrpc\":\"2.0\",\"id\":1,\"result\":{\"content\":[{\"text\":\"Error: no app\",\"type\":\"text\"}],\"isError\":true}}"
    );
    let r = complete_forward(Some(Json::Int(1)), Ok(Json::Bool(true)));
    assert_eq!(
        encode_response(r),
        "{\"jsonrpc\":\"2.0\",\"id\":1,\"result\":{\"content\":[{\"text\":\"true\",\"type\":\"text\"}]}}"
    );
}

#[test]
fn app_status_answer_encodes_status_and_path() {
    let r = complete_app_status(Some(Json::Int(1)), AppStatus::Running, "/tmp/x.sock");
    assert_eq!(
        encode_response(r),
        "{\"jsonrpc\":\"2.0\",\"id\":1,\"result\":{\"content\":[{\"text\":\"{\\\"socket_path\\\":\\\"/tmp/x.sock\\\",\\\"status\\\":\\\"running\\\"}\",\"type\":\"text\"}]}}"
    );
}

#[test]
fn command_request_uses_the_fixed_id() {
    let req = build_command_request("ping", Json::Obj(Vec::new()));
    assert_eq!(req.method, "ping");
    let line = command_request_line("ping", Json::Obj(Vec::new()));
    assert_eq!(
        line,
        "{\"jsonrpc\":\"2.0\",\"id\":1,\"method\":\"ping\",\"params\":{}}"
    );
}

#[test]
fn response_lines_surface_results_and_errors() {
    let r = read_response_line("{\"jsonrpc\":\"2.0\",\"id\":1,\"result\":{\"pong\":true}}");
    assert_eq!(encode_json(&r.unwrap()), "{\"pong\":true}");
    let r = read_response_line(
        "{\"jsonrpc\":\"2.0\",\"id\":1,\"error\":{\"code\":-32601,\"message\":\"nope\"}}",
    );
    assert_eq!(r.unwrap_err(), "{\"code\":-32601,\"message\":\"nope\"}");
    let r = read_response_line("{\"jsonrpc\":\"2.0\",\"id\":1}");
    assert_eq!(encode_json(&r.unwrap()), "null");
    let r = read_response_line("not json");
    assert_eq!(r.unwrap_err(), "Failed to parse response");
}

#[test]
fn connect_failures_carry_guidance() {
    assert_eq!(
        connect_failure_message(&ConnectFailure::NotFound),
        "App not running. Use 'launch_app' tool to start the desktop app first."
    );
    assert_eq!(
        connect_failure_message(&ConnectFailure::Refused),
        "App is starting up. Please wait a moment and try again."
    );
    assert_eq!(
        connect_failure_message(&ConnectFailure::Other("oops".to_string())),
        "Connection error: oops"
    );
}

#[test]
fn endpoint_names_are_deterministic() {
    assert_eq!(socket_file_name(), ".tauri-mcp.sock");
    assert_eq!(unix_socket_path("/home/me/app"), "/home/me/app/.tauri-mcp.sock");
    assert_eq!(unix_socket_path("/home/me/app/"), "/home/me/app/.tauri-mcp.sock");
    assert_eq!(unix_socket_path(""), ".tauri-mcp.sock");
    let a = windows_pipe_name("/home/me/app");
    let b = windows_pipe_name("/home/me/app");
    assert_eq!(a, b);
    assert!(a.starts_with("tauri-mcp-"));
    assert_ne!(a, windows_pipe_name("/home/me/other"));
    assert_eq!(
        endpoint_name(PlatformKind::Posix, "/r"),
        "/r/.tauri-mcp.sock"
    );
    assert_eq!(endpoint_name(PlatformKind::Windows, "/r"), windows_pipe_name("/r"));
    assert_eq!(connection_path(PlatformKind::Posix, "/r/.tauri-mcp.sock"), "/r/.tauri-mcp.sock");
    assert_eq!(
        connection_path(PlatformKind::Windows, "tauri-mcp-abc"),
        "\\\\.\\pipe\\tauri-mcp-abc"
    );
}

#[test]
fn dev_port_is_stable_and_in_range() {
    let p = derive_dev_port("/home/me/app");
    assert_eq!(p, derive_dev_port("/home/me/app"));
    assert!((10000..60000).contains(&p));
}

#[test]
fn project_root_resolution() {
    assert_eq!(
        project_root_from(Some("/explicit".to_string()), "/ignored".to_string()),
        "/explicit"
    );
    assert_eq!(
        project_root_from(None, "/work/app/src-tauri".to_string()),
        "/work/app"
    );
    assert_eq!(project_root_from(None, "/work/app".to_string()), "/work/app");
    assert_eq!(project_root_from(None, "src-tauri".to_string()), "");
    assert_eq!(project_root_from(None, "/src-tauri".to_string()), "/");
}
