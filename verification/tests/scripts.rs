use mcp_bridge::commands::{
    click_js, click_ref_js, fill_js, fill_ref_js, get_console_logs_js, get_frontend_logs_js,
    get_hmr_updates_js, get_network_logs_js, navigate_js, press_key_js, screenshot_js,
    snapshot_js,
};

#[test]
fn click_script_matches_its_template() {
    let selector = "#btn 'quoted' \"x\"";
    let expected = format!(
        r#"
const el = document.querySelector({selector});
if (!el) {{
    return {{ success: false, error: 'Element not found: {raw_selector}' }};
}}
el.click();
return {{ success: true }};
"#,
        selector = serde_json::to_string(selector).unwrap(),
        raw_selector = selector
    );
    assert_eq!(click_js(selector), expected);
}

#[test]
fn click_ref_script_matches_its_template() {
    let ref_num: u32 = 17;
    let expected = format!(
        r#"
const refMap = window.__MCP_REF_MAP__;
if (!refMap) {{
    return {{ success: false, error: 'No snapshot taken yet. Call snapshot first.' }};
}}
const el = refMap.get({ref_num});
if (!el) {{
    return {{ success: false, error: 'Element ref={ref_num} not found. Snapshot may be stale.' }};
}}
el.scrollIntoView({{ behavior: 'instant', block: 'center' }});
el.click();
return {{ success: true }};
"#,
        ref_num = ref_num
    );
    assert_eq!(click_ref_js(ref_num), expected);
}

#[test]
fn fill_script_matches_its_template() {
    let selector = "input[name=\"q\"]";
    let value = "hello 'world'\nnext";
    let expected = format!(
        r#"
const el = document.querySelector({selector});
if (!el) {{
    return {{ success: false, error: 'Element not found: {raw_selector}' }};
}}

// Get the native value setter to bypass React's synthetic event system
// This is required for React controlled inputs to properly update state
const tagName = el.tagName.toLowerCase();
const prototype = tagName === 'textarea' ? window.HTMLTextAreaElement.prototype : window.HTMLInputElement.prototype;
const nativeValueSetter = Object.getOwnPropertyDescriptor(prototype, 'value')?.set;

if (nativeValueSetter) {{
    nativeValueSetter.call(el, {value});
}} else {{
    el.value = {value};
}}

// Dispatch input event with bubbles to trigger React's onChange
const inputEvent = new Event('input', {{ bubbles: true, cancelable: true }});
// React 16+ uses this property to track the event
Object.defineProperty(inputEvent, 'simulated', {{ value: true }});
el.dispatchEvent(inputEvent);

// Also dispatch change event for completeness
el.dispatchEvent(new Event('change', {{ bubbles: true }}));

return {{ success: true }};
"#,
        selector = serde_json::to_string(selector).unwrap(),
        raw_selector = selector,
        value = serde_json::to_string(value).unwrap()
    );
    assert_eq!(fill_js(selector, value), expected);
}

#[test]
fn fill_ref_script_matches_its_template() {
    let ref_num: u32 = 3;
    let value = "v";
    let expected = format!(
        r#"
const refMap = window.__MCP_REF_MAP__;
if (!refMap) {{
    return {{ success: false, error: 'No snapshot taken yet. Call snapshot first.' }};
}}
const el = refMap.get({ref_num});
if (!el) {{
    return {{ success: false, error: 'Element ref={ref_num} not found. Snapshot may be stale.' }};
}}
el.scrollIntoView({{ behavior: 'instant', block: 'center' }});
el.focus();

// Get the native value setter to bypass React's synthetic event system
// This is required for React controlled inputs to properly update state
const tagName = el.tagName.toLowerCase();
const prototype = tagName === 'textarea' ? window.HTMLTextAreaElement.prototype : window.HTMLInputElement.prototype;
const nativeValueSetter = Object.getOwnPropertyDescriptor(prototype, 'value')?.set;

if (nativeValueSetter) {{
    nativeValueSetter.call(el, {value});
}} else {{
    el.value = {value};
}}

// Dispatch input event with bubbles to trigger React's onChange
const inputEvent = new Event('input', {{ bubbles: true, cancelable: true }});
// React 16+ uses this property to track the event
Object.defineProperty(inputEvent, 'simulated', {{ value: true }});
el.dispatchEvent(inputEvent);

// Also dispatch change event for completeness
el.dispatchEvent(new Event('change', {{ bubbles: true }}));

return {{ success: true }};
"#,
        ref_num = ref_num,
        value = serde_json::to_string(value).unwrap()
    );
    assert_eq!(fill_ref_js(ref_num, value), expected);
}

#[test]
fn press_key_script_matches_its_template() {
    let key = "Enter";
    let expected = format!(
        r#"
const activeEl = document.activeElement || document.body;
const keyEvent = new KeyboardEvent('keydown', {{
    key: {key},
    bubbles: true,
    cancelable: true
}});
activeEl.dispatchEvent(keyEvent);

const keyUpEvent = new KeyboardEvent('keyup', {{
    key: {key},
    bubbles: true,
    cancelable: true
}});
activeEl.dispatchEvent(keyUpEvent);

return {{ success: true }};
"#,
        key = serde_json::to_string(key).unwrap()
    );
    assert_eq!(press_key_js(key), expected);
}

#[test]
fn navigate_script_matches_its_template() {
    let url = "https://example.test/a?b=c";
    let expected = format!(
        r#"
window.location.href = {url};
return {{ success: true }};
"#,
        url = serde_json::to_string(url).unwrap()
    );
    assert_eq!(navigate_js(url), expected);
}

#[test]
fn log_scripts_match_their_templates() {
    for clear in [true, false] {
        let flag = if clear { "true" } else { "false" };
        let expected = format!(
            r#"
const logs = window.__MCP_CONSOLE_LOGS__ || [];
const result = {{ logs: [...logs] }};
if ({clear}) {{
    window.__MCP_CONSOLE_LOGS__ = [];
}}
return result;
"#,
            clear = flag
        );
        assert_eq!(get_console_logs_js(clear), expected);
        let expected = format!(
            r#"
const logs = window.__MCP_NETWORK_LOGS__ || [];
const result = {{ logs: [...logs] }};
if ({clear}) {{
    window.__MCP_NETWORK_LOGS__ = [];
}}
return result;
"#,
            clear = flag
        );
        assert_eq!(get_network_logs_js(clear), expected);
    }
}

#[test]
fn frontend_logs_script_embeds_the_clear_flag() {
    let on = get_frontend_logs_js(true);
    let off = get_frontend_logs_js(false);
    assert!(on.contains("if (true) {"));
    assert!(off.contains("if (false) {"));
    assert!(on.contains("const consoleLogs = (window.__MCP_CONSOLE_LOGS__ || []).map"));
    assert!(on.contains("return { consoleLogs, buildLogs, networkLogs, hmrStatus };"));
}

#[test]
fn hmr_updates_script_embeds_the_clear_flag() {
    let on = get_hmr_updates_js(true);
    assert!(on.contains("window.__MCP_HMR_UPDATES__"));
    assert!(on.contains("if (true) {"));
    assert!(get_hmr_updates_js(false).contains("if (false) {"));
}

#[test]
fn page_scripts_are_the_fixed_programs() {
    assert!(snapshot_js().contains("window.__MCP_REF_MAP__ = refMap;"));
    assert!(snapshot_js().contains("const tree = buildTree(document.body);"));
    assert!(screenshot_js().contains("window.html2canvas(document.body"));
    assert!(screenshot_js().contains("toDataURL('image/jpeg', 0.6)"));
}
