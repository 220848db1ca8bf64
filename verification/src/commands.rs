//! The scripts that the dispatcher hands to the external execution
//! context, one builder per command.
//!
//! Each builder assembles a small program around the caller's arguments.
//! An argument that lands inside the program as data is embedded as a JSON
//! string token — quoted and escaped by the wire codec's own string
//! encoder — so no argument can break out of its place in the program.
//! The builders' contracts state the produced text exactly.

use vstd::prelude::*;

use crate::json::{dec_digits, dec_string, encode_json_string, quoted};

verus! {

/// The script that clicks the element a selector names.
/// The text that `click_js` produces.
pub open spec fn click_js_text(selector: Seq<char>) -> Seq<char> {
    ("\nconst el = document.querySelector(")@ + quoted(selector) + (");\nif (!el) {\n    return { success: false, error: 'Element not found: ")@ + selector + ("' };\n}\nel.click();\nreturn { success: true };\n")@
}

pub fn click_js(selector: &str) -> (r: String)
    ensures
        r@ == click_js_text(selector@),
{
    let q = encode_json_string(selector);
    let mut r = String::new();
    r.append("\nconst el = document.querySelector(");
    r.append(q.as_str());
    r.append(");\nif (!el) {\n    return { success: false, error: 'Element not found: ");
    r.append(selector);
    r.append("' };\n}\nel.click();\nreturn { success: true };\n");
    proof {
        assert(r@ =~= click_js_text(selector@));
    }
    r
}

/// The script that clicks the element a snapshot reference names.
/// The text that `click_ref_js` produces.
pub open spec fn click_ref_js_text(ref_num: nat) -> Seq<char> {
    ("\nconst refMap = window.__MCP_REF_MAP__;\nif (!refMap) {\n    return { success: false, error: 'No snapshot taken yet. Call snapshot first.' };\n}\nconst el = refMap.get(")@ + dec_digits(ref_num) + (");\nif (!el) {\n    return { success: false, error: 'Element ref=")@ + dec_digits(ref_num) + (" not found. Snapshot may be stale.' };\n}\nel.scrollIntoView({ behavior: 'instant', block: 'center' });\nel.click();\nreturn { success: true };\n")@
}

pub fn click_ref_js(ref_num: u32) -> (r: String)
    ensures
        r@ == click_ref_js_text(ref_num as nat),
{
    let n = dec_string(ref_num as u64);
    let mut r = String::new();
    r.append("\nconst refMap = window.__MCP_REF_MAP__;\nif (!refMap) {\n    return { success: false, error: 'No snapshot taken yet. Call snapshot first.' };\n}\nconst el = refMap.get(");
    r.append(n.as_str());
    r.append(");\nif (!el) {\n    return { success: false, error: 'Element ref=");
    r.append(n.as_str());
    r.append(" not found. Snapshot may be stale.' };\n}\nel.scrollIntoView({ behavior: 'instant', block: 'center' });\nel.click();\nreturn { success: true };\n");
    proof {
        assert(r@ =~= click_ref_js_text(ref_num as nat));
    }
    r
}

/// The script that fills the input a selector names, through the native
/// value setter so frameworks watching the input see the change.
/// The text that `fill_js` produces.
pub open spec fn fill_js_text(selector: Seq<char>, value: Seq<char>) -> Seq<char> {
    ("\nconst el = document.querySelector(")@ + quoted(selector) + (");\nif (!el) {\n    return { success: false, error: 'Element not found: ")@ + selector + ("' };\n}\n\n// Get the native value setter to bypass React's synthetic event system\n// This is required for React controlled inputs to properly update state\nconst tagName = el.tagName.toLowerCase();\nconst prototype = tagName === 'textarea' ? window.HTMLTextAreaElement.prototype : window.HTMLInputElement.prototype;\nconst nativeValueSetter = Object.getOwnPropertyDescriptor(prototype, 'value')?.set;\n\nif (nativeValueSetter) {\n    nativeValueSetter.call(el, ")@ + quoted(value) + (");\n} else {\n    el.value = ")@ + quoted(value) + (";\n}\n\n// Dispatch input event with bubbles to trigger React's onChange\nconst inputEvent = new Event('input', { bubbles: true, cancelable: true });\n// React 16+ uses this property to track the event\nObject.defineProperty(inputEvent, 'simulated', { value: true });\nel.dispatchEvent(inputEvent);\n\n// Also dispatch change event for completeness\nel.dispatchEvent(new Event('change', { bubbles: true }));\n\nreturn { success: true };\n")@
}

pub fn fill_js(selector: &str, value: &str) -> (r: String)
    ensures
        r@ == fill_js_text(selector@, value@),
{
    let qs = encode_json_string(selector);
    let qv = encode_json_string(value);
    let mut r = String::new();
    r.append("\nconst el = document.querySelector(");
    r.append(qs.as_str());
    r.append(");\nif (!el) {\n    return { success: false, error: 'Element not found: ");
    r.append(selector);
    r.append("' };\n}\n\n// Get the native value setter to bypass React's synthetic event system\n// This is required for React controlled inputs to properly update state\nconst tagName = el.tagName.toLowerCase();\nconst prototype = tagName === 'textarea' ? window.HTMLTextAreaElement.prototype : window.HTMLInputElement.prototype;\nconst nativeValueSetter = Object.getOwnPropertyDescriptor(prototype, 'value')?.set;\n\nif (nativeValueSetter) {\n    nativeValueSetter.call(el, ");
    r.append(qv.as_str());
    r.append(");\n} else {\n    el.value = ");
    r.append(qv.as_str());
    r.append(";\n}\n\n// Dispatch input event with bubbles to trigger React's onChange\nconst inputEvent = new Event('input', { bubbles: true, cancelable: true });\n// React 16+ uses this property to track the event\nObject.defineProperty(inputEvent, 'simulated', { value: true });\nel.dispatchEvent(inputEvent);\n\n// Also dispatch change event for completeness\nel.dispatchEvent(new Event('change', { bubbles: true }));\n\nreturn { success: true };\n");
    proof {
        assert(r@ =~= fill_js_text(selector@, value@));
    }
    r
}

/// The script that fills the input a snapshot reference names.
/// The text that `fill_ref_js` produces.
pub open spec fn fill_ref_js_text(ref_num: nat, value: Seq<char>) -> Seq<char> {
    ("\nconst refMap = window.__MCP_REF_MAP__;\nif (!refMap) {\n    return { success: false, error: 'No snapshot taken yet. Call snapshot first.' };\n}\nconst el = refMap.get(")@ + dec_digits(ref_num) + (");\nif (!el) {\n    return { success: false, error: 'Element ref=")@ + dec_digits(ref_num) + (" not found. Snapshot may be stale.' };\n}\nel.scrollIntoView({ behavior: 'instant', block: 'center' });\nel.focus();\n\n// Get the native value setter to bypass React's synthetic event system\n// This is required for React controlled inputs to properly update state\nconst tagName = el.tagName.toLowerCase();\nconst prototype = tagName === 'textarea' ? window.HTMLTextAreaElement.prototype : window.HTMLInputElement.prototype;\nconst nativeValueSetter = Object.getOwnPropertyDescriptor(prototype, 'value')?.set;\n\nif (nativeValueSetter) {\n    nativeValueSetter.call(el, ")@ + quoted(value) + (");\n} else {\n    el.value = ")@ + quoted(value) + (";\n}\n\n// Dispatch input event with bubbles to trigger React's onChange\nconst inputEvent = new Event('input', { bubbles: true, cancelable: true });\n// React 16+ uses this property to track the event\nObject.defineProperty(inputEvent, 'simulated', { value: true });\nel.dispatchEvent(inputEvent);\n\n// Also dispatch change event for completeness\nel.dispatchEvent(new Event('change', { bubbles: true }));\n\nreturn { success: true };\n")@
}

pub fn fill_ref_js(ref_num: u32, value: &str) -> (r: String)
    ensures
        r@ == fill_ref_js_text(ref_num as nat, value@),
{
    let n = dec_string(ref_num as u64);
    let qv = encode_json_string(value);
    let mut r = String::new();
    r.append("\nconst refMap = window.__MCP_REF_MAP__;\nif (!refMap) {\n    return { success: false, error: 'No snapshot taken yet. Call snapshot first.' };\n}\nconst el = refMap.get(");
    r.append(n.as_str());
    r.append(");\nif (!el) {\n    return { success: false, error: 'Element ref=");
    r.append(n.as_str());
    r.append(" not found. Snapshot may be stale.' };\n}\nel.scrollIntoView({ behavior: 'instant', block: 'center' });\nel.focus();\n\n// Get the native value setter to bypass React's synthetic event system\n// This is required for React controlled inputs to properly update state\nconst tagName = el.tagName.toLowerCase();\nconst prototype = tagName === 'textarea' ? window.HTMLTextAreaElement.prototype : window.HTMLInputElement.prototype;\nconst nativeValueSetter = Object.getOwnPropertyDescriptor(prototype, 'value')?.set;\n\nif (nativeValueSetter) {\n    nativeValueSetter.call(el, ");
    r.append(qv.as_str());
    r.append(");\n} else {\n    el.value = ");
    r.append(qv.as_str());
    r.append(";\n}\n\n// Dispatch input event with bubbles to trigger React's onChange\nconst inputEvent = new Event('input', { bubbles: true, cancelable: true });\n// React 16+ uses this property to track the event\nObject.defineProperty(inputEvent, 'simulated', { value: true });\nel.dispatchEvent(inputEvent);\n\n// Also dispatch change event for completeness\nel.dispatchEvent(new Event('change', { bubbles: true }));\n\nreturn { success: true };\n");
    proof {
        assert(r@ =~= fill_ref_js_text(ref_num as nat, value@));
    }
    r
}

/// The script that presses one keyboard key on the focused element.
/// The text that `press_key_js` produces.
pub open spec fn press_key_js_text(key: Seq<char>) -> Seq<char> {
    ("\nconst activeEl = document.activeElement || document.body;\nconst keyEvent = new KeyboardEvent('keydown', {\n    key: ")@ + quoted(key) + (",\n    bubbles: true,\n    cancelable: true\n});\nactiveEl.dispatchEvent(keyEvent);\n\nconst keyUpEvent = new KeyboardEvent('keyup', {\n    key: ")@ + quoted(key) + (",\n    bubbles: true,\n    cancelable: true\n});\nactiveEl.dispatchEvent(keyUpEvent);\n\nreturn { success: true };\n")@
}

pub fn press_key_js(key: &str) -> (r: String)
    ensures
        r@ == press_key_js_text(key@),
{
    let q = encode_json_string(key);
    let mut r = String::new();
    r.append("\nconst activeEl = document.activeElement || document.body;\nconst keyEvent = new KeyboardEvent('keydown', {\n    key: ");
    r.append(q.as_str());
    r.append(",\n    bubbles: true,\n    cancelable: true\n});\nactiveEl.dispatchEvent(keyEvent);\n\nconst keyUpEvent = new KeyboardEvent('keyup', {\n    key: ");
    r.append(q.as_str());
    r.append(",\n    bubbles: true,\n    cancelable: true\n});\nactiveEl.dispatchEvent(keyUpEvent);\n\nreturn { success: true };\n");
    proof {
        assert(r@ =~= press_key_js_text(key@));
    }
    r
}

/// The script that steers the page to a new address.
/// The text that `navigate_js` produces.
pub open spec fn navigate_js_text(url: Seq<char>) -> Seq<char> {
    ("\nwindow.location.href = ")@ + quoted(url) + (";\nreturn { success: true };\n")@
}

pub fn navigate_js(url: &str) -> (r: String)
    ensures
        r@ == navigate_js_text(url@),
{
    let q = encode_json_string(url);
    let mut r = String::new();
    r.append("\nwindow.location.href = ");
    r.append(q.as_str());
    r.append(";\nreturn { success: true };\n");
    proof {
        assert(r@ =~= navigate_js_text(url@));
    }
    r
}

/// The text of a truth value in a script.
pub fn bool_js(b: bool) -> (r: &'static str)
    ensures
        r@ == (if b { ("true")@ } else { ("false")@ }),
{
    if b {
        "true"
    } else {
        "false"
    }
}

/// The script that reads, and optionally clears, the captured console log.
/// The text that `get_console_logs_js` produces.
pub open spec fn get_console_logs_js_text(clear: bool) -> Seq<char> {
    ("\nconst logs = window.__MCP_CONSOLE_LOGS__ || [];\nconst result = { logs: [...logs] };\nif (")@ + (if clear { ("true")@ } else { ("false")@ }) + (") {\n    window.__MCP_CONSOLE_LOGS__ = [];\n}\nreturn result;\n")@
}

pub fn get_console_logs_js(clear: bool) -> (r: String)
    ensures
        r@ == get_console_logs_js_text(clear),
{
    let mut r = String::new();
    r.append("\nconst logs = window.__MCP_CONSOLE_LOGS__ || [];\nconst result = { logs: [...logs] };\nif (");
    r.append(bool_js(clear));
    r.append(") {\n    window.__MCP_CONSOLE_LOGS__ = [];\n}\nreturn result;\n");
    proof {
        assert(r@ =~= get_console_logs_js_text(clear));
    }
    r
}

/// The script that reads, and optionally clears, the captured network log.
/// The text that `get_network_logs_js` produces.
pub open spec fn get_network_logs_js_text(clear: bool) -> Seq<char> {
    ("\nconst logs = window.__MCP_NETWORK_LOGS__ || [];\nconst result = { logs: [...logs] };\nif (")@ + (if clear { ("true")@ } else { ("false")@ }) + (") {\n    window.__MCP_NETWORK_LOGS__ = [];\n}\nreturn result;\n")@
}

pub fn get_network_logs_js(clear: bool) -> (r: String)
    ensures
        r@ == get_network_logs_js_text(clear),
{
    let mut r = String::new();
    r.append("\nconst logs = window.__MCP_NETWORK_LOGS__ || [];\nconst result = { logs: [...logs] };\nif (");
    r.append(bool_js(clear));
    r.append(") {\n    window.__MCP_NETWORK_LOGS__ = [];\n}\nreturn result;\n");
    proof {
        assert(r@ =~= get_network_logs_js_text(clear));
    }
    r
}

/// The script that gathers console, build and network logs with the hot-
/// reload status, and optionally clears the stores.
/// The text that `get_frontend_logs_js` produces.
pub open spec fn get_frontend_logs_js_text(clear: bool) -> Seq<char> {
    ("\nconst consoleLogs = (window.__MCP_CONSOLE_LOGS__ || []).map(log => ({\n    source: 'console',\n    category: 'runtime-frontend',\n    level: log.level === 'error' ? 'error' : log.level === 'warn' ? 'warning' : 'info',\n    message: log.args.map(a => typeof a === 'string' ? a : JSON.stringify(a)).join(' '),\n    timestamp: log.timestamp,\n}));\n\nconst buildLogs = (window.__MCP_BUILD_LOGS__ || []).map(log => ({\n    source: log.source,\n    category: 'build-frontend',\n    level: log.level,\n    message: log.message,\n    timestamp: log.timestamp,\n    details: log.file ? { file: log.file, line: log.line, column: log.column } : undefined,\n}));\n\nconst networkLogs = (window.__MCP_NETWORK_LOGS__ || []).map(log => ({\n    source: 'network',\n    category: 'runtime-frontend-network',\n    level: log.status >= 400 || log.error ? 'error' : 'info',\n    message: log.error ? `${log.method} ${log.url} - ERROR: ${log.error}` : `${log.method} ${log.url} - ${log.status}`,\n    timestamp: log.timestamp,\n    details: {\n        url: log.url,\n        method: log.method,\n        status: log.status,\n        duration: log.duration,\n        error: log.error,\n    },\n}));\n\nconst hmrStatus = {\n    connected: window.__MCP_HMR_STATUS__ === 'connected',\n    status: window.__MCP_HMR_STATUS__ || 'unknown',\n    lastSuccess: window.__MCP_HMR_LAST_SUCCESS__ || null,\n};\n\nif (")@ + (if clear { ("true")@ } else { ("false")@ }) + (") {\n    window.__MCP_CONSOLE_LOGS__ = [];\n    window.__MCP_BUILD_LOGS__ = [];\n    window.__MCP_NETWORK_LOGS__ = [];\n}\n\nreturn { consoleLogs, buildLogs, networkLogs, hmrStatus };\n")@
}

pub fn get_frontend_logs_js(clear: bool) -> (r: String)
    ensures
        r@ == get_frontend_logs_js_text(clear),
{
    let mut r = String::new();
    r.append("\nconst consoleLogs = (window.__MCP_CONSOLE_LOGS__ || []).map(log => ({\n    source: 'console',\n    category: 'runtime-frontend',\n    level: log.level === 'error' ? 'error' : log.level === 'warn' ? 'warning' : 'info',\n    message: log.args.map(a => typeof a === 'string' ? a : JSON.stringify(a)).join(' '),\n    timestamp: log.timestamp,\n}));\n\nconst buildLogs = (window.__MCP_BUILD_LOGS__ || []).map(log => ({\n    source: log.source,\n    category: 'build-frontend',\n    level: log.level,\n    message: log.message,\n    timestamp: log.timestamp,\n    details: log.file ? { file: log.file, line: log.line, column: log.column } : undefined,\n}));\n\nconst networkLogs = (window.__MCP_NETWORK_LOGS__ || []).map(log => ({\n    source: 'network',\n    category: 'runtime-frontend-network',\n    level: log.status >= 400 || log.error ? 'error' : 'info',\n    message: log.error ? `${log.method} ${log.url} - ERROR: ${log.error}` : `${log.method} ${log.url} - ${log.status}`,\n    timestamp: log.timestamp,\n    details: {\n        url: log.url,\n        method: log.method,\n        status: log.status,\n        duration: log.duration,\n        error: log.error,\n    },\n}));\n\nconst hmrStatus = {\n    connected: window.__MCP_HMR_STATUS__ === 'connected',\n    status: window.__MCP_HMR_STATUS__ || 'unknown',\n    lastSuccess: window.__MCP_HMR_LAST_SUCCESS__ || null,\n};\n\nif (");
    r.append(bool_js(clear));
    r.append(") {\n    window.__MCP_CONSOLE_LOGS__ = [];\n    window.__MCP_BUILD_LOGS__ = [];\n    window.__MCP_NETWORK_LOGS__ = [];\n}\n\nreturn { consoleLogs, buildLogs, networkLogs, hmrStatus };\n");
    proof {
        assert(r@ =~= get_frontend_logs_js_text(clear));
    }
    r
}

/// The script that reads, and optionally clears, the recorded hot-reload
/// updates.
/// The text that `get_hmr_updates_js` produces.
pub open spec fn get_hmr_updates_js_text(clear: bool) -> Seq<char> {
    ("\nconst updates = window.__MCP_HMR_UPDATES__ || [];\nconst result = { updates: [...updates] };\nif (")@ + (if clear { ("true")@ } else { ("false")@ }) + (") {\n    window.__MCP_HMR_UPDATES__ = [];\n}\nreturn result;\n")@
}

pub fn get_hmr_updates_js(clear: bool) -> (r: String)
    ensures
        r@ == get_hmr_updates_js_text(clear),
{
    let mut r = String::new();
    r.append("\nconst updates = window.__MCP_HMR_UPDATES__ || [];\nconst result = { updates: [...updates] };\nif (");
    r.append(bool_js(clear));
    r.append(") {\n    window.__MCP_HMR_UPDATES__ = [];\n}\nreturn result;\n");
    proof {
        assert(r@ =~= get_hmr_updates_js_text(clear));
    }
    r
}


/// The script that walks the page and renders an accessibility snapshot,
/// with numbered references for later clicks and fills.
/// The text that `snapshot_js` returns.
pub open spec fn snapshot_js_text() -> Seq<char> {
    (r#"
    let refCounter = 0;
    const refMap = new Map();

    // Store ref map globally for later use (click by ref, etc.)
    window.__MCP_REF_MAP__ = refMap;

    function getRole(el) {
        // Explicit ARIA role
        if (el.getAttribute('role')) return el.getAttribute('role');

        // Implicit roles based on tag
        const tag = el.tagName.toLowerCase();
        const type = el.getAttribute('type');

        const roleMap = {
            'a': el.href ? 'link' : null,
            'button': 'button',
            'input': {
                'text': 'textbox',
                'email': 'textbox',
                'password': 'textbox',
                'search': 'searchbox',
                'tel': 'textbox',
                'url': 'textbox',
                'number': 'spinbutton',
                'checkbox': 'checkbox',
                'radio': 'radio',
                'submit': 'button',
                'button': 'button',
                'reset': 'button',
                'range': 'slider',
            },
            'select': 'combobox',
            'textarea': 'textbox',
            'img': 'img',
            'h1': 'heading',
            'h2': 'heading',
            'h3': 'heading',
            'h4': 'heading',
            'h5': 'heading',
            'h6': 'heading',
            'ul': 'list',
            'ol': 'list',
            'li': 'listitem',
            'table': 'table',
            'tr': 'row',
            'td': 'cell',
            'th': 'columnheader',
            'nav': 'navigation',
            'main': 'main',
            'header': 'banner',
            'footer': 'contentinfo',
            'aside': 'complementary',
            'form': 'form',
            'dialog': 'dialog',
            'article': 'article',
            'section': 'region',
        };

        if (tag === 'input') {
            return roleMap['input'][type] || 'textbox';
        }
        return roleMap[tag] || null;
    }

    function getAccessibleName(el) {
        // aria-label
        if (el.getAttribute('aria-label')) return el.getAttribute('aria-label');

        // aria-labelledby
        const labelledBy = el.getAttribute('aria-labelledby');
        if (labelledBy) {
            const labelEl = document.getElementById(labelledBy);
            if (labelEl) return labelEl.textContent.trim();
        }

        // label for input
        if (el.id) {
            const label = document.querySelector(`label[for="${el.id}"]`);
            if (label) return label.textContent.trim();
        }

        // placeholder
        if (el.placeholder) return el.placeholder;

        // alt for images
        if (el.alt) return el.alt;

        // title
        if (el.title) return el.title;

        // Direct text content for certain elements
        const tag = el.tagName.toLowerCase();
        if (['button', 'a', 'h1', 'h2', 'h3', 'h4', 'h5', 'h6', 'label', 'li'].includes(tag)) {
            const text = el.textContent.trim();
            if (text && text.length < 100) return text;
        }

        return null;
    }

    function isVisible(el) {
        if (!el.offsetParent && el.tagName.toLowerCase() !== 'body') return false;
        const style = window.getComputedStyle(el);
        if (style.display === 'none' || style.visibility === 'hidden' || style.opacity === '0') return false;
        return true;
    }

    function isInteractive(el) {
        const tag = el.tagName.toLowerCase();
        const interactiveTags = ['a', 'button', 'input', 'select', 'textarea'];
        if (interactiveTags.includes(tag)) return true;
        if (el.getAttribute('role') === 'button') return true;
        if (el.onclick || el.getAttribute('onclick')) return true;
        if (el.tabIndex >= 0) return true;
        return false;
    }

    function buildTree(el, depth = 0) {
        if (!el || el.nodeType !== Node.ELEMENT_NODE) return null;
        if (!isVisible(el)) return null;

        const role = getRole(el);
        const name = getAccessibleName(el);
        const isInter = isInteractive(el);

        // Skip non-semantic elements unless they have children worth showing
        const skipTags = ['div', 'span', 'script', 'style', 'noscript', 'svg', 'path'];
        const tag = el.tagName.toLowerCase();

        let children = [];
        for (const child of el.children) {
            const childNode = buildTree(child, depth + 1);
            if (childNode) children.push(childNode);
        }

        // Skip non-semantic containers with single child (flatten)
        if (skipTags.includes(tag) && !role && !isInter && children.length === 1) {
            return children[0];
        }

        // Skip empty non-semantic elements
        if (skipTags.includes(tag) && !role && !isInter && children.length === 0 && !name) {
            return null;
        }

        const ref = ++refCounter;
        refMap.set(ref, el);

        const node = { ref };
        if (role) node.role = role;
        else node.tag = tag;
        if (name) node.name = name;
        if (isInter) node.interactive = true;

        // Add value for form elements
        if (el.value !== undefined && el.value !== '') {
            node.value = el.value;
        }

        // Add checked state
        if (el.checked !== undefined) {
            node.checked = el.checked;
        }

        // Add disabled state
        if (el.disabled) {
            node.disabled = true;
        }

        if (children.length > 0) {
            node.children = children;
        }

        return node;
    }

    function treeToText(node, indent = 0) {
        if (!node) return '';

        const prefix = '  '.repeat(indent);
        let line = prefix + `- [ref=${node.ref}]`;

        if (node.role) line += ` ${node.role}`;
        else if (node.tag) line += ` <${node.tag}>`;

        if (node.name) line += ` "${node.name}"`;
        if (node.value) line += ` value="${node.value}"`;
        if (node.checked) line += ` [checked]`;
        if (node.disabled) line += ` [disabled]`;

        let result = line + '\n';

        if (node.children) {
            for (const child of node.children) {
                result += treeToText(child, indent + 1);
            }
        }

        return result;
    }

    const tree = buildTree(document.body);
    const snapshot = treeToText(tree);

    // Build health status from HMR monitoring
    const buildHealth = {
        frontend: (window.__MCP_BUILD_LOGS__ || []).some(log => log.level === 'error') ? 'error' : 'healthy',
        hmrConnected: window.__MCP_HMR_STATUS__ === 'connected',
        lastError: (window.__MCP_BUILD_LOGS__ || []).filter(log => log.level === 'error').slice(-1)[0] || null,
    };

    // Include warning if there are build errors
    const result = {
        url: window.location.href,
        title: document.title,
        snapshot: snapshot,
        buildHealth: buildHealth,
    };

    if (buildHealth.frontend === 'error' && buildHealth.lastError) {
        result.warning = `Build error: ${buildHealth.lastError.message}`;
        if (buildHealth.lastError.file) {
            result.warning += ` (${buildHealth.lastError.file}:${buildHealth.lastError.line || '?'})`;
        }
    }

    return result;
"#)@
}

pub fn snapshot_js() -> (r: &'static str)
    ensures
        r@ == snapshot_js_text(),
{
    r#"
    let refCounter = 0;
    const refMap = new Map();

    // Store ref map globally for later use (click by ref, etc.)
    window.__MCP_REF_MAP__ = refMap;

    function getRole(el) {
        // Explicit ARIA role
        if (el.getAttribute('role')) return el.getAttribute('role');

        // Implicit roles based on tag
        const tag = el.tagName.toLowerCase();
        const type = el.getAttribute('type');

        const roleMap = {
            'a': el.href ? 'link' : null,
            'button': 'button',
            'input': {
                'text': 'textbox',
                'email': 'textbox',
                'password': 'textbox',
                'search': 'searchbox',
                'tel': 'textbox',
                'url': 'textbox',
                'number': 'spinbutton',
                'checkbox': 'checkbox',
                'radio': 'radio',
                'submit': 'button',
                'button': 'button',
                'reset': 'button',
                'range': 'slider',
            },
            'select': 'combobox',
            'textarea': 'textbox',
            'img': 'img',
            'h1': 'heading',
            'h2': 'heading',
            'h3': 'heading',
            'h4': 'heading',
            'h5': 'heading',
            'h6': 'heading',
            'ul': 'list',
            'ol': 'list',
            'li': 'listitem',
            'table': 'table',
            'tr': 'row',
            'td': 'cell',
            'th': 'columnheader',
            'nav': 'navigation',
            'main': 'main',
            'header': 'banner',
            'footer': 'contentinfo',
            'aside': 'complementary',
            'form': 'form',
            'dialog': 'dialog',
            'article': 'article',
            'section': 'region',
        };

        if (tag === 'input') {
            return roleMap['input'][type] || 'textbox';
        }
        return roleMap[tag] || null;
    }

    function getAccessibleName(el) {
        // aria-label
        if (el.getAttribute('aria-label')) return el.getAttribute('aria-label');

        // aria-labelledby
        const labelledBy = el.getAttribute('aria-labelledby');
        if (labelledBy) {
            const labelEl = document.getElementById(labelledBy);
            if (labelEl) return labelEl.textContent.trim();
        }

        // label for input
        if (el.id) {
            const label = document.querySelector(`label[for="${el.id}"]`);
            if (label) return label.textContent.trim();
        }

        // placeholder
        if (el.placeholder) return el.placeholder;

        // alt for images
        if (el.alt) return el.alt;

        // title
        if (el.title) return el.title;

        // Direct text content for certain elements
        const tag = el.tagName.toLowerCase();
        if (['button', 'a', 'h1', 'h2', 'h3', 'h4', 'h5', 'h6', 'label', 'li'].includes(tag)) {
            const text = el.textContent.trim();
            if (text && text.length < 100) return text;
        }

        return null;
    }

    function isVisible(el) {
        if (!el.offsetParent && el.tagName.toLowerCase() !== 'body') return false;
        const style = window.getComputedStyle(el);
        if (style.display === 'none' || style.visibility === 'hidden' || style.opacity === '0') return false;
        return true;
    }

    function isInteractive(el) {
        const tag = el.tagName.toLowerCase();
        const interactiveTags = ['a', 'button', 'input', 'select', 'textarea'];
        if (interactiveTags.includes(tag)) return true;
        if (el.getAttribute('role') === 'button') return true;
        if (el.onclick || el.getAttribute('onclick')) return true;
        if (el.tabIndex >= 0) return true;
        return false;
    }

    function buildTree(el, depth = 0) {
        if (!el || el.nodeType !== Node.ELEMENT_NODE) return null;
        if (!isVisible(el)) return null;

        const role = getRole(el);
        const name = getAccessibleName(el);
        const isInter = isInteractive(el);

        // Skip non-semantic elements unless they have children worth showing
        const skipTags = ['div', 'span', 'script', 'style', 'noscript', 'svg', 'path'];
        const tag = el.tagName.toLowerCase();

        let children = [];
        for (const child of el.children) {
            const childNode = buildTree(child, depth + 1);
            if (childNode) children.push(childNode);
        }

        // Skip non-semantic containers with single child (flatten)
        if (skipTags.includes(tag) && !role && !isInter && children.length === 1) {
            return children[0];
        }

        // Skip empty non-semantic elements
        if (skipTags.includes(tag) && !role && !isInter && children.length === 0 && !name) {
            return null;
        }

        const ref = ++refCounter;
        refMap.set(ref, el);

        const node = { ref };
        if (role) node.role = role;
        else node.tag = tag;
        if (name) node.name = name;
        if (isInter) node.interactive = true;

        // Add value for form elements
        if (el.value !== undefined && el.value !== '') {
            node.value = el.value;
        }

        // Add checked state
        if (el.checked !== undefined) {
            node.checked = el.checked;
        }

        // Add disabled state
        if (el.disabled) {
            node.disabled = true;
        }

        if (children.length > 0) {
            node.children = children;
        }

        return node;
    }

    function treeToText(node, indent = 0) {
        if (!node) return '';

        const prefix = '  '.repeat(indent);
        let line = prefix + `- [ref=${node.ref}]`;

        if (node.role) line += ` ${node.role}`;
        else if (node.tag) line += ` <${node.tag}>`;

        if (node.name) line += ` "${node.name}"`;
        if (node.value) line += ` value="${node.value}"`;
        if (node.checked) line += ` [checked]`;
        if (node.disabled) line += ` [disabled]`;

        let result = line + '\n';

        if (node.children) {
            for (const child of node.children) {
                result += treeToText(child, indent + 1);
            }
        }

        return result;
    }

    const tree = buildTree(document.body);
    const snapshot = treeToText(tree);

    // Build health status from HMR monitoring
    const buildHealth = {
        frontend: (window.__MCP_BUILD_LOGS__ || []).some(log => log.level === 'error') ? 'error' : 'healthy',
        hmrConnected: window.__MCP_HMR_STATUS__ === 'connected',
        lastError: (window.__MCP_BUILD_LOGS__ || []).filter(log => log.level === 'error').slice(-1)[0] || null,
    };

    // Include warning if there are build errors
    const result = {
        url: window.location.href,
        title: document.title,
        snapshot: snapshot,
        buildHealth: buildHealth,
    };

    if (buildHealth.frontend === 'error' && buildHealth.lastError) {
        result.warning = `Build error: ${buildHealth.lastError.message}`;
        if (buildHealth.lastError.file) {
            result.warning += ` (${buildHealth.lastError.file}:${buildHealth.lastError.line || '?'})`;
        }
    }

    return result;
"#
}

/// The script that renders the page to an image in the page's own context,
/// the fallback when no native capture is available.
/// The text that `screenshot_js` returns.
pub open spec fn screenshot_js_text() -> Seq<char> {
    (r#"
    // Load html2canvas if not already loaded
    if (!window.html2canvas) {
        const script = document.createElement('script');
        script.src = 'https://cdnjs.cloudflare.com/ajax/libs/html2canvas/1.4.1/html2canvas.min.js';
        document.head.appendChild(script);
        await new Promise(resolve => script.onload = resolve);
    }

    // html2canvas doesn't support modern CSS color functions (oklch, oklab, lch, lab)
    // Workaround: disable stylesheets with these colors and apply computed RGB inline

    // Disable stylesheets containing unsupported color functions
    const disabledStyles = [];
    document.querySelectorAll('style').forEach((s) => {
        if (s.textContent && /(oklch|oklab|lch|lab)\(/i.test(s.textContent)) {
            disabledStyles.push({ el: s, content: s.textContent });
            s.textContent = '/* temporarily disabled for screenshot */';
        }
    });

    // Apply computed styles inline to preserve colors
    const elements = document.body.querySelectorAll('*');
    const inlineBackups = [];
    elements.forEach((el) => {
        const computed = window.getComputedStyle(el);
        const oldStyle = el.getAttribute('style') || '';
        inlineBackups.push({ el, oldStyle });
        // Apply key color properties as inline styles
        el.style.color = computed.color;
        el.style.backgroundColor = computed.backgroundColor;
        el.style.borderColor = computed.borderColor;
    });

    try {
        const canvas = await window.html2canvas(document.body, {
            useCORS: true,
            allowTaint: true,
            scale: 0.5,
            logging: false
        });

        // Resize to max 1280x720 to limit output size
        const maxWidth = 1280;
        const maxHeight = 720;
        let width = canvas.width;
        let height = canvas.height;

        if (width > maxWidth || height > maxHeight) {
            const ratio = Math.min(maxWidth / width, maxHeight / height);
            width = Math.floor(width * ratio);
            height = Math.floor(height * ratio);
        }

        const resized = document.createElement('canvas');
        resized.width = width;
        resized.height = height;
        resized.getContext('2d').drawImage(canvas, 0, 0, width, height);

        // JPEG with 0.6 quality for smaller file size
        const dataUrl = resized.toDataURL('image/jpeg', 0.6);

        // Restore original stylesheets
        disabledStyles.forEach(d => { d.el.textContent = d.content; });
        // Restore original inline styles
        inlineBackups.forEach(b => { b.el.setAttribute('style', b.oldStyle); });

        return {
            data: dataUrl,
            width: width,
            height: height
        };
    } catch (e) {
        // Restore on error
        disabledStyles.forEach(d => { d.el.textContent = d.content; });
        inlineBackups.forEach(b => { b.el.setAttribute('style', b.oldStyle); });
        throw new Error('Screenshot failed: ' + e.message);
    }
"#)@
}

pub fn screenshot_js() -> (r: &'static str)
    ensures
        r@ == screenshot_js_text(),
{
    r#"
    // Load html2canvas if not already loaded
    if (!window.html2canvas) {
        const script = document.createElement('script');
        script.src = 'https://cdnjs.cloudflare.com/ajax/libs/html2canvas/1.4.1/html2canvas.min.js';
        document.head.appendChild(script);
        await new Promise(resolve => script.onload = resolve);
    }

    // html2canvas doesn't support modern CSS color functions (oklch, oklab, lch, lab)
    // Workaround: disable stylesheets with these colors and apply computed RGB inline

    // Disable stylesheets containing unsupported color functions
    const disabledStyles = [];
    document.querySelectorAll('style').forEach((s) => {
        if (s.textContent && /(oklch|oklab|lch|lab)\(/i.test(s.textContent)) {
            disabledStyles.push({ el: s, content: s.textContent });
            s.textContent = '/* temporarily disabled for screenshot */';
        }
    });

    // Apply computed styles inline to preserve colors
    const elements = document.body.querySelectorAll('*');
    const inlineBackups = [];
    elements.forEach((el) => {
        const computed = window.getComputedStyle(el);
        const oldStyle = el.getAttribute('style') || '';
        inlineBackups.push({ el, oldStyle });
        // Apply key color properties as inline styles
        el.style.color = computed.color;
        el.style.backgroundColor = computed.backgroundColor;
        el.style.borderColor = computed.borderColor;
    });

    try {
        const canvas = await window.html2canvas(document.body, {
            useCORS: true,
            allowTaint: true,
            scale: 0.5,
            logging: false
        });

        // Resize to max 1280x720 to limit output size
        const maxWidth = 1280;
        const maxHeight = 720;
        let width = canvas.width;
        let height = canvas.height;

        if (width > maxWidth || height > maxHeight) {
            const ratio = Math.min(maxWidth / width, maxHeight / height);
            width = Math.floor(width * ratio);
            height = Math.floor(height * ratio);
        }

        const resized = document.createElement('canvas');
        resized.width = width;
        resized.height = height;
        resized.getContext('2d').drawImage(canvas, 0, 0, width, height);

        // JPEG with 0.6 quality for smaller file size
        const dataUrl = resized.toDataURL('image/jpeg', 0.6);

        // Restore original stylesheets
        disabledStyles.forEach(d => { d.el.textContent = d.content; });
        // Restore original inline styles
        inlineBackups.forEach(b => { b.el.setAttribute('style', b.oldStyle); });

        return {
            data: dataUrl,
            width: width,
            height: height
        };
    } catch (e) {
        // Restore on error
        disabledStyles.forEach(d => { d.el.textContent = d.content; });
        inlineBackups.forEach(b => { b.el.setAttribute('style', b.oldStyle); });
        throw new Error('Screenshot failed: ' + e.message);
    }
"#
}

} // verus!
