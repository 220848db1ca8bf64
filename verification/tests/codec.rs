use mcp_bridge::decode::decode_json;
use mcp_bridge::json::{dec_string, encode_json, encode_json_string, hex_string, str_eq, Json};

fn enc(j: &Json) -> String {
    encode_json(j)
}

fn roundtrip(text: &str) -> Option<String> {
    decode_json(text).map(|j| enc(&j))
}

#[test]
fn encode_scalars() {
    assert_eq!(enc(&Json::Null), "null");
    assert_eq!(enc(&Json::Bool(true)), "true");
    assert_eq!(enc(&Json::Bool(false)), "false");
    assert_eq!(enc(&Json::Int(0)), "0");
    assert_eq!(enc(&Json::Int(42)), "42");
    assert_eq!(enc(&Json::Int(-7)), "-7");
    assert_eq!(enc(&Json::Int(i64::MAX)), "9223372036854775807");
    assert_eq!(enc(&Json::Int(i64::MIN)), "-9223372036854775808");
}

#[test]
fn encode_strings_with_escapes() {
    assert_eq!(enc(&Json::Str("plain".to_string())), "\"plain\"");
    assert_eq!(
        enc(&Json::Str("a\"b\\c\nd\re\tf".to_string())),
        "\"a\\\"b\\\\c\\nd\\re\\tf\""
    );
    assert_eq!(enc(&Json::Str("\u{8}\u{c}".to_string())), "\"\\b\\f\"");
    assert_eq!(enc(&Json::Str("\u{1}".to_string())), "\"\\u0001\"");
    assert_eq!(enc(&Json::Str("\u{1f}".to_string())), "\"\\u001f\"");
    assert_eq!(enc(&Json::Str("héllo".to_string())), "\"héllo\"");
    assert_eq!(enc(&Json::Str("🚀".to_string())), "\"🚀\"");
}

#[test]
fn encode_matches_reference_encoder() {
    let j = Json::Obj(vec![
        ("a".to_string(), Json::Arr(vec![Json::Int(1), Json::Null, Json::Bool(false)])),
        ("b\n".to_string(), Json::Str("x\"y\\z\u{3}".to_string())),
    ]);
    let ours = enc(&j);
    let reference: serde_json::Value = serde_json::from_str(&ours).expect("our output parses");
    assert_eq!(serde_json::to_string(&reference).unwrap(), ours);
}

#[test]
fn encoded_document_is_one_line() {
    let j = Json::Obj(vec![
        ("text".to_string(), Json::Str("line one\nline two\r\n".to_string())),
        ("n".to_string(), Json::Int(-3)),
    ]);
    assert!(!enc(&j).contains('\n'));
}

#[test]
fn decode_scalars_and_containers() {
    assert_eq!(roundtrip("null").as_deref(), Some("null"));
    assert_eq!(roundtrip("true").as_deref(), Some("true"));
    assert_eq!(roundtrip(" -12 ").as_deref(), Some("-12"));
    assert_eq!(roundtrip("[]").as_deref(), Some("[]"));
    assert_eq!(roundtrip("{}").as_deref(), Some("{}"));
    assert_eq!(roundtrip("[1,[2,[]],{}]").as_deref(), Some("[1,[2,[]],{}]"));
    assert_eq!(
        roundtrip("{\"a\":1,\"b\":[true,null]}").as_deref(),
        Some("{\"a\":1,\"b\":[true,null]}")
    );
}

#[test]
fn decode_accepts_blank_space_between_tokens() {
    assert_eq!(
        roundtrip(" {\n\t\"a\" :\r 1 , \"b\" : [ 1 , 2 ] }\n").as_deref(),
        Some("{\"a\":1,\"b\":[1,2]}")
    );
}

#[test]
fn decode_string_escapes() {
    assert_eq!(roundtrip("\"\\u0041\"").as_deref(), Some("\"A\""));
    assert_eq!(roundtrip("\"\\n\\t\\\"\\\\\\/\"").as_deref(), Some("\"\\n\\t\\\"\\\\/\""));
    // A surrogate pair names one supplementary character.
    assert_eq!(roundtrip("\"\\ud83d\\ude00\"").as_deref(), Some("\"😀\""));
    assert_eq!(roundtrip("\"\\u00e9\"").as_deref(), Some("\"é\""));
}

#[test]
fn decode_rejects_malformed_text() {
    for bad in [
        "",
        "   ",
        "nul",
        "truex trailing",
        "{",
        "[1,",
        "[1 2]",
        "{\"a\" 1}",
        "{\"a\":}",
        "{1:2}",
        "\"unterminated",
        "\"bad \\q escape\"",
        "\"\\ud83d\"",
        "\"\\ude00\"",
        "1.5",
        "1e3",
        "-",
        "--1",
        "01x",
        "{} {}",
    ] {
        assert!(decode_json(bad).is_none(), "should reject: {bad:?}");
    }
}

#[test]
fn decode_rejects_raw_control_characters_in_strings() {
    assert!(decode_json("\"a\u{1}b\"").is_none());
}

#[test]
fn decode_number_limits() {
    assert_eq!(roundtrip("9223372036854775807").as_deref(), Some("9223372036854775807"));
    assert_eq!(roundtrip("-9223372036854775808").as_deref(), Some("-9223372036854775808"));
    assert!(decode_json("9223372036854775808").is_none());
    assert!(decode_json("-9223372036854775809").is_none());
    // The grammar caps a number at nineteen digits.
    assert!(decode_json("00000000000000000001").is_none());
    assert_eq!(roundtrip("0000000000000000001").as_deref(), Some("1"));
}

#[test]
fn decode_agrees_with_reference_parser() {
    for text in [
        "{\"jsonrpc\":\"2.0\",\"id\":1,\"method\":\"ping\",\"params\":{}}",
        "[0,-1,22,\"x\",{\"k\":[]}]",
        "{\"nested\":{\"deep\":[{\"a\":null}]}}",
    ] {
        let reference: serde_json::Value = serde_json::from_str(text).unwrap();
        let ours = decode_json(text).expect("valid");
        let ours_again: serde_json::Value = serde_json::from_str(&enc(&ours)).unwrap();
        assert_eq!(reference, ours_again);
    }
}

#[test]
fn object_lookup_takes_first_occurrence() {
    let j = decode_json("{\"a\":1,\"a\":2}").expect("valid");
    let v = j.get("a").expect("present");
    assert_eq!(enc(v), "1");
    assert!(j.get("b").is_none());
}

#[test]
fn accessors_read_plain_values() {
    let j = decode_json("{\"s\":\"x\",\"b\":true,\"n\":5,\"m\":-1,\"z\":null}").unwrap();
    assert_eq!(j.get("s").unwrap().as_str_val().map(|s| s.as_str()), Some("x"));
    assert_eq!(j.get("b").unwrap().as_bool_val(), Some(true));
    assert_eq!(j.get("n").unwrap().as_u64_val(), Some(5));
    assert_eq!(j.get("m").unwrap().as_u64_val(), None);
    assert!(j.get("z").unwrap().is_null());
}

#[test]
fn duplicate_is_deep_equality() {
    let j = decode_json("{\"a\":[1,{\"b\":\"c\"}]}").unwrap();
    let d = j.duplicate();
    assert_eq!(enc(&j), enc(&d));
}

#[test]
fn string_token_encoder_quotes_and_escapes() {
    assert_eq!(encode_json_string("a'b"), "\"a'b\"");
    assert_eq!(encode_json_string("a\"b\\c"), "\"a\\\"b\\\\c\"");
    assert_eq!(
        encode_json_string("x"),
        serde_json::to_string(&serde_json::Value::String("x".into())).unwrap()
    );
}

#[test]
fn number_text_helpers() {
    assert_eq!(dec_string(0), "0");
    assert_eq!(dec_string(90210), "90210");
    assert_eq!(dec_string(u64::MAX), format!("{}", u64::MAX));
    assert_eq!(hex_string(0), "0");
    assert_eq!(hex_string(0xdeadbeef), "deadbeef");
    assert_eq!(hex_string(u64::MAX), format!("{:x}", u64::MAX));
}

#[test]
fn str_eq_compares_characters() {
    assert!(str_eq("", ""));
    assert!(str_eq("héllo", "héllo"));
    assert!(!str_eq("a", "b"));
    assert!(!str_eq("a", "ab"));
}

#[test]
fn decode_inverts_encode() {
    let doc = Json::Obj(vec![
        ("empty".to_string(), Json::Obj(Vec::new())),
        ("items".to_string(), Json::Arr(vec![
            Json::Int(i64::MIN),
            Json::Str("a'b\"c\\d\ne\u{1}f\u{1f600}".to_string()),
            Json::Arr(Vec::new()),
            Json::Null,
            Json::Bool(true),
        ])),
        ("n".to_string(), Json::Int(-1)),
    ]);
    let text = enc(&doc);
    let back = decode_json(&text).expect("canonical text parses");
    assert_eq!(enc(&back), text);
}
