use legado_tauri::app_config::{override_values, parse_overrides};
use legado_tauri::booksource::engine::proxy_method;
use legado_tauri::browser_probe::{cookie_read_failed, eval_raw, invalid_url, parse_probe_result, quote_or_empty, EvalRaw};
use legado_tauri::errors::CommandError;
use legado_tauri::frontend_storage::{namespace_count, namespace_summaries};
use legado_tauri::stubs::{dump_config_value, dump_namespace_value};

#[test]
fn overrides_from_file_text() {
    assert_eq!(parse_overrides(None).ok().unwrap().len(), 0);
    assert_eq!(parse_overrides(Some("  \n")).ok().unwrap().len(), 0);
    let m = override_values(parse_overrides(Some("{\"b\": 1, \"a\": {\"x\": [true]}}")).ok().unwrap());
    assert_eq!(m.len(), 2);
    assert_eq!(m.get("b").and_then(|v| v.as_i64()), Some(1));
    assert_eq!(m.get("a").map(|v| v["x"][0].as_bool()), Some(Some(true)));
    let keys: Vec<&str> = m.entries().iter().map(|(k, _)| k.as_str()).collect();
    assert_eq!(keys, vec!["a", "b"]);
    match parse_overrides(Some("[1, 2]")) {
        Err(CommandError::Other(msg)) => assert_eq!(msg, "app-config-overrides.json 顶层必须是对象"),
        Err(e) => panic!("unexpected {:?}", e),
        Ok(_) => panic!("an array is no object"),
    }
    assert!(matches!(parse_overrides(Some("{oops")), Err(CommandError::Serde(_))));
}

#[test]
fn dump_values_of_files() {
    assert!(dump_namespace_value("").is_none());
    assert!(dump_namespace_value(" \t").is_none());
    assert!(dump_namespace_value("{bad").is_none());
    let whole = dump_namespace_value("{\"k\":\"v\",\"n\":2}").unwrap().into_value();
    assert_eq!(whole["k"].as_str(), Some("v"));
    assert_eq!(whole["n"].as_i64(), Some(2));
    assert_eq!(dump_namespace_value("[1]").unwrap().into_value()[0].as_i64(), Some(1));
    assert!(dump_config_value(None).is_none());
    assert!(dump_config_value(Some("")).is_none());
    assert!(dump_config_value(Some("nope")).is_none());
    assert_eq!(dump_config_value(Some("{\"x\":2}")).unwrap().into_value()["x"].as_i64(), Some(2));
    assert_eq!(namespace_count("{\"a\":1,\"b\":[2],\"c\":null}"), 3);
    assert_eq!(namespace_count("\"text\""), 0);
}

#[test]
fn probe_results_from_raw_text() {
    match eval_raw("\"done\"".to_string()) {
        EvalRaw::Json(v) => assert_eq!(v.into_value().as_str(), Some("done")),
        EvalRaw::Text(s) => panic!("unexpected text {}", s),
    }
    match eval_raw("{\"ok\":true}".to_string()) {
        EvalRaw::Json(v) => assert_eq!(v.into_value()["ok"].as_bool(), Some(true)),
        EvalRaw::Text(s) => panic!("unexpected text {}", s),
    }
    match eval_raw("not json".to_string()) {
        EvalRaw::Text(s) => assert_eq!(s, "not json"),
        EvalRaw::Json(_) => panic!("not json was parsed"),
    }
    assert_eq!(parse_probe_result("{\"value\":3}").ok().unwrap().into_value()["value"].as_i64(), Some(3));
    match parse_probe_result("{broken") {
        Err(CommandError::Other(m)) => assert!(m.starts_with("探测结果解析失败: ")),
        Err(e) => panic!("unexpected {:?}", e),
        Ok(_) => panic!("broken text was parsed"),
    }
}

#[test]
fn base64_of_short_groups() {
    assert_eq!(legado_tauri::codec::base64_encode(b"Man"), "TWFu");
    assert_eq!(legado_tauri::codec::base64_encode(b"Ma"), "TWE=");
    assert_eq!(legado_tauri::codec::base64_encode(b"M"), "TQ==");
}

#[test]
fn quoted_json_strings_escape_as_serde_json() {
    assert_eq!(quote_or_empty("plain"), "\"plain\"");
    assert_eq!(quote_or_empty("a\"b\\c"), "\"a\\\"b\\\\c\"");
    assert_eq!(quote_or_empty("\n\r\t\u{8}\u{c}\u{1}\u{1f}/é"), "\"\\n\\r\\t\\b\\f\\u0001\\u001f/é\"");
}

#[test]
fn method_names_of_token_characters() {
    assert_eq!(proxy_method(Some("m-search")).unwrap(), "M-SEARCH");
    assert_eq!(proxy_method(Some("x!#$%&'*+.^_`|~9")).unwrap(), "X!#$%&'*+.^_`|~9");
    assert!(matches!(proxy_method(Some("a,b")), Err(CommandError::Invalid(_))));
    assert!(matches!(proxy_method(Some("é")), Err(CommandError::Invalid(_))));
    assert!(matches!(proxy_method(Some("ALONGEXTENSIONMETHODNAME")), Ok(_)));
}

#[test]
fn namespace_listing_from_files() {
    let files: Vec<(String, String)> = vec![
        ("reader.json".to_string(), "{\"a\":\"1\",\"b\":\"2\"}".to_string()),
        ("notes.txt".to_string(), "{}".to_string()),
        ("app.json".to_string(), "  ".to_string()),
        ("reader.json.tmp".to_string(), "{\"x\":\"1\"}".to_string()),
        ("bad.json".to_string(), "[1,2]".to_string()),
    ];
    let got: Vec<(String, usize)> = namespace_summaries(&files).into_iter().map(|s| (s.namespace, s.count)).collect();
    assert_eq!(got, vec![("app".to_string(), 0), ("bad".to_string(), 0), ("reader".to_string(), 2)]);
    assert!(namespace_summaries(&Vec::new()).is_empty());
}

#[test]
fn probe_error_texts() {
    match invalid_url("x", "relative URL without a base") {
        CommandError::Invalid(m) => assert_eq!(m, "非法 URL x: relative URL without a base"),
        e => panic!("unexpected {:?}", e),
    }
    match cookie_read_failed("closed") {
        CommandError::Other(m) => assert_eq!(m, "读取 cookie 失败: closed"),
        e => panic!("unexpected {:?}", e),
    }
}
