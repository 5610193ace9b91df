use legado_tauri::codec::base64_encode;
use legado_tauri::errors::CommandError;
use legado_tauri::paths::{checked_file_name, concat_text, sanitize_name, split_file_name, StoragePath};
use legado_tauri::text::{
    compare_text, contains_char, contains_dotdot, ends_with_text, hex16, i64_decimal, is_blank, parse_i32,
    same_text, starts_with_text, to_ascii_case, trim_end_matches_text, trim_text, u64_decimal, TextOrder,
};

fn segs(p: &StoragePath) -> Vec<&str> {
    p.segments.iter().map(|s| s.as_str()).collect()
}

#[test]
fn trim_and_blank() {
    assert_eq!(trim_text("  a b \n\t"), "a b");
    assert_eq!(trim_text("\u{3000}全角\u{3000}"), "全角");
    assert!(is_blank(" \n\t"));
    assert!(is_blank(""));
    assert!(!is_blank(" x "));
}

#[test]
fn decimal_and_hex_rendering() {
    assert_eq!(u64_decimal(0), "0");
    assert_eq!(u64_decimal(18446744073709551615), "18446744073709551615");
    assert_eq!(i64_decimal(-5), "-5");
    assert_eq!(i64_decimal(i64::MIN), "-9223372036854775808");
    assert_eq!(hex16(255), "00000000000000ff");
    assert_eq!(hex16(u64::MAX), "ffffffffffffffff");
}

#[test]
fn parse_i32_follows_str_parse() {
    for s in ["0", "12", "+12", "-7", "007", "-2147483648", "2147483647", "2147483648", "-2147483649", "", "-", "+", "1a", " 1", "99999999999999"] {
        assert_eq!(parse_i32(s), s.parse::<i32>().ok(), "input {:?}", s);
    }
}

#[test]
fn ascii_case_changes_letters_only() {
    assert_eq!(to_ascii_case("Post", true), "POST");
    assert_eq!(to_ascii_case("StRiCt", false), "strict");
    assert_eq!(to_ascii_case("ÄbC-1", false), "Äbc-1");
}

#[test]
fn string_predicates() {
    assert!(contains_dotdot("a..b"));
    assert!(!contains_dotdot("a.b.c"));
    assert!(contains_char("a/b", '/'));
    assert!(ends_with_text("x.js", ".js"));
    assert!(!ends_with_text("js", ".js"));
    assert!(starts_with_text("charset=utf-8", "charset="));
    assert!(same_text("abc", "abc"));
    assert_eq!(trim_end_matches_text("a.js.js", ".js"), "a");
    assert_eq!(trim_end_matches_text("plain", ".js"), "plain");
    assert_eq!(concat_text("ab", "cd"), "abcd");
}

#[test]
fn text_order_is_code_point_order() {
    assert!(matches!(compare_text("a", "b"), TextOrder::Less));
    assert!(matches!(compare_text("b", "a"), TextOrder::Greater));
    assert!(matches!(compare_text("ab", "ab"), TextOrder::Equal));
    assert!(matches!(compare_text("ab", "abc"), TextOrder::Less));
    assert!(matches!(compare_text("Z", "a"), TextOrder::Less));
}

#[test]
fn sanitize_name_cases() {
    assert_eq!(sanitize_name(""), "_empty_");
    assert_eq!(sanitize_name("a b/c.txt"), "a_b_c.txt");
    assert_eq!(sanitize_name("中文"), "__");
    assert_eq!(sanitize_name(".."), "..");
}

#[test]
fn split_file_name_like_path() {
    assert_eq!(split_file_name("a.tar.gz"), ("a.tar".to_string(), Some("gz".to_string())));
    assert_eq!(split_file_name(".hidden"), (".hidden".to_string(), None));
    assert_eq!(split_file_name("noext"), ("noext".to_string(), None));
    assert_eq!(split_file_name("trail."), ("trail".to_string(), Some(String::new())));
    assert_eq!(split_file_name(".."), ("..".to_string(), None));
}

#[test]
fn checked_file_name_errors() {
    match checked_file_name("", "empty!", "bad: ") {
        Err(CommandError::Invalid(m)) => assert_eq!(m, "empty!"),
        other => panic!("unexpected {:?}", other),
    }
    for bad in ["a/b", "a\\b", "x..y", ".."] {
        match checked_file_name(bad, "empty!", "bad: ") {
            Err(CommandError::Invalid(m)) => assert_eq!(m, format!("bad: {}", bad)),
            other => panic!("unexpected {:?}", other),
        }
    }
    assert_eq!(checked_file_name("ok.js", "e", "b").unwrap(), "ok.js");
    assert_eq!(checked_file_name(".hidden", "e", "b").unwrap(), ".hidden");
}

#[test]
fn storage_path_join() {
    let d = StoragePath::at("/data".to_string());
    let p = d.join_str("a").join("b".to_string());
    assert_eq!(p.root, "/data");
    assert_eq!(segs(&p), vec!["a", "b"]);
}

#[test]
fn base64_known_values() {
    assert_eq!(base64_encode(b""), "");
    assert_eq!(base64_encode(b"M"), "TQ==");
    assert_eq!(base64_encode(b"Ma"), "TWE=");
    assert_eq!(base64_encode(b"Man"), "TWFu");
    assert_eq!(base64_encode(&[0xff, 0xfe, 0xfd, 0x00]), "//79AA==");
    assert_eq!(base64_encode("中".as_bytes()), "5Lit");
}

#[test]
fn base64_length_law() {
    for n in 0..10usize {
        let bytes = vec![7u8; n];
        assert_eq!(base64_encode(&bytes).len(), (n + 2) / 3 * 4);
    }
}

#[test]
fn error_codes_and_messages() {
    let cases = vec![
        (CommandError::Io("disk".to_string()), "IO_ERROR", "IO 错误: disk"),
        (CommandError::Serde("eof".to_string()), "SERDE_ERROR", "JSON 解析错误: eof"),
        (CommandError::NotFound("x".to_string()), "NOT_FOUND", "未找到: x"),
        (CommandError::Invalid("y".to_string()), "INVALID_ARG", "参数无效: y"),
        (CommandError::Other("z".to_string()), "OTHER", "z"),
    ];
    for (e, code, msg) in cases {
        assert_eq!(e.code(), code);
        assert_eq!(e.message(), msg);
    }
    let e = legado_tauri::errors::not_implemented("js_eval", "需要 JS 引擎");
    assert_eq!(e.message(), "js_eval 暂未实现：需要 JS 引擎");
}
