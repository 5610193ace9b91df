use legado_tauri::app_config::{overrides_not_object, overrides_tmp_path};
use legado_tauri::bookshelf::storage::{books_tmp_file, chapters_tmp_file, content_tmp_file};
use legado_tauri::frontend_storage::{namespace_count, namespace_json, namespace_tmp_file, read_namespace};
use legado_tauri::app_config::{
    app_config_reset, app_config_set, config_entries, defaults_map, merge_with_defaults, overrides_path, AppConfig,
    ConfigValue,
};
use legado_tauri::errors::CommandError;
use legado_tauri::frontend_storage::{
    frontend_storage_list, frontend_storage_remove, frontend_storage_set, namespace_file, namespace_of_file,
    sanitize_namespace, sort_namespace_summaries, storage_dir, FrontendStorageNamespaceSummary,
};
use legado_tauri::kvmap::TextMap;
use legado_tauri::paths::StoragePath;

fn segs(p: &StoragePath) -> Vec<&str> {
    p.segments.iter().map(|s| s.as_str()).collect()
}

#[test]
fn config_defaults() {
    let c = AppConfig::default();
    assert!(c.http_user_agent.starts_with("Mozilla/5.0"));
    assert_eq!(c.http_connect_timeout_secs, 10);
    assert_eq!(c.ui_theme, "auto");
    let entries = config_entries(&c);
    assert!(entries.iter().any(|(k, v)| k == "ui_theme" && matches!(v, ConfigValue::Text(t) if t == "auto")));
    assert!(entries.iter().any(|(k, v)| k == "proxy_port" && matches!(v, ConfigValue::Unsigned(0))));
    let d = StoragePath::at("/data".to_string());
    assert_eq!(segs(&overrides_path(&d)), vec!["app-config-overrides.json"]);
}

#[test]
fn set_then_get_all_then_reset() {
    let defaults = defaults_map(vec![("a".to_string(), 1), ("b".to_string(), 2)]);
    let mut overrides: TextMap<i32> = TextMap::new();
    app_config_set(&mut overrides, "b".to_string(), 20).unwrap();
    app_config_set(&mut overrides, "z".to_string(), 9).unwrap();
    match app_config_set(&mut overrides, String::new(), 5) {
        Err(CommandError::Invalid(m)) => assert_eq!(m, "app_config_set 不允许空 key"),
        other => panic!("unexpected {:?}", other),
    }
    let all = merge_with_defaults(defaults, TextMap::from_entries(overrides.entries().clone()));
    assert_eq!(all.get("a"), Some(&1));
    assert_eq!(all.get("b"), Some(&20));
    assert_eq!(all.get("z"), Some(&9));
    app_config_reset(&mut overrides, "b");
    app_config_reset(&mut overrides, "never-set");
    let defaults = defaults_map(vec![("a".to_string(), 1), ("b".to_string(), 2)]);
    let all = merge_with_defaults(defaults, TextMap::from_entries(overrides.entries().clone()));
    assert_eq!(all.get("b"), Some(&2));
    assert_eq!(all.len(), 3);
}

#[test]
fn no_overrides_gives_defaults() {
    let defaults = defaults_map(vec![("x".to_string(), "1".to_string())]);
    let all = merge_with_defaults(defaults, TextMap::new());
    assert_eq!(all.len(), 1);
    assert_eq!(all.get("x").map(|s| s.as_str()), Some("1"));
}

#[test]
fn storage_set_get_remove() {
    let mut m: TextMap<String> = TextMap::new();
    frontend_storage_set(&mut m, "k2".to_string(), "v2".to_string()).unwrap();
    frontend_storage_set(&mut m, "k1".to_string(), "v1".to_string()).unwrap();
    frontend_storage_set(&mut m, "k1".to_string(), "v1b".to_string()).unwrap();
    assert_eq!(m.get("k1").map(|s| s.as_str()), Some("v1b"));
    match frontend_storage_set(&mut m, String::new(), "x".to_string()) {
        Err(CommandError::Invalid(m)) => assert_eq!(m, "frontend_storage_set 不允许空 key"),
        other => panic!("unexpected {:?}", other),
    }
    frontend_storage_remove(&mut m, "k2");
    frontend_storage_remove(&mut m, "k2");
    assert_eq!(m.get("k2"), None);
    frontend_storage_set(&mut m, "k0".to_string(), "v0".to_string()).unwrap();
    let listed = frontend_storage_list(m);
    let pairs: Vec<(&str, &str)> = listed.iter().map(|e| (e.key.as_str(), e.value.as_str())).collect();
    assert_eq!(pairs, vec![("k0", "v0"), ("k1", "v1b")]);
}

#[test]
fn namespaces() {
    let d = StoragePath::at("/data".to_string());
    assert_eq!(segs(&storage_dir(&d)), vec!["frontend_storage"]);
    assert_eq!(segs(&namespace_file(&d, "a/b")), vec!["frontend_storage", "a_b.json"]);
    assert_eq!(sanitize_namespace(""), "_empty_");
    assert_eq!(namespace_of_file("reader.json"), Some("reader".to_string()));
    assert_eq!(namespace_of_file("reader.json.tmp"), None);
    assert_eq!(namespace_of_file("x.tmp.json"), None);
    assert_eq!(namespace_of_file("notes.txt"), None);
    let sorted = sort_namespace_summaries(vec![
        FrontendStorageNamespaceSummary { namespace: "b".to_string(), count: 1 },
        FrontendStorageNamespaceSummary { namespace: "a".to_string(), count: 2 },
        FrontendStorageNamespaceSummary { namespace: "c".to_string(), count: 3 },
    ]);
    let names: Vec<(&str, usize)> = sorted.iter().map(|s| (s.namespace.as_str(), s.count)).collect();
    assert_eq!(names, vec![("a", 2), ("b", 1), ("c", 3)]);
}

#[test]
fn namespace_summaries_of_one_namespace_keep_their_order() {
    let sorted = sort_namespace_summaries(vec![
        FrontendStorageNamespaceSummary { namespace: "b".to_string(), count: 7 },
        FrontendStorageNamespaceSummary { namespace: "a".to_string(), count: 5 },
        FrontendStorageNamespaceSummary { namespace: "b".to_string(), count: 1 },
        FrontendStorageNamespaceSummary { namespace: "a".to_string(), count: 9 },
    ]);
    let names: Vec<(&str, usize)> = sorted.iter().map(|s| (s.namespace.as_str(), s.count)).collect();
    assert_eq!(names, vec![("a", 5), ("a", 9), ("b", 7), ("b", 1)]);
}

#[test]
fn namespace_files_round_trip() {
    assert_eq!(read_namespace(None).unwrap().len(), 0);
    assert_eq!(read_namespace(Some(" ")).unwrap().len(), 0);
    let m = read_namespace(Some("{\"b\":\"2\",\"a\":\"1\"}")).unwrap();
    assert_eq!(m.get("a").map(|s| s.as_str()), Some("1"));
    assert_eq!(m.get("b").map(|s| s.as_str()), Some("2"));
    assert!(matches!(read_namespace(Some("{\"a\":1}")), Err(CommandError::Serde(_))));
    let json = namespace_json(&m).unwrap();
    assert_eq!(json, "{\n  \"a\": \"1\",\n  \"b\": \"2\"\n}");
    let back = read_namespace(Some(&json)).unwrap();
    assert_eq!(back.entries(), m.entries());
    assert_eq!(namespace_count("{\"a\":1,\"b\":[2]}"), 2);
    assert_eq!(namespace_count("[1,2]"), 0);
    assert_eq!(namespace_count("  "), 0);
    assert_eq!(namespace_count("{oops"), 0);
    let d = StoragePath::at("/data".to_string());
    assert_eq!(segs(&namespace_tmp_file(&d, "r/x")), vec!["frontend_storage", "r_x.tmp"]);
}

#[test]
fn namespace_written_reads_back_with_escapes() {
    let mut m: TextMap<String> = TextMap::new();
    m.insert("键\"q".to_string(), "line\nnext\\".to_string());
    m.insert("a".to_string(), String::new());
    let json = namespace_json(&m).unwrap();
    let back = read_namespace(Some(&json)).unwrap();
    assert_eq!(back.entries(), m.entries());
    let empty: TextMap<String> = TextMap::new();
    let json = namespace_json(&empty).unwrap();
    assert_eq!(json, "{}");
    assert_eq!(read_namespace(Some(&json)).unwrap().len(), 0);
}

#[test]
fn write_first_paths() {
    let d = StoragePath::at("/data".to_string());
    assert_eq!(segs(&overrides_tmp_path(&d)), vec!["app-config-overrides.json.tmp"]);
    assert_eq!(segs(&books_tmp_file(&d)), vec!["bookshelf", "books.json.tmp"]);
    assert_eq!(segs(&chapters_tmp_file(&d, "b 1")), vec!["bookshelf", "chapters", "b_1.chapters.tmp"]);
    assert_eq!(segs(&content_tmp_file(&d, "b", 4)), vec!["bookshelf", "content", "b", "4.content.tmp"]);
    assert_eq!(overrides_not_object().message(), "app-config-overrides.json 顶层必须是对象");
}
