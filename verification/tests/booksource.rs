use legado_tauri::booksource::commands::{
    add_extra_dir, all_dirs, booksource_path_in, booksource_toggle_plan, check_dir_input, contains_text,
    draft_path, extra_dirs_json, extra_dirs_path, extra_dirs_tmp_path, list_book_sources, listing_events,
    missing_source, normalized_dir, primary_booksource_dir, read_extra_dirs, remove_extra_dir,
    resolve_booksource_path, safe_file_name, source_meta_for_entry, split_batches, SourceFileEntry, LISTING_BATCH,
};
use legado_tauri::booksource::model::{default_source_type, BookSourceMeta};
use legado_tauri::errors::CommandError;
use legado_tauri::paths::StoragePath;

fn strings(v: &[&str]) -> Vec<String> {
    v.iter().map(|s| s.to_string()).collect()
}

fn segs(p: &StoragePath) -> Vec<&str> {
    p.segments.iter().map(|s| s.as_str()).collect()
}

fn entry(dir: &str, name: &str, size: u64) -> SourceFileEntry {
    SourceFileEntry { source_dir: dir.to_string(), file_name: name.to_string(), file_size: size, modified_at: 5 }
}

fn meta(name: &str) -> BookSourceMeta {
    source_meta_for_entry(&entry("/d", name, 1)).unwrap()
}

#[test]
fn directory_paths() {
    let d = StoragePath::at("/data".to_string());
    assert_eq!(segs(&primary_booksource_dir(&d)), vec!["booksource"]);
    assert_eq!(segs(&extra_dirs_path(&d)), vec!["external-booksource-dirs.json"]);
    assert_eq!(segs(&extra_dirs_tmp_path(&d)), vec!["external-booksource-dirs.json.tmp"]);
    assert_eq!(default_source_type(), "novel");
}

#[test]
fn all_dirs_primary_first_without_repeats() {
    let r = all_dirs("/p".to_string(), strings(&["/a", "/p", "/b", "/a", "/c"]));
    assert_eq!(r, strings(&["/p", "/a", "/b", "/c"]));
    assert_eq!(all_dirs("/p".to_string(), Vec::new()), strings(&["/p"]));
}

#[test]
fn add_and_remove_dirs() {
    let mut extras = strings(&["/a"]);
    assert!(add_extra_dir(&mut extras, "/b".to_string()));
    assert!(!add_extra_dir(&mut extras, "/b".to_string()));
    assert_eq!(extras, strings(&["/a", "/b"]));
    assert!(contains_text(&extras, "/b"));
    let mut extras = strings(&["/a", "/b", "/a"]);
    assert!(remove_extra_dir(&mut extras, "/a"));
    assert_eq!(extras, strings(&["/b"]));
    assert!(!remove_extra_dir(&mut extras, "/a"));
    assert_eq!(extras, strings(&["/b"]));
}

#[test]
fn dir_input_checks() {
    assert!(check_dir_input("/x").is_ok());
    match check_dir_input("  \t") {
        Err(CommandError::Invalid(m)) => assert_eq!(m, "外部书源目录不能为空"),
        other => panic!("unexpected {:?}", other),
    }
    match normalized_dir("/nope", false, false, None) {
        Err(CommandError::Invalid(m)) => assert_eq!(m, "目录不存在: /nope"),
        other => panic!("unexpected {:?}", other),
    }
    match normalized_dir("/f", true, false, None) {
        Err(CommandError::Invalid(m)) => assert_eq!(m, "不是目录: /f"),
        other => panic!("unexpected {:?}", other),
    }
    assert_eq!(normalized_dir("./d", true, true, Some("/abs/d".to_string())).unwrap(), "/abs/d");
    assert_eq!(normalized_dir("./d", true, true, None).unwrap(), "./d");
}

#[test]
fn stored_dir_list() {
    assert!(read_extra_dirs(None).unwrap().is_empty());
    assert!(read_extra_dirs(Some("  \n")).unwrap().is_empty());
    assert_eq!(read_extra_dirs(Some("[\"/a\", \"/b\"]")).unwrap(), strings(&["/a", "/b"]));
    assert!(matches!(read_extra_dirs(Some("{\"a\":1}")), Err(CommandError::Serde(_))));
    let json = extra_dirs_json(&strings(&["/a", "/b"])).unwrap();
    assert_eq!(json, "[\n  \"/a\",\n  \"/b\"\n]");
    assert_eq!(read_extra_dirs(Some(&json)).unwrap(), strings(&["/a", "/b"]));
}

#[test]
fn stored_dir_list_reads_back_escaped_names() {
    let dirs = strings(&["C:\\书源\\\"x\"", "/tab\there", ""]);
    let json = extra_dirs_json(&dirs).unwrap();
    assert!(!json.trim().is_empty());
    assert_eq!(read_extra_dirs(Some(&json)).unwrap(), dirs);
    let empty: Vec<String> = Vec::new();
    let json = extra_dirs_json(&empty).unwrap();
    assert_eq!(json, "[]");
    assert_eq!(read_extra_dirs(Some(&json)).unwrap(), empty);
}

#[test]
fn source_file_names() {
    assert_eq!(safe_file_name("a.js").unwrap(), "a.js");
    match safe_file_name("") {
        Err(CommandError::Invalid(m)) => assert_eq!(m, "fileName 不能为空"),
        other => panic!("unexpected {:?}", other),
    }
    match safe_file_name("../x.js") {
        Err(CommandError::Invalid(m)) => assert_eq!(m, "非法 fileName: ../x.js"),
        other => panic!("unexpected {:?}", other),
    }
}

#[test]
fn source_paths() {
    let d = StoragePath::at("/data".to_string());
    let p = booksource_path_in(&d, "a.js", None, false).unwrap();
    assert_eq!(segs(&p), vec!["booksource", "a.js"]);
    let p = booksource_path_in(&d, "a.js", Some("/ext"), true).unwrap();
    assert_eq!(p.root, "/ext");
    assert_eq!(segs(&p), vec!["a.js"]);
    match booksource_path_in(&d, "a.js", Some("rel"), false) {
        Err(CommandError::Invalid(m)) => assert_eq!(m, "sourceDir 必须是绝对路径: rel"),
        other => panic!("unexpected {:?}", other),
    }
    assert!(matches!(booksource_path_in(&d, "a/b.js", None, true), Err(CommandError::Invalid(_))));
    let p = draft_path(&d, "new.js").unwrap();
    assert_eq!(segs(&p), vec!["booksource_drafts", "new.js"]);
    assert_eq!(missing_source("a.js").message(), "未找到: 书源文件不存在: a.js");
}

#[test]
fn resolve_with_platform_absoluteness() {
    let d = StoragePath::at("/data".to_string());
    let p = resolve_booksource_path(&d, "a.js", Some("/ext")).unwrap();
    assert_eq!(p.root, "/ext");
    assert!(matches!(resolve_booksource_path(&d, "a.js", Some("ext")), Err(CommandError::Invalid(_))));
    let p = resolve_booksource_path(&d, "a.js", None).unwrap();
    assert_eq!(segs(&p), vec!["booksource", "a.js"]);
}

#[test]
fn toggle_markers() {
    let d = StoragePath::at("/data".to_string());
    let plan = booksource_toggle_plan(&d, "a.js", true, None).unwrap();
    assert_eq!(segs(&plan.create), vec!["booksource", "a.js.enabled"]);
    assert_eq!(segs(&plan.remove), vec!["booksource", "a.js.disabled"]);
    let plan = booksource_toggle_plan(&d, "a.js", false, Some("rel")).unwrap();
    assert_eq!(plan.create.root, "rel");
    assert_eq!(segs(&plan.create), vec!["a.js.disabled"]);
    assert!(booksource_toggle_plan(&d, "", true, None).is_err());
}

#[test]
fn listing_filters_and_sorts() {
    let entries = vec![
        entry("/d", "b.js", 2),
        entry("/d", "readme.md", 3),
        entry("/e", "a.js", 4),
        entry("/d", ".js", 5),
        entry("/d", "c.JS", 6),
        entry("/d", "x.js.js", 7),
    ];
    let r = list_book_sources(&entries);
    let names: Vec<&str> = r.iter().map(|m| m.file_name.as_str()).collect();
    assert_eq!(names, vec!["a.js", "b.js", "x.js.js"]);
    assert_eq!(r[0].name, "a");
    assert_eq!(r[0].source_dir, "/e");
    assert_eq!(r[0].file_size, 4);
    assert_eq!(r[2].name, "x");
    assert!(r.iter().all(|m| m.enabled && m.source_type == "novel" && m.uuid.is_none() && m.source_key.is_none()));
}

#[test]
fn same_file_name_in_two_directories_keeps_directory_order() {
    let entries = vec![
        entry("/second", "b.js", 1),
        entry("/primary", "a.js", 2),
        entry("/extra", "b.js", 3),
        entry("/third", "a.js", 4),
    ];
    let r = list_book_sources(&entries);
    let got: Vec<(&str, &str)> = r.iter().map(|m| (m.file_name.as_str(), m.source_dir.as_str())).collect();
    assert_eq!(got, vec![("a.js", "/primary"), ("a.js", "/third"), ("b.js", "/second"), ("b.js", "/extra")]);
}

#[test]
fn batches_of_fifty() {
    let items: Vec<u32> = (0..120).collect();
    let b = split_batches(items);
    assert_eq!(LISTING_BATCH, 50);
    assert_eq!(b.len(), 3);
    assert_eq!(b[0].len(), 50);
    assert_eq!(b[1][0], 50);
    assert_eq!(b[2], (100..120).collect::<Vec<u32>>());
    assert!(split_batches(Vec::<u32>::new()).is_empty());
    assert_eq!(split_batches((0..50).collect::<Vec<u32>>()).len(), 1);
}

#[test]
fn streamed_listing_events() {
    let items: Vec<BookSourceMeta> = (0..51).map(|i| meta(&format!("{:03}.js", i))).collect();
    let ev = listing_events("req", Ok(items));
    assert_eq!(ev.len(), 3);
    assert!(!ev[0].done && ev[0].items.len() == 50 && ev[0].total == Some(51));
    assert!(!ev[1].done && ev[1].items.len() == 1 && ev[1].items[0].file_name == "050.js");
    assert!(ev[2].done && ev[2].items.is_empty() && ev[2].total == Some(51) && ev[2].error.is_none());
    assert!(ev.iter().all(|e| e.request_id == "req"));
    let ev = listing_events("r2", Ok(Vec::new()));
    assert_eq!(ev.len(), 1);
    assert!(ev[0].done && ev[0].total == Some(0));
    let ev = listing_events("r3", Err(CommandError::Io("denied".to_string())));
    assert_eq!(ev.len(), 1);
    assert!(ev[0].done && ev[0].total.is_none());
    assert_eq!(ev[0].error.as_deref(), Some("IO 错误: denied"));
}
