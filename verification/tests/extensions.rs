use legado_tauri::errors::CommandError;
use legado_tauri::extensions::commands::{
    extension_delete_paths, extension_meta_for_entry, extension_path, extension_tmp_path, extension_toggle_plan,
    extensions_root, file_enabled, list_extensions, marker_paths, missing_extension, safe_file_name,
    ExtensionFileEntry, ExtensionSaveArgs,
};
use legado_tauri::paths::StoragePath;
use std::collections::HashSet;

fn segs(p: &StoragePath) -> Vec<String> {
    p.segments.clone()
}

fn ext(name: &str, is_file: bool, disabled: bool, enabled: bool) -> ExtensionFileEntry {
    ExtensionFileEntry {
        file_name: name.to_string(),
        is_file,
        file_size: 10,
        modified_at: 20,
        disabled_marker: disabled,
        enabled_marker: enabled,
    }
}

#[test]
fn enabled_by_markers() {
    assert!(!file_enabled(true, false));
    assert!(!file_enabled(true, true));
    assert!(file_enabled(false, true));
    assert!(file_enabled(false, false));
}

#[test]
fn extension_paths() {
    let d = StoragePath::at("/data".to_string());
    assert_eq!(segs(&extensions_root(&d)), vec!["extensions"]);
    assert_eq!(segs(&extension_path(&d, "a.js").unwrap()), vec!["extensions", "a.js"]);
    assert_eq!(segs(&extension_tmp_path(&d, "a.js").unwrap()), vec!["extensions", "a.js.tmp"]);
    let (off, on) = marker_paths(&d, "a.js");
    assert_eq!(segs(&off), vec!["extensions", "a.js.disabled"]);
    assert_eq!(segs(&on), vec!["extensions", "a.js.enabled"]);
    let del = extension_delete_paths(&d, "a.js").unwrap();
    assert_eq!(del.iter().map(segs).collect::<Vec<_>>(), vec![
        vec!["extensions".to_string(), "a.js".to_string()],
        vec!["extensions".to_string(), "a.js.disabled".to_string()],
        vec!["extensions".to_string(), "a.js.enabled".to_string()],
    ]);
    assert_eq!(missing_extension("a.js").message(), "未找到: 扩展文件不存在: a.js");
    let args = ExtensionSaveArgs { file_name: "a.js".to_string(), content: "x".to_string() };
    assert_eq!(args.content, "x");
}

#[test]
fn extension_name_errors() {
    match safe_file_name("") {
        Err(CommandError::Invalid(m)) => assert_eq!(m, "扩展文件名不能为空"),
        other => panic!("unexpected {:?}", other),
    }
    match safe_file_name("a\\b.js") {
        Err(CommandError::Invalid(m)) => assert_eq!(m, "非法文件名: a\\b.js"),
        other => panic!("unexpected {:?}", other),
    }
    assert!(extension_path(&StoragePath::at("/d".to_string()), "..").is_err());
}

#[test]
fn toggle_then_listing_reports_it() {
    let d = StoragePath::at("/data".to_string());
    for enabled in [true, false] {
        let mut existing: HashSet<Vec<String>> = HashSet::new();
        existing.insert(vec!["extensions".to_string(), "a.js.disabled".to_string()]);
        existing.insert(vec!["extensions".to_string(), "a.js.enabled".to_string()]);
        let plan = extension_toggle_plan(&d, "a.js", enabled).unwrap();
        existing.remove(&plan.remove.segments);
        existing.insert(plan.create.segments.clone());
        let (off, on) = marker_paths(&d, "a.js");
        let listed = extension_meta_for_entry(&ext(
            "a.js",
            true,
            existing.contains(&off.segments),
            existing.contains(&on.segments),
        ))
        .unwrap();
        assert_eq!(listed.enabled, enabled);
    }
}

#[test]
fn listing_of_extension_dir() {
    let entries = vec![
        ext("z.js", true, false, false),
        ext("a.js", true, true, false),
        ext("dir.js", false, false, false),
        ext("a.js.enabled", true, false, false),
        ext("m.JS", true, false, false),
        ext(".js", true, false, true),
    ];
    let r = list_extensions(&entries);
    let names: Vec<&str> = r.iter().map(|m| m.file_name.as_str()).collect();
    assert_eq!(names, vec![".js", "a.js", "z.js"]);
    assert_eq!(r[0].name, "");
    assert!(r[0].enabled);
    assert!(!r[1].enabled);
    assert_eq!(r[2].name, "z");
    assert!(r.iter().all(|m| m.namespace.is_empty() && m.match_patterns.is_empty() && m.file_size == 10));
}
