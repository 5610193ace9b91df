use legado_tauri::bookshelf::commands::{
    apply_update, bookshelf_add, bookshelf_get, bookshelf_list, bookshelf_update_book, bookshelf_update_progress,
    bookshelf_update_book_with_backup, new_shelf_book, require_book, source_switch_snapshot,
    BookshelfUpdateProgressArgs,
};
use legado_tauri::bookshelf::export::{
    build_export_bytes, build_export_text, chinese_num, export_book_data, export_format, sanitize_file_name,
    ExportFormat,
};
use legado_tauri::bookshelf::model::{
    millis_or_zero, now_ms, AddBookPayload, CachedChapter, ShelfBook, UpdateShelfBookPayload, MINUS_ONE_F32_BITS,
};
use legado_tauri::bookshelf::storage::{
    bookshelf_root, cached_index, cached_indices, chapter_text, chapters_file, content_dir, content_file,
    episode_progress_file, episode_progress_tmp_file, find_book_index, missing_backup, missing_data_dir,
    missing_export_file, sanitize_id, source_switch_backup_file,
};
use legado_tauri::codec::base64_encode;
use legado_tauri::errors::CommandError;
use legado_tauri::paths::StoragePath;

fn payload(name: &str) -> AddBookPayload {
    AddBookPayload {
        name: name.to_string(),
        author: None,
        cover_url: Some("http://c/x.jpg".to_string()),
        intro: None,
        kind: None,
        group_id: None,
        book_url: format!("http://b/{}", name),
        last_chapter: None,
        source_type: None,
    }
}

fn update_for(b: &ShelfBook) -> UpdateShelfBookPayload {
    UpdateShelfBookPayload {
        id: b.id.clone(),
        name: None,
        author: None,
        cover_url: None,
        intro: None,
        kind: None,
        group_id: None,
        book_url: b.book_url.clone(),
        file_name: b.file_name.clone(),
        source_name: b.source_name.clone(),
        last_chapter: None,
        total_chapters: None,
        read_chapter_index: None,
        read_chapter_url: None,
        source_type: b.source_type.clone(),
        added_at: None,
        last_read_at: None,
        read_page_index: None,
        read_scroll_ratio_bits: None,
        read_playback_time_bits: None,
        reader_settings: None,
        is_private: None,
    }
}

fn segs(p: &StoragePath) -> Vec<&str> {
    p.segments.iter().map(|s| s.as_str()).collect()
}

#[test]
fn new_book_defaults() {
    let b = new_shelf_book(payload("甲"), "src.js".to_string(), "源".to_string(), "id1".to_string(), 42);
    assert_eq!(b.id, "id1");
    assert_eq!(b.author, "");
    assert_eq!(b.source_type, "novel");
    assert_eq!(b.added_at, 42);
    assert_eq!(b.last_read_at, 0);
    assert_eq!(b.read_chapter_index, -1);
    assert_eq!(b.read_page_index, -1);
    assert_eq!(b.read_scroll_ratio_bits, MINUS_ONE_F32_BITS);
    assert_eq!(f32::from_bits(b.read_playback_time_bits), -1.0f32);
    assert_eq!(b.total_chapters, 0);
    assert!(!b.is_private);
    assert!(b.cover_referer.is_none());
}

#[test]
fn add_then_get_and_list() {
    let mut books = Vec::new();
    let before = now_ms();
    let added = bookshelf_add(&mut books, payload("a"), "f.js".to_string(), "S".to_string());
    assert_eq!(books.len(), 1);
    assert_eq!(added.id.len(), 36);
    assert_eq!(added.id.chars().nth(14), Some('4'));
    assert!(added.added_at >= before);
    let got = bookshelf_get(&books, &added.id).unwrap();
    assert_eq!(got.name, "a");
    assert_eq!(got.book_url, "http://b/a");
    let second = bookshelf_add(&mut books, payload("b"), "f.js".to_string(), "S".to_string());
    assert_ne!(added.id, second.id);
    let listed = bookshelf_list(&books);
    assert_eq!(listed.iter().map(|b| b.name.as_str()).collect::<Vec<_>>(), vec!["a", "b"]);
    assert_eq!(find_book_index(&books, &second.id), Some(1));
    assert_eq!(find_book_index(&books, "nope"), None);
}

#[test]
fn get_unknown_book_is_not_found() {
    let books: Vec<ShelfBook> = Vec::new();
    match bookshelf_get(&books, "x") {
        Err(CommandError::NotFound(m)) => assert_eq!(m, "书 id x 不存在"),
        other => panic!("unexpected {:?}", other),
    }
    assert!(matches!(require_book(&books, "x"), Err(CommandError::NotFound(_))));
}

#[test]
fn update_then_get() {
    let mut books = vec![new_shelf_book(payload("a"), "f.js".to_string(), "S".to_string(), "id1".to_string(), 1)];
    let mut p = update_for(&books[0]);
    p.name = Some("新名".to_string());
    p.total_chapters = Some(12);
    p.read_scroll_ratio_bits = Some(0.5f32.to_bits());
    p.file_name = "g.js".to_string();
    bookshelf_update_book(&mut books, &p).unwrap();
    let b = bookshelf_get(&books, "id1").unwrap();
    assert_eq!(b.name, "新名");
    assert_eq!(b.total_chapters, 12);
    assert_eq!(f32::from_bits(b.read_scroll_ratio_bits), 0.5);
    assert_eq!(b.file_name, "g.js");
    assert_eq!(b.author, "");
    assert_eq!(b.cover_url.as_deref(), Some("http://c/x.jpg"));
}

#[test]
fn update_with_current_values_changes_nothing() {
    let b = new_shelf_book(payload("a"), "f.js".to_string(), "S".to_string(), "id1".to_string(), 1);
    let mut t = b.clone();
    apply_update(&mut t, &update_for(&b));
    assert_eq!(format!("{:?}", t), format!("{:?}", b));
}

#[test]
fn update_twice_is_update_once() {
    let b = new_shelf_book(payload("a"), "f.js".to_string(), "S".to_string(), "id1".to_string(), 1);
    let mut p = update_for(&b);
    p.intro = Some("intro".to_string());
    p.is_private = Some(true);
    let mut once = b.clone();
    apply_update(&mut once, &p);
    let mut twice = once.clone();
    apply_update(&mut twice, &p);
    assert_eq!(format!("{:?}", once), format!("{:?}", twice));
}

#[test]
fn update_unknown_book_leaves_shelf() {
    let mut books = vec![new_shelf_book(payload("a"), "f.js".to_string(), "S".to_string(), "id1".to_string(), 1)];
    let mut p = update_for(&books[0]);
    p.id = "missing".to_string();
    p.name = Some("x".to_string());
    match bookshelf_update_book(&mut books, &p) {
        Err(CommandError::NotFound(m)) => assert_eq!(m, "书 id missing 不存在"),
        other => panic!("unexpected {:?}", other),
    }
    assert_eq!(books[0].name, "a");
}

#[test]
fn progress_then_get() {
    let mut books = vec![new_shelf_book(payload("a"), "f.js".to_string(), "S".to_string(), "id1".to_string(), 1)];
    let args = BookshelfUpdateProgressArgs {
        id: "id1".to_string(),
        chapter_index: 7,
        chapter_url: "http://b/a/7".to_string(),
        page_index: Some(3),
        scroll_ratio_bits: None,
        playback_time_bits: Some(12.5f32.to_bits()),
        reader_settings: Some("{}".to_string()),
    };
    bookshelf_update_progress(&mut books, &args).unwrap();
    let b = &books[0];
    assert_eq!(b.read_chapter_index, 7);
    assert_eq!(b.read_chapter_url.as_deref(), Some("http://b/a/7"));
    assert_eq!(b.read_page_index, 3);
    assert_eq!(b.read_scroll_ratio_bits, MINUS_ONE_F32_BITS);
    assert_eq!(f32::from_bits(b.read_playback_time_bits), 12.5);
    assert!(b.last_read_at > 0);
    let mut missing = BookshelfUpdateProgressArgs { id: "zz".to_string(), ..args };
    missing.page_index = None;
    assert!(matches!(bookshelf_update_progress(&mut books, &missing), Err(CommandError::NotFound(_))));
}

#[test]
fn snapshot_of_book_and_chapters() {
    let books = vec![new_shelf_book(payload("a"), "f.js".to_string(), "S".to_string(), "id1".to_string(), 1)];
    let chapters = vec![CachedChapter { index: 0, name: "c0".to_string(), url: "u0".to_string(), group: None }];
    let s = source_switch_snapshot(&books, "id1", &chapters, 99).unwrap();
    assert_eq!(s.book.id, "id1");
    assert_eq!(s.chapters.len(), 1);
    assert_eq!(s.saved_at, 99);
    assert!(matches!(source_switch_snapshot(&books, "x", &chapters, 1), Err(CommandError::NotFound(_))));
}

#[test]
fn source_switch_backup_holds_the_book_before_the_update() {
    let mut books = vec![new_shelf_book(payload("old name"), "f.js".to_string(), "S".to_string(), "id1".to_string(), 1)];
    let chapters = vec![CachedChapter { index: 0, name: "c0".to_string(), url: "u0".to_string(), group: None }];
    let mut upd = update_for(&books[0]);
    upd.name = Some("new name".to_string());
    upd.source_name = "T".to_string();
    let snap = bookshelf_update_book_with_backup(&mut books, &upd, Some(&chapters), 42).unwrap().unwrap();
    assert_eq!(snap.book.name, "old name");
    assert_eq!(snap.book.source_name, "S");
    assert_eq!(snap.chapters.len(), 1);
    assert_eq!(snap.saved_at, 42);
    assert_eq!(books[0].name, "new name");
    assert_eq!(books[0].source_name, "T");
    let upd2 = update_for(&books[0]);
    assert!(bookshelf_update_book_with_backup(&mut books, &upd2, None, 1).unwrap().is_none());
    let mut missing = upd2.clone();
    missing.id = "nope".to_string();
    let before = books.clone();
    assert!(matches!(bookshelf_update_book_with_backup(&mut books, &missing, Some(&chapters), 1), Err(CommandError::NotFound(_))));
    assert_eq!(books.len(), before.len());
    assert_eq!(books[0].name, before[0].name);
}

#[test]
fn time_stamp_of_clock_readings() {
    assert_eq!(millis_or_zero(None), 0);
    assert_eq!(millis_or_zero(Some(1_700_000_000_123)), 1_700_000_000_123);
    assert_eq!(millis_or_zero(Some(u128::from(u64::MAX))), -1);
    assert!(now_ms() > 1_600_000_000_000);
}

#[test]
fn chinese_numbers() {
    let cases = [(0, "零"), (1, "一"), (9, "九"), (10, "十"), (11, "十一"), (19, "十九"), (20, "二十"), (21, "二十一"), (99, "九十九"), (100, "100"), (1234, "1234")];
    for (n, s) in cases {
        assert_eq!(chinese_num(n), s, "n = {}", n);
    }
}

#[test]
fn export_file_names() {
    assert_eq!(sanitize_file_name("a/b:c*d?", "txt"), "a_b_c_d_.txt");
    assert_eq!(sanitize_file_name("   ", "txt"), "export.txt");
    assert_eq!(sanitize_file_name("  书名  ", "epub"), "书名.epub");
}

#[test]
fn export_text_layout() {
    let mut book = new_shelf_book(payload("书"), "f.js".to_string(), "S".to_string(), "id1".to_string(), 1);
    let chapters = vec![
        CachedChapter { index: 0, name: "开始".to_string(), url: "u0".to_string(), group: None },
        CachedChapter { index: 1, name: "继续".to_string(), url: "u1".to_string(), group: None },
    ];
    let bodies = vec!["  正文一 \n".to_string(), String::new()];
    assert_eq!(build_export_text(&book, &chapters, &bodies), "书\n\n第一章 开始\n\n正文一\n\n第二章 继续\n\n\n\n");
    book.author = "作者".to_string();
    let text = build_export_text(&book, &[], &[]);
    assert_eq!(text, "书  作者\n\n");
}

#[test]
fn export_formats_and_errors() {
    assert_eq!(export_format("txt"), ExportFormat::Txt);
    assert_eq!(export_format("epub"), ExportFormat::Epub);
    assert_eq!(export_format("TXT"), ExportFormat::Unsupported);
    let book = new_shelf_book(payload("书"), "f.js".to_string(), "S".to_string(), "id1".to_string(), 1);
    assert_eq!(build_export_bytes(&book, &[], &[], "txt").unwrap(), "书\n\n".as_bytes().to_vec());
    match build_export_bytes(&book, &[], &[], "epub") {
        Err(CommandError::Other(m)) => assert_eq!(m, "EPUB 导出暂未实现，请先用 TXT 格式"),
        other => panic!("unexpected {:?}", other),
    }
    match build_export_bytes(&book, &[], &[], "pdf") {
        Err(CommandError::Invalid(m)) => assert_eq!(m, "不支持的导出格式: pdf"),
        other => panic!("unexpected {:?}", other),
    }
    let data = export_book_data(&book, &[], &[], "txt").unwrap();
    assert_eq!(data.file_name, "书.txt");
    assert_eq!(data.mime, "text/plain;charset=utf-8");
    assert_eq!(data.base64, base64_encode("书\n\n".as_bytes()));
}

#[test]
fn storage_paths() {
    let d = StoragePath::at("/data".to_string());
    assert_eq!(segs(&bookshelf_root(&d)), vec!["bookshelf"]);
    assert_eq!(segs(&chapters_file(&d, "a/b")), vec!["bookshelf", "chapters", "a_b.json"]);
    assert_eq!(segs(&content_dir(&d, "x")), vec!["bookshelf", "content", "x"]);
    assert_eq!(segs(&content_file(&d, "x", -3)), vec!["bookshelf", "content", "x", "-3.txt"]);
    assert_eq!(segs(&episode_progress_file(&d, "x")), vec!["bookshelf", "meta", "episode_progress", "x.json"]);
    assert_eq!(segs(&episode_progress_tmp_file(&d, "x")), vec!["bookshelf", "meta", "episode_progress", "x.tmp"]);
    assert_eq!(segs(&source_switch_backup_file(&d, "x")), vec!["bookshelf", "source_switch_backup", "x.json"]);
    assert_eq!(sanitize_id("../../etc/passwd"), "______etc_passwd");
    assert_eq!(sanitize_id("abc-DEF_1"), "abc-DEF_1");
}

#[test]
fn book_files_stay_in_bookshelf() {
    let d = StoragePath::at("/data".to_string());
    for id in ["..", "../x", "a\\b", ""] {
        let p = chapters_file(&d, id);
        assert!(p.segments.iter().all(|s| !s.contains('/') && !s.contains('\\') && s != ".."));
        assert_eq!(p.segments[0], "bookshelf");
    }
}

#[test]
fn cached_chapter_indices() {
    let names: Vec<String> = ["3.txt", "1.txt", "x.txt", "10.txt", "2.md", "-1.txt", "+4.txt", ".txt", "3.txt"]
        .iter()
        .map(|s| s.to_string())
        .collect();
    assert_eq!(cached_indices(&names), vec![-1, 1, 3, 10]);
    let odd: Vec<String> = ["7.txt", "07.txt", "7.txt"].iter().map(|s| s.to_string()).collect();
    assert_eq!(cached_indices(&odd), vec![7]);
    assert_eq!(cached_index("07.txt"), None);
    assert_eq!(cached_index("-0.txt"), None);
    assert_eq!(cached_index("0.txt"), Some(0));
    assert_eq!(cached_index("+4.txt"), None);
    assert_eq!(cached_index("12.txt"), Some(12));
    assert_eq!(cached_index("12.TXT"), None);
    assert_eq!(cached_indices(&Vec::new()), Vec::<i32>::new());
}

#[test]
fn content_file_is_listed_under_its_index() {
    let d = StoragePath::at("/data".to_string());
    for i in [0, 5, -2, i32::MAX, i32::MIN] {
        let p = content_file(&d, "b", i);
        assert_eq!(cached_index(p.segments.last().unwrap()), Some(i));
    }
}

#[test]
fn chapter_text_of_files() {
    assert_eq!(chapter_text(None), None);
    assert_eq!(chapter_text(Some(String::new())), None);
    assert_eq!(chapter_text(Some(" x ".to_string())), Some(" x ".to_string()));
}

#[test]
fn bookshelf_error_texts() {
    assert_eq!(missing_backup("b").message(), "未找到: 书 b 没有换源快照");
    assert_eq!(missing_data_dir("b").message(), "未找到: 书 b 数据目录不存在");
    assert_eq!(missing_export_file("/x").message(), "未找到: 文件不存在: /x");
}
