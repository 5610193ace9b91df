use legado_tauri::codec::base64_encode;
use legado_tauri::comic::{
    cache_root, cached_page, chapter_cache_dir, chapter_dir, clear_target, comic_download_images, page_path,
    page_sizes_path, read_page_sizes, sanitize, url_to_path, ComicDownloadImagesArgs,
};
use legado_tauri::cover::{cover_file, cover_mime_file, cover_miss, cover_result, cover_root, url_key, CoverRequest};
use legado_tauri::errors::CommandError;
use legado_tauri::font::{
    find_font, font_dir, font_file, font_index_path, font_index_tmp_path, index_write_failed, list_system_fonts,
    md5_like, new_user_font, remove_font, rename_font, upsert_font, RenameUserFontArgs, UploadUserFontArgs, UserFont,
};
use legado_tauri::paths::StoragePath;
use std::hash::{Hash, Hasher};

fn default_hash(s: &str) -> u64 {
    let mut h = std::collections::hash_map::DefaultHasher::new();
    s.hash(&mut h);
    h.finish()
}

fn segs(p: &StoragePath) -> Vec<&str> {
    p.segments.iter().map(|s| s.as_str()).collect()
}

#[test]
fn url_keys_are_sixteen_hex_digits_of_the_hash() {
    for url in ["", "http://a/b.jpg", "中文"] {
        let k = url_key(url);
        assert_eq!(k, format!("{:016x}", default_hash(url)));
        assert_eq!(k.len(), 16);
        assert_ne!(k, url);
        assert_eq!(url_to_path(url), k);
    }
    assert_eq!(md5_like("f.ttf"), default_hash("f.ttf"));
}

#[test]
fn comic_paths() {
    let d = StoragePath::at("/data".to_string());
    let key = url_key("http://book");
    assert_eq!(segs(&cache_root(&d)), vec!["comic_cache"]);
    assert_eq!(segs(&chapter_cache_dir(&d, "my src.js", "http://book")), vec!["comic_cache", "my_src.js", key.as_str()]);
    assert_eq!(segs(&chapter_dir(&d, "s.js", "http://book", 3)), vec!["comic_cache", "s.js", key.as_str(), "3"]);
    assert_eq!(
        segs(&page_path(&d, "s.js", "http://book", 3, 12)),
        vec!["comic_cache", "s.js", key.as_str(), "3", "12.bin"]
    );
    assert_eq!(
        segs(&page_sizes_path(&d, "s.js", "http://book", "书 名", 3)),
        vec!["comic_cache", "s.js", key.as_str(), "3", "___.sizes.json"]
    );
    assert_eq!(segs(&clear_target(&d, Some("a/b"))), vec!["comic_cache", "a_b"]);
    assert_eq!(segs(&clear_target(&d, None)), vec!["comic_cache"]);
    assert_eq!(sanitize(""), "_empty_");
}

#[test]
fn comic_page_sizes_and_pages() {
    assert!(read_page_sizes("  ").unwrap().is_empty());
    assert_eq!(read_page_sizes("[[800,1200],null]").unwrap(), vec![Some([800u32, 1200]), None]);
    assert!(matches!(read_page_sizes("[1,2"), Err(CommandError::Serde(_))));
    assert_eq!(cached_page(None), None);
    assert_eq!(cached_page(Some(b"Man".to_vec())), Some("TWFu".to_string()));
    let args = ComicDownloadImagesArgs {
        file_name: "s.js".to_string(),
        book_url: "b".to_string(),
        book_name: "n".to_string(),
        chapter_url: "c".to_string(),
        chapter_index: 0,
        image_urls: vec!["http://i/1.jpg".to_string()],
    };
    assert_eq!(comic_download_images(args).unwrap(), 0);
}

#[test]
fn cover_cache() {
    let d = StoragePath::at("/data".to_string());
    let key = url_key("http://c/1.jpg");
    assert_eq!(segs(&cover_root(&d)), vec!["cover_cache"]);
    assert_eq!(segs(&cover_file(&d, "http://c/1.jpg")), vec!["cover_cache".to_string(), format!("{}.bin", key)]);
    assert_eq!(segs(&cover_mime_file(&d, "http://c/1.jpg")), vec!["cover_cache".to_string(), format!("{}.mime", key)]);
    assert_eq!(cover_miss("http://c/1.jpg").message(), "未找到: 封面缓存未命中: http://c/1.jpg");
    let r = cover_result(None, b"Ma");
    assert_eq!(r.mime, "image/jpeg");
    assert_eq!(r.base64, "TWE=");
    let r = cover_result(Some("image/png".to_string()), b"");
    assert_eq!(r.mime, "image/png");
    let req = CoverRequest { url: "u".to_string(), referer: None, headers: vec![("a".to_string(), "b".to_string())] };
    assert_eq!(req.headers.len(), 1);
}

#[test]
fn font_paths_and_records() {
    let d = StoragePath::at("/data".to_string());
    assert_eq!(segs(&font_dir(&d)), vec!["user_fonts"]);
    assert_eq!(segs(&font_index_path(&d)), vec!["user_fonts-index.json"]);
    assert_eq!(segs(&font_index_tmp_path(&d)), vec!["user_fonts-index.json.tmp"]);
    let args = UploadUserFontArgs { file_name: "My Font.ttf".to_string(), data: vec![1, 2, 3] };
    let f = new_user_font(&args.file_name, &args.data, 77);
    assert_eq!(f.file_name, "My_Font.ttf");
    assert_eq!(f.display_name, "My Font.ttf");
    assert_eq!(f.id, format!("{:016x}", default_hash("My_Font.ttf")));
    assert_eq!(f.file_size, 3);
    assert_eq!(f.uploaded_at, 77);
    assert_eq!(segs(&font_file(&d, &f)), vec!["user_fonts", "My_Font.ttf"]);
    assert!(list_system_fonts().unwrap().is_empty());
}

fn font(id: &str, name: &str) -> UserFont {
    UserFont { id: id.to_string(), file_name: name.to_string(), display_name: name.to_string(), file_size: 1, uploaded_at: 0 }
}

#[test]
fn upload_replaces_same_id() {
    let mut list = vec![font("a", "a.ttf"), font("b", "b.ttf")];
    upsert_font(&mut list, font("a", "a2.ttf"));
    let ids: Vec<&str> = list.iter().map(|f| f.id.as_str()).collect();
    assert_eq!(ids, vec!["b", "a"]);
    assert_eq!(list[1].file_name, "a2.ttf");
    upsert_font(&mut list, font("c", "c.ttf"));
    assert_eq!(list.len(), 3);
}

#[test]
fn delete_and_rename_fonts() {
    let mut list = vec![font("a", "a.ttf"), font("b", "b.ttf")];
    assert_eq!(find_font(&list, "b"), Some(1));
    let args = RenameUserFontArgs { id: "b".to_string(), display_name: "粗体".to_string() };
    rename_font(&mut list, &args.id, args.display_name.clone()).unwrap();
    assert_eq!(list[1].display_name, "粗体");
    assert_eq!(list[1].file_name, "b.ttf");
    let removed = remove_font(&mut list, "a").unwrap();
    assert_eq!(removed.file_name, "a.ttf");
    assert_eq!(list.len(), 1);
    assert!(list.iter().all(|f| f.id != "a"));
    match remove_font(&mut list, "a") {
        Err(CommandError::NotFound(m)) => assert_eq!(m, "字体 a 不存在"),
        other => panic!("unexpected {:?}", other),
    }
    assert!(matches!(rename_font(&mut list, "zz", "x".to_string()), Err(CommandError::NotFound(_))));
    assert_eq!(list.len(), 1);
    let e = index_write_failed(&CommandError::Io("disk full".to_string()));
    assert_eq!(e.message(), "索引写入失败: IO 错误: disk full");
}

#[test]
fn base64_of_cached_bytes() {
    assert_eq!(base64_encode(&[0u8, 1, 2]), "AAEC");
}
