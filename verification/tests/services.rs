use legado_tauri::errors::CommandError;
use legado_tauri::frontend_log::{frontend_log_path, log_line};
use legado_tauri::paths::StoragePath;
use legado_tauri::prefetch::{
    booksource_cancel, bookshelf_pick_save_path, prefetch_events, PickSavePathArgs, PrefetchChapterInfo,
    PrefetchPayload,
};
use legado_tauri::stubs::{
    dump_namespace, dump_paths, explore_clear_cache, js_eval, local_ipv4_texts, repository_fetch,
    repository_install, RepositoryInstallArgs,
};
use legado_tauri::sync::{
    baidu_unsupported, creds_path, creds_tmp_path, credentials_without_file, sync_baidu_poll_token,
    sync_baidu_revoke_auth, sync_baidu_start_auth, sync_dir_path, sync_get_status, sync_list_conflicts,
    sync_notify_lifecycle, sync_now, sync_report_reader_session, sync_resolve_conflict, sync_test_connection,
};
use legado_tauri::video::{proxies_path, start_video_proxy, stop_video_proxy, StartVideoProxyArgs, VideoProxyHandle};
use legado_tauri::webserver::{
    initial_web_server_state, web_server_pick_dist_dir, web_server_started, web_server_stopped, webserver_state_path,
};

fn segs(p: &StoragePath) -> Vec<&str> {
    p.segments.iter().map(|s| s.as_str()).collect()
}

#[test]
fn sync_files_and_status() {
    let d = StoragePath::at("/data".to_string());
    assert_eq!(segs(&sync_dir_path(&d)), vec!["sync"]);
    assert_eq!(segs(&creds_path(&d)), vec!["sync", "credentials.json"]);
    assert_eq!(segs(&creds_tmp_path(&d)), vec!["sync", "credentials.json.tmp"]);
    let s = sync_get_status().unwrap();
    assert!(!s.enabled && !s.running && s.conflict_count == 0 && s.dirty_domains.is_empty());
    assert_eq!(credentials_without_file(None).unwrap().password, "");
    assert_eq!(credentials_without_file(Some(" \n")).unwrap().password, "");
    assert!(credentials_without_file(Some("{\"password\":\"x\"}")).is_none());
    assert!(sync_test_connection(None).unwrap());
    match sync_now(None, None, None) {
        Err(CommandError::Other(m)) => assert_eq!(m, "sync_now 暂未实现：同步引擎待补"),
        other => panic!("unexpected {:?}", other),
    }
    assert_eq!(baidu_unsupported().message(), "百度网盘 OAuth 暂未实现");
}

#[test]
fn sync_commands_without_engine() {
    assert!(sync_list_conflicts().unwrap().is_empty());
    assert!(sync_resolve_conflict().is_ok());
    assert!(sync_report_reader_session().is_ok());
    assert!(sync_notify_lifecycle().is_ok());
    assert!(sync_baidu_revoke_auth().is_ok());
    match sync_baidu_start_auth() {
        Err(CommandError::Other(m)) => assert_eq!(m, "百度网盘 OAuth 暂未实现"),
        other => panic!("unexpected {:?}", other),
    }
    match sync_baidu_poll_token() {
        Err(CommandError::Other(m)) => assert_eq!(m, "百度网盘 OAuth 暂未实现"),
        other => panic!("unexpected {:?}", other),
    }
}

fn handle(id: &str, port: u32) -> VideoProxyHandle {
    VideoProxyHandle { id: id.to_string(), port, url: format!("http://127.0.0.1:{}/", port) }
}

#[test]
fn video_proxies() {
    let d = StoragePath::at("/data".to_string());
    assert_eq!(segs(&proxies_path(&d)), vec!["video_proxies.json"]);
    let mut list = vec![handle("a", 1), handle("b", 2), handle("c", 1)];
    stop_video_proxy(&mut list, 1);
    assert_eq!(list.iter().map(|h| h.id.as_str()).collect::<Vec<_>>(), vec!["b"]);
    stop_video_proxy(&mut list, 9);
    assert_eq!(list.len(), 1);
    let args = StartVideoProxyArgs { url: "http://v".to_string(), headers: Default::default(), concurrency: None };
    match start_video_proxy(args) {
        Err(CommandError::Other(m)) => assert_eq!(m, "start_video_proxy 暂未实现：视频本地代理待补"),
        other => panic!("unexpected {:?}", other),
    }
}

#[test]
fn web_server_state_changes() {
    let d = StoragePath::at("/data".to_string());
    assert_eq!(segs(&webserver_state_path(&d)), vec!["webserver-state.json"]);
    let s = initial_web_server_state();
    assert_eq!(s.port, 7688);
    assert!(!s.enabled && !s.running && s.dist_path.is_empty() && s.last_error.is_empty());
    let mut custom = s.clone();
    custom.port = 9000;
    custom.enabled = true;
    let started = web_server_started(custom);
    assert!(!started.running);
    assert_eq!(started.port, 9000);
    assert_eq!(started.last_error, "Web 服务器暂未实现：HTTP server 待补");
    let stopped = web_server_stopped(started);
    assert!(stopped.enabled && !stopped.running && stopped.last_error.is_empty() && stopped.port == 9000);
    assert!(matches!(web_server_pick_dist_dir(), Err(CommandError::Other(_))));
}

#[test]
fn prefetch_answers_at_once() {
    let p = PrefetchPayload {
        id: "b".to_string(),
        file_name: "s.js".to_string(),
        book_url: "u".to_string(),
        book_name: "n".to_string(),
        source_type: "novel".to_string(),
        chapters: vec![
            PrefetchChapterInfo { index: 4, name: "c4".to_string(), url: "u4".to_string() },
            PrefetchChapterInfo { index: 5, name: "c5".to_string(), url: "u5".to_string() },
        ],
        start_index: 4,
        count: 2,
        concurrency: None,
        task_id: "t1".to_string(),
    };
    let (progress, done) = prefetch_events(&p);
    assert_eq!(progress.task_id, "t1");
    assert_eq!(progress.done, 0);
    assert_eq!(progress.total, 2);
    assert_eq!(progress.chapter_index, 4);
    assert_eq!(progress.error.as_deref(), Some("booksource 引擎尚未实现，本次未缓存任何章节"));
    assert_eq!(done.task_id, "t1");
    assert!(booksource_cancel("t1".to_string()).is_ok());
    let args = PickSavePathArgs { default_name: "a.txt".to_string(), filter_name: None, filter_exts: vec![] };
    match bookshelf_pick_save_path(args) {
        Err(CommandError::Other(m)) => assert_eq!(m, "bookshelf_pick_save_path 暂未实现：Harmony 系统选择器集成待补"),
        other => panic!("unexpected {:?}", other),
    }
}

#[test]
fn log_lines() {
    let d = StoragePath::at("/data".to_string());
    assert_eq!(segs(&frontend_log_path(&d)), vec!["frontend.log"]);
    assert_eq!(log_line(5, "info", "hi"), "{\"ts\":5,\"level\":\"info\",\"message\":\"hi\"}\n");
    assert_eq!(
        log_line(-1, "a\"b\\", "x\"y\\z\nw\rv"),
        "{\"ts\":-1,\"level\":\"a\\\"b\\\\\",\"message\":\"x\\\"y\\\\z\\nw\\rv\"}\n"
    );
    let line = log_line(1, "e", "multi\nline\r\n");
    assert_eq!(line.matches('\n').count(), 1);
    assert!(line.ends_with('\n'));
}

#[test]
fn log_line_escapes_level_and_control_characters() {
    let line = log_line(7, "warn\nx", "tab\there\u{8}\u{c}\u{1}\u{1f}é");
    assert_eq!(
        line,
        "{\"ts\":7,\"level\":\"warn\\nx\",\"message\":\"tab\\there\\b\\f\\u0001\\u001fé\"}\n"
    );
    assert_eq!(line.matches('\n').count(), 1);
    assert!(line[..line.len() - 1].chars().all(|c| c as u32 >= 0x20));
    let v: serde_json::Value = serde_json::from_str(line.trim_end()).unwrap();
    assert_eq!(v["ts"].as_i64(), Some(7));
    assert_eq!(v["level"].as_str(), Some("warn\nx"));
    assert_eq!(v["message"].as_str(), Some("tab\there\u{8}\u{c}\u{1}\u{1f}é"));
}

#[test]
fn stubs_report_what_they_need() {
    match js_eval("1".to_string()) {
        Err(CommandError::Other(m)) => assert_eq!(m, "js_eval 暂未实现：需要 JS 引擎"),
        other => panic!("unexpected {:?}", other),
    }
    match repository_fetch("http://r".to_string()) {
        Err(e) => assert_eq!(e.message(), "repository_fetch 暂未实现：需要 HTTP 客户端 + 书源 JSON 协议解析"),
        Ok(_) => panic!("must fail"),
    }
    let args = RepositoryInstallArgs { download_url: None, file_name: None, expected_uuid: None };
    assert!(matches!(repository_install(args), Err(CommandError::Other(_))));
    assert!(explore_clear_cache().is_ok());
}

#[test]
fn storage_dump_helpers() {
    assert_eq!(dump_namespace("reader.json"), Some("reader".to_string()));
    assert_eq!(dump_namespace("reader.json.tmp"), None);
    assert_eq!(dump_namespace("a.tmp.json"), Some("a.tmp".to_string()));
    let d = StoragePath::at("/data".to_string());
    let (a, b) = dump_paths(&d);
    assert_eq!(segs(&a), vec!["app-config-overrides.json"]);
    assert_eq!(segs(&b), vec!["bookshelf", "books.json"]);
}

#[test]
fn local_addresses() {
    let addrs = vec![[127u8, 0, 0, 1], [192, 168, 1, 20], [10, 0, 0, 255], [127, 1, 2, 3]];
    assert_eq!(local_ipv4_texts(&addrs), vec!["192.168.1.20".to_string(), "10.0.0.255".to_string()]);
    assert!(local_ipv4_texts(&Vec::new()).is_empty());
}
