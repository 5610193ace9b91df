//! Commands whose real work needs a component the application does not
//! have yet (the book-source script engine, an HTTP client, a TTS engine,
//! an embedded browser session): each answers with an error that says what
//! it needs. Also the helpers of the storage dump and of the local address
//! listing.
use vstd::prelude::*;

use crate::bookshelf::storage::books_file;
use crate::errors::{not_implemented, CommandError, ErrorKind};
use crate::paths::{spec_extension, spec_file_stem, split_file_name, StoragePath};
use crate::json::{json_parses, parse_json_value, JsonValue};
use crate::text::{int_decimal, is_blank, push_text, same_text, trimmed, u64_decimal};

verus! {

/// JSON values pass through these commands untouched.
#[verifier::external_type_specification]
#[verifier::external_body]
pub struct ExJsonValue(serde_json::Value);

/// What a repository install would fetch.
#[derive(Debug)]
pub struct RepositoryInstallArgs {
    pub download_url: Option<String>,
    pub file_name: Option<String>,
    pub expected_uuid: Option<String>,
}

/// Not available yet: 需要 HTTP 客户端 + 书源 JSON 协议解析.
pub fn repository_fetch(url: String) -> (r: Result<serde_json::Value, CommandError>)
    ensures
        r matches Err(e) && e.kind() == ErrorKind::Other && e.text() == "repository_fetch"@ + " 暂未实现："@ + "需要 HTTP 客户端 + 书源 JSON 协议解析"@,
{
    Err(not_implemented("repository_fetch", "需要 HTTP 客户端 + 书源 JSON 协议解析"))
}

/// Not available yet: 需要 HTTP 下载 + 书源安装逻辑.
pub fn repository_install(args: RepositoryInstallArgs) -> (r: Result<(), CommandError>)
    ensures
        r matches Err(e) && e.kind() == ErrorKind::Other && e.text() == "repository_install"@ + " 暂未实现："@ + "需要 HTTP 下载 + 书源安装逻辑"@,
{
    Err(not_implemented("repository_install", "需要 HTTP 下载 + 书源安装逻辑"))
}

/// Not available yet: 需要 HTTP 下载 + JS 引擎解析.
pub fn repository_preview_source() -> (r: Result<serde_json::Value, CommandError>)
    ensures
        r matches Err(e) && e.kind() == ErrorKind::Other && e.text() == "repository_preview_source"@ + " 暂未实现："@ + "需要 HTTP 下载 + JS 引擎解析"@,
{
    Err(not_implemented("repository_preview_source", "需要 HTTP 下载 + JS 引擎解析"))
}

/// Not available yet: 需要 JS 引擎对比本地 / 远程书源.
pub fn repository_check_source_sync() -> (r: Result<serde_json::Value, CommandError>)
    ensures
        r matches Err(e) && e.kind() == ErrorKind::Other && e.text() == "repository_check_source_sync"@ + " 暂未实现："@ + "需要 JS 引擎对比本地 / 远程书源"@,
{
    Err(not_implemented("repository_check_source_sync", "需要 JS 引擎对比本地 / 远程书源"))
}

/// Not available yet: 需要 Boa / QuickJS 等 JS 引擎嵌入.
pub fn booksource_eval() -> (r: Result<String, CommandError>)
    ensures
        r matches Err(e) && e.kind() == ErrorKind::Other && e.text() == "booksource_eval"@ + " 暂未实现："@ + "需要 Boa / QuickJS 等 JS 引擎嵌入"@,
{
    Err(not_implemented("booksource_eval", "需要 Boa / QuickJS 等 JS 引擎嵌入"))
}

/// Not available yet: 需要 JS 引擎 + HTTP.
pub fn booksource_search() -> (r: Result<serde_json::Value, CommandError>)
    ensures
        r matches Err(e) && e.kind() == ErrorKind::Other && e.text() == "booksource_search"@ + " 暂未实现："@ + "需要 JS 引擎 + HTTP"@,
{
    Err(not_implemented("booksource_search", "需要 JS 引擎 + HTTP"))
}

/// Not available yet: 需要 JS 引擎 + HTTP.
pub fn booksource_book_info() -> (r: Result<serde_json::Value, CommandError>)
    ensures
        r matches Err(e) && e.kind() == ErrorKind::Other && e.text() == "booksource_book_info"@ + " 暂未实现："@ + "需要 JS 引擎 + HTTP"@,
{
    Err(not_implemented("booksource_book_info", "需要 JS 引擎 + HTTP"))
}

/// Not available yet: 需要 JS 引擎 + HTTP.
pub fn booksource_chapter_list() -> (r: Result<serde_json::Value, CommandError>)
    ensures
        r matches Err(e) && e.kind() == ErrorKind::Other && e.text() == "booksource_chapter_list"@ + " 暂未实现："@ + "需要 JS 引擎 + HTTP"@,
{
    Err(not_implemented("booksource_chapter_list", "需要 JS 引擎 + HTTP"))
}

/// Not available yet: 需要 JS 引擎 + HTTP.
pub fn booksource_chapter_content() -> (r: Result<String, CommandError>)
    ensures
        r matches Err(e) && e.kind() == ErrorKind::Other && e.text() == "booksource_chapter_content"@ + " 暂未实现："@ + "需要 JS 引擎 + HTTP"@,
{
    Err(not_implemented("booksource_chapter_content", "需要 JS 引擎 + HTTP"))
}

/// Not available yet: 需要 JS 引擎 + HTTP.
pub fn booksource_explore() -> (r: Result<serde_json::Value, CommandError>)
    ensures
        r matches Err(e) && e.kind() == ErrorKind::Other && e.text() == "booksource_explore"@ + " 暂未实现："@ + "需要 JS 引擎 + HTTP"@,
{
    Err(not_implemented("booksource_explore", "需要 JS 引擎 + HTTP"))
}

/// Not available yet: 需要 JS 引擎.
pub fn booksource_call_fn() -> (r: Result<serde_json::Value, CommandError>)
    ensures
        r matches Err(e) && e.kind() == ErrorKind::Other && e.text() == "booksource_call_fn"@ + " 暂未实现："@ + "需要 JS 引擎"@,
{
    Err(not_implemented("booksource_call_fn", "需要 JS 引擎"))
}

/// Not available yet: 需要 HTTP 客户端.
pub fn booksource_http_proxy() -> (r: Result<serde_json::Value, CommandError>)
    ensures
        r matches Err(e) && e.kind() == ErrorKind::Other && e.text() == "booksource_http_proxy"@ + " 暂未实现："@ + "需要 HTTP 客户端"@,
{
    Err(not_implemented("booksource_http_proxy", "需要 HTTP 客户端"))
}

/// Not available yet: 需要 JS 引擎 + HTTP.
pub fn booksource_check_update() -> (r: Result<serde_json::Value, CommandError>)
    ensures
        r matches Err(e) && e.kind() == ErrorKind::Other && e.text() == "booksource_check_update"@ + " 暂未实现："@ + "需要 JS 引擎 + HTTP"@,
{
    Err(not_implemented("booksource_check_update", "需要 JS 引擎 + HTTP"))
}

/// Not available yet: 需要 JS 引擎 + HTTP.
pub fn booksource_apply_update() -> (r: Result<(), CommandError>)
    ensures
        r matches Err(e) && e.kind() == ErrorKind::Other && e.text() == "booksource_apply_update"@ + " 暂未实现："@ + "需要 JS 引擎 + HTTP"@,
{
    Err(not_implemented("booksource_apply_update", "需要 JS 引擎 + HTTP"))
}

/// Not available yet: 需要 JS 引擎.
pub fn booksource_run_tests() -> (r: Result<serde_json::Value, CommandError>)
    ensures
        r matches Err(e) && e.kind() == ErrorKind::Other && e.text() == "booksource_run_tests"@ + " 暂未实现："@ + "需要 JS 引擎"@,
{
    Err(not_implemented("booksource_run_tests", "需要 JS 引擎"))
}

/// Not available yet: 需要 JS 引擎.
pub fn booksource_test() -> (r: Result<serde_json::Value, CommandError>)
    ensures
        r matches Err(e) && e.kind() == ErrorKind::Other && e.text() == "booksource_test"@ + " 暂未实现："@ + "需要 JS 引擎"@,
{
    Err(not_implemented("booksource_test", "需要 JS 引擎"))
}

/// Not available yet: 需要 JS 引擎.
pub fn booksource_compile_to_installed() -> (r: Result<(), CommandError>)
    ensures
        r matches Err(e) && e.kind() == ErrorKind::Other && e.text() == "booksource_compile_to_installed"@ + " 暂未实现："@ + "需要 JS 引擎"@,
{
    Err(not_implemented("booksource_compile_to_installed", "需要 JS 引擎"))
}

/// Not available yet: 需要 HTTP 抓取 + JS 引擎.
pub fn booksource_analyze_url() -> (r: Result<serde_json::Value, CommandError>)
    ensures
        r matches Err(e) && e.kind() == ErrorKind::Other && e.text() == "booksource_analyze_url"@ + " 暂未实现："@ + "需要 HTTP 抓取 + JS 引擎"@,
{
    Err(not_implemented("booksource_analyze_url", "需要 HTTP 抓取 + JS 引擎"))
}

/// Not available yet: 桌面端走 Tauri dialog plugin 直连；Harmony 选择器待补.
pub fn booksource_pick_dir() -> (r: Result<String, CommandError>)
    ensures
        r matches Err(e) && e.kind() == ErrorKind::Other && e.text() == "booksource_pick_dir"@ + " 暂未实现："@ + "桌面端走 Tauri dialog plugin 直连；Harmony 选择器待补"@,
{
    Err(not_implemented("booksource_pick_dir", "桌面端走 Tauri dialog plugin 直连；Harmony 选择器待补"))
}

/// Not available yet: 脚本 KV 待补.
pub fn config_read() -> (r: Result<String, CommandError>)
    ensures
        r matches Err(e) && e.kind() == ErrorKind::Other && e.text() == "config_read"@ + " 暂未实现："@ + "脚本 KV 待补"@,
{
    Err(not_implemented("config_read", "脚本 KV 待补"))
}

/// Not available yet: 脚本 KV 待补.
pub fn config_write() -> (r: Result<(), CommandError>)
    ensures
        r matches Err(e) && e.kind() == ErrorKind::Other && e.text() == "config_write"@ + " 暂未实现："@ + "脚本 KV 待补"@,
{
    Err(not_implemented("config_write", "脚本 KV 待补"))
}

/// Not available yet: 脚本 KV 待补.
pub fn config_write_json() -> (r: Result<(), CommandError>)
    ensures
        r matches Err(e) && e.kind() == ErrorKind::Other && e.text() == "config_write_json"@ + " 暂未实现："@ + "脚本 KV 待补"@,
{
    Err(not_implemented("config_write_json", "脚本 KV 待补"))
}

/// Not available yet: 脚本 KV 待补.
pub fn config_delete_key() -> (r: Result<(), CommandError>)
    ensures
        r matches Err(e) && e.kind() == ErrorKind::Other && e.text() == "config_delete_key"@ + " 暂未实现："@ + "脚本 KV 待补"@,
{
    Err(not_implemented("config_delete_key", "脚本 KV 待补"))
}

/// Not available yet: 脚本 KV 待补.
pub fn config_read_all() -> (r: Result<serde_json::Value, CommandError>)
    ensures
        r matches Err(e) && e.kind() == ErrorKind::Other && e.text() == "config_read_all"@ + " 暂未实现："@ + "脚本 KV 待补"@,
{
    Err(not_implemented("config_read_all", "脚本 KV 待补"))
}

/// Not available yet: 脚本 KV 待补.
pub fn config_read_json() -> (r: Result<serde_json::Value, CommandError>)
    ensures
        r matches Err(e) && e.kind() == ErrorKind::Other && e.text() == "config_read_json"@ + " 暂未实现："@ + "脚本 KV 待补"@,
{
    Err(not_implemented("config_read_json", "脚本 KV 待补"))
}

/// Not available yet: 脚本 KV 待补.
pub fn config_clear(scope: String) -> (r: Result<(), CommandError>)
    ensures
        r matches Err(e) && e.kind() == ErrorKind::Other && e.text() == "config_clear"@ + " 暂未实现："@ + "脚本 KV 待补"@,
{
    Err(not_implemented("config_clear", "脚本 KV 待补"))
}

/// Not available yet: 脚本 KV 待补.
pub fn config_read_bytes() -> (r: Result<Vec<u8>, CommandError>)
    ensures
        r matches Err(e) && e.kind() == ErrorKind::Other && e.text() == "config_read_bytes"@ + " 暂未实现："@ + "脚本 KV 待补"@,
{
    Err(not_implemented("config_read_bytes", "脚本 KV 待补"))
}

/// Not available yet: 脚本 KV 待补.
pub fn config_write_bytes() -> (r: Result<(), CommandError>)
    ensures
        r matches Err(e) && e.kind() == ErrorKind::Other && e.text() == "config_write_bytes"@ + " 暂未实现："@ + "脚本 KV 待补"@,
{
    Err(not_implemented("config_write_bytes", "脚本 KV 待补"))
}

/// Not available yet: 脚本 KV 待补.
pub fn config_list_scopes() -> (r: Result<Vec<String>, CommandError>)
    ensures
        r matches Err(e) && e.kind() == ErrorKind::Other && e.text() == "config_list_scopes"@ + " 暂未实现："@ + "脚本 KV 待补"@,
{
    Err(not_implemented("config_list_scopes", "脚本 KV 待补"))
}

/// Not available yet: 脚本 KV 待补.
pub fn config_dump_scope() -> (r: Result<serde_json::Value, CommandError>)
    ensures
        r matches Err(e) && e.kind() == ErrorKind::Other && e.text() == "config_dump_scope"@ + " 暂未实现："@ + "脚本 KV 待补"@,
{
    Err(not_implemented("config_dump_scope", "脚本 KV 待补"))
}

/// Not available yet: 需要 JS 引擎.
pub fn js_eval(code: String) -> (r: Result<String, CommandError>)
    ensures
        r matches Err(e) && e.kind() == ErrorKind::Other && e.text() == "js_eval"@ + " 暂未实现："@ + "需要 JS 引擎"@,
{
    Err(not_implemented("js_eval", "需要 JS 引擎"))
}

/// Not available yet: 需要 JS 引擎事件循环.
pub fn script_dialog_result() -> (r: Result<(), CommandError>)
    ensures
        r matches Err(e) && e.kind() == ErrorKind::Other && e.text() == "script_dialog_result"@ + " 暂未实现："@ + "需要 JS 引擎事件循环"@,
{
    Err(not_implemented("script_dialog_result", "需要 JS 引擎事件循环"))
}

/// Not available yet: 需要 JS 引擎.
pub fn script_repl_eval() -> (r: Result<serde_json::Value, CommandError>)
    ensures
        r matches Err(e) && e.kind() == ErrorKind::Other && e.text() == "script_repl_eval"@ + " 暂未实现："@ + "需要 JS 引擎"@,
{
    Err(not_implemented("script_repl_eval", "需要 JS 引擎"))
}

/// Nothing to do while no session or cache exists.
pub fn explore_clear_cache() -> (r: Result<(), CommandError>)
    ensures
        r is Ok,
{
    Ok(())
}

/// Not available yet: 需要 TTS 引擎（如 sherpa-onnx）.
pub fn tts_synthesize() -> (r: Result<serde_json::Value, CommandError>)
    ensures
        r matches Err(e) && e.kind() == ErrorKind::Other && e.text() == "tts_synthesize"@ + " 暂未实现："@ + "需要 TTS 引擎（如 sherpa-onnx）"@,
{
    Err(not_implemented("tts_synthesize", "需要 TTS 引擎（如 sherpa-onnx）"))
}

/// Not available yet: 需要 piper-tts 引擎.
pub fn tts_piper_synthesize() -> (r: Result<serde_json::Value, CommandError>)
    ensures
        r matches Err(e) && e.kind() == ErrorKind::Other && e.text() == "tts_piper_synthesize"@ + " 暂未实现："@ + "需要 piper-tts 引擎"@,
{
    Err(not_implemented("tts_piper_synthesize", "需要 piper-tts 引擎"))
}

/// Not available yet: 需要 HTTP 客户端 + 沙箱.
pub fn frontend_plugin_http_request() -> (r: Result<serde_json::Value, CommandError>)
    ensures
        r matches Err(e) && e.kind() == ErrorKind::Other && e.text() == "frontend_plugin_http_request"@ + " 暂未实现："@ + "需要 HTTP 客户端 + 沙箱"@,
{
    Err(not_implemented("frontend_plugin_http_request", "需要 HTTP 客户端 + 沙箱"))
}

/// Not available yet: 桌面端用 std::process；Android/Harmony 用平台 Intent.
pub fn open_dir_in_explorer(path: String) -> (r: Result<(), CommandError>)
    ensures
        r matches Err(e) && e.kind() == ErrorKind::Other && e.text() == "open_dir_in_explorer"@ + " 暂未实现："@ + "桌面端用 std::process；Android/Harmony 用平台 Intent"@,
{
    Err(not_implemented("open_dir_in_explorer", "桌面端用 std::process；Android/Harmony 用平台 Intent"))
}

/// Not available yet: Harmony 系统保存器集成待补；桌面端走 Tauri dialog + fs plugin.
pub fn export_save_file() -> (r: Result<Option<String>, CommandError>)
    ensures
        r matches Err(e) && e.kind() == ErrorKind::Other && e.text() == "export_save_file"@ + " 暂未实现："@ + "Harmony 系统保存器集成待补；桌面端走 Tauri dialog + fs plugin"@,
{
    Err(not_implemented("export_save_file", "Harmony 系统保存器集成待补；桌面端走 Tauri dialog + fs plugin"))
}

/// Not available yet: 需要内嵌浏览器会话管理（独立 WebView + JS 桥）.
pub fn browser_probe_create(options: Option<serde_json::Value>) -> (r: Result<String, CommandError>)
    ensures
        r matches Err(e) && e.kind() == ErrorKind::Other && e.text() == "browser_probe_create"@ + " 暂未实现："@ + "需要内嵌浏览器会话管理（独立 WebView + JS 桥）"@,
{
    Err(not_implemented("browser_probe_create", "需要内嵌浏览器会话管理（独立 WebView + JS 桥）"))
}

/// Not available yet: 需要内嵌浏览器会话.
pub fn browser_probe_navigate(session_id: String, url: String, options: Option<serde_json::Value>) -> (r: Result<(), CommandError>)
    ensures
        r matches Err(e) && e.kind() == ErrorKind::Other && e.text() == "browser_probe_navigate"@ + " 暂未实现："@ + "需要内嵌浏览器会话"@,
{
    Err(not_implemented("browser_probe_navigate", "需要内嵌浏览器会话"))
}

/// Not available yet: 需要内嵌浏览器会话.
pub fn browser_probe_eval(session_id: String, code: String, options: Option<serde_json::Value>) -> (r: Result<serde_json::Value, CommandError>)
    ensures
        r matches Err(e) && e.kind() == ErrorKind::Other && e.text() == "browser_probe_eval"@ + " 暂未实现："@ + "需要内嵌浏览器会话"@,
{
    Err(not_implemented("browser_probe_eval", "需要内嵌浏览器会话"))
}

/// Not available yet: 需要内嵌浏览器会话.
pub fn browser_probe_run(url: String, code: String, options: Option<serde_json::Value>) -> (r: Result<serde_json::Value, CommandError>)
    ensures
        r matches Err(e) && e.kind() == ErrorKind::Other && e.text() == "browser_probe_run"@ + " 暂未实现："@ + "需要内嵌浏览器会话"@,
{
    Err(not_implemented("browser_probe_run", "需要内嵌浏览器会话"))
}

/// Not available yet: 需要内嵌浏览器会话.
pub fn browser_probe_get_cookies(url: Option<String>) -> (r: Result<serde_json::Value, CommandError>)
    ensures
        r matches Err(e) && e.kind() == ErrorKind::Other && e.text() == "browser_probe_get_cookies"@ + " 暂未实现："@ + "需要内嵌浏览器会话"@,
{
    Err(not_implemented("browser_probe_get_cookies", "需要内嵌浏览器会话"))
}

/// Not available yet: 需要内嵌浏览器会话.
pub fn browser_probe_set_cookie(url: String, cookie: serde_json::Value) -> (r: Result<(), CommandError>)
    ensures
        r matches Err(e) && e.kind() == ErrorKind::Other && e.text() == "browser_probe_set_cookie"@ + " 暂未实现："@ + "需要内嵌浏览器会话"@,
{
    Err(not_implemented("browser_probe_set_cookie", "需要内嵌浏览器会话"))
}

/// Not available yet: 需要内嵌浏览器会话.
pub fn browser_probe_set_user_agent(user_agent: String) -> (r: Result<(), CommandError>)
    ensures
        r matches Err(e) && e.kind() == ErrorKind::Other && e.text() == "browser_probe_set_user_agent"@ + " 暂未实现："@ + "需要内嵌浏览器会话"@,
{
    Err(not_implemented("browser_probe_set_user_agent", "需要内嵌浏览器会话"))
}

/// Not available yet: 需要内嵌浏览器会话.
pub fn browser_probe_clear_data() -> (r: Result<(), CommandError>)
    ensures
        r matches Err(e) && e.kind() == ErrorKind::Other && e.text() == "browser_probe_clear_data"@ + " 暂未实现："@ + "需要内嵌浏览器会话"@,
{
    Err(not_implemented("browser_probe_clear_data", "需要内嵌浏览器会话"))
}

/// Not available yet: 需要内嵌浏览器会话.
pub fn browser_probe_show(session_id: String) -> (r: Result<(), CommandError>)
    ensures
        r matches Err(e) && e.kind() == ErrorKind::Other && e.text() == "browser_probe_show"@ + " 暂未实现："@ + "需要内嵌浏览器会话"@,
{
    Err(not_implemented("browser_probe_show", "需要内嵌浏览器会话"))
}

/// Not available yet: 需要内嵌浏览器会话.
pub fn browser_probe_hide(session_id: String) -> (r: Result<(), CommandError>)
    ensures
        r matches Err(e) && e.kind() == ErrorKind::Other && e.text() == "browser_probe_hide"@ + " 暂未实现："@ + "需要内嵌浏览器会话"@,
{
    Err(not_implemented("browser_probe_hide", "需要内嵌浏览器会话"))
}

/// Nothing to do while no session or cache exists.
pub fn browser_probe_close(session_id: String) -> (r: Result<(), CommandError>)
    ensures
        r is Ok,
{
    Ok(())
}

/// Nothing to do while no session or cache exists.
pub fn browser_probe_close_all() -> (r: Result<(), CommandError>)
    ensures
        r is Ok,
{
    Ok(())
}

/// Not available yet: 需要 HTTP 客户端（带 Referer 下载 + 本地缓存）.
pub fn audio_resolve_cache(request: serde_json::Value) -> (r: Result<serde_json::Value, CommandError>)
    ensures
        r matches Err(e) && e.kind() == ErrorKind::Other && e.text() == "audio_resolve_cache"@ + " 暂未实现："@ + "需要 HTTP 客户端（带 Referer 下载 + 本地缓存）"@,
{
    Err(not_implemented("audio_resolve_cache", "需要 HTTP 客户端（带 Referer 下载 + 本地缓存）"))
}

// ── storage dump ─────────────────────────────────────────────────────────

/// The namespace under which the dump shows a file of the storage
/// directory: the stem of a `.json` file.
pub open spec fn spec_dump_namespace(file_name: Seq<char>) -> Option<Seq<char>> {
    if spec_extension(file_name) == Some("json"@) {
        Some(spec_file_stem(file_name))
    } else {
        None
    }
}

/// Which namespace, if any, the dump shows a directory entry under.
pub fn dump_namespace(file_name: &str) -> (r: Option<String>)
    ensures
        r matches Some(ns) ==> spec_dump_namespace(file_name@) == Some(ns@),
        r is None ==> spec_dump_namespace(file_name@) is None,
{
    let (stem, ext) = split_file_name(file_name);
    let is_json = match &ext {
        Some(e) => same_text(e.as_str(), "json"),
        None => false,
    };
    if is_json {
        Some(stem)
    } else {
        None
    }
}

/// What the dump shows for a namespace file's text: the JSON value of the
/// whole text; `None` (shown as an empty object) for a blank file or a text
/// that is not JSON.
pub fn dump_namespace_value(raw: &str) -> (r: Option<JsonValue>)
    ensures
        r is Some <==> trimmed(raw@).len() > 0 && json_parses(raw@),
        r matches Some(v) ==> v.source() == raw@ && v.path() == Seq::<Seq<char>>::empty(),
{
    if is_blank(raw) {
        return None;
    }
    match parse_json_value(raw) {
        Ok(p) => Some(p.json),
        Err(_) => None,
    }
}

/// What the dump shows for the overrides file (`None` when there is no
/// file): the JSON value of the whole text; `None` (shown as `null`) for a
/// missing file or a text that is not JSON.
pub fn dump_config_value(raw: Option<&str>) -> (r: Option<JsonValue>)
    ensures
        r is Some <==> (raw matches Some(t) && json_parses(t@)),
        r matches Some(v) ==> (raw matches Some(t) && v.source() == t@ && v.path() == Seq::<Seq<char>>::empty()),
{
    match raw {
        None => None,
        Some(t) => match parse_json_value(t) {
            Ok(p) => Some(p.json),
            Err(_) => None,
        },
    }
}

/// The two files the dump names: the configuration overrides and the
/// bookshelf.
pub fn dump_paths(data_dir: &StoragePath) -> (r: (StoragePath, StoragePath))
    ensures
        r.0@ == data_dir@.join("app-config-overrides.json"@),
        r.1@ == data_dir@.join("bookshelf"@).join("books.json"@),
{
    (data_dir.join_str("app-config-overrides.json"), books_file(data_dir))
}

// ── local addresses ──────────────────────────────────────────────────────

/// `127.0.0.0/8`, as `Ipv4Addr::is_loopback` says.
pub open spec fn is_loopback(a: [u8; 4]) -> bool {
    a@[0] == 127
}

/// Dotted-decimal text of an IPv4 address.
pub open spec fn ipv4_text(a: [u8; 4]) -> Seq<char> {
    int_decimal(a@[0] as int) + "."@ + int_decimal(a@[1] as int) + "."@ + int_decimal(a@[2] as int) + "."@
        + int_decimal(a@[3] as int)
}

/// The texts of the non-loopback addresses, in order.
pub open spec fn shown_addresses(s: Seq<[u8; 4]>) -> Seq<Seq<char>>
    decreases s.len(),
{
    if s.len() == 0 {
        Seq::empty()
    } else if is_loopback(s.last()) {
        shown_addresses(s.drop_last())
    } else {
        shown_addresses(s.drop_last()).push(ipv4_text(s.last()))
    }
}

fn ipv4_string(a: [u8; 4]) -> (r: String)
    ensures
        r@ == ipv4_text(a),
{
    let mut s = u64_decimal(a[0] as u64);
    push_text(&mut s, ".");
    push_text(&mut s, u64_decimal(a[1] as u64).as_str());
    push_text(&mut s, ".");
    push_text(&mut s, u64_decimal(a[2] as u64).as_str());
    push_text(&mut s, ".");
    push_text(&mut s, u64_decimal(a[3] as u64).as_str());
    s
}

/// The local IPv4 addresses the front end offers, from the interface
/// addresses the host found: loopback ones left out, each as dotted decimal.
pub fn local_ipv4_texts(addrs: &Vec<[u8; 4]>) -> (r: Vec<String>)
    ensures
        crate::json::texts(r@) == shown_addresses(addrs@),
{
    let mut out: Vec<String> = Vec::new();
    let n = addrs.len();
    for i in 0..n
        invariant
            n == addrs@.len(),
            crate::json::texts(out@) == shown_addresses(addrs@.take(i as int)),
    {
        let a = addrs[i];
        let ghost before = crate::json::texts(out@);
        proof {
            assert(addrs@.take(i + 1).drop_last() =~= addrs@.take(i as int));
            assert(addrs@.take(i + 1).last() == a);
        }
        if a[0] != 127 {
            let t = ipv4_string(a);
            out.push(t);
            assert(crate::json::texts(out@) =~= before.push(ipv4_text(a)));
        }
    }
    assert(addrs@.take(n as int) =~= addrs@);
    out
}

} // verus!
