//! Application settings: built-in defaults overlaid with the keys the user
//! changed, which live in `<data_dir>/app-config-overrides.json`.
use vstd::prelude::*;

use crate::errors::{CommandError, ErrorKind};
use crate::json::{json_value_outcome, member_keys, parse_json_value, JsonValue};
use crate::kvmap::{
    entries_map, has_key, insert_all, key_index, lemma_dom_len, lemma_insert_all_sorted, lemma_key_index, sorted_keys,
    TextMap,
};
use crate::paths::{PathView, StoragePath};
use crate::text::{is_blank, owned, text_lt, trimmed};

verus! {

/// A default setting value.
#[derive(Debug)]
pub enum ConfigValue {
    Text(String),
    Flag(bool),
    Unsigned(u32),
    Signed(i32),
    /// An `f32`, as its bit pattern.
    Float32Bits(u32),
}

pub open spec fn spec_overrides_path(d: PathView) -> PathView {
    d.join("app-config-overrides.json"@)
}

/// `<data_dir>/app-config-overrides.json`: only the keys the user changed.
pub fn overrides_path(data_dir: &StoragePath) -> (p: StoragePath)
    ensures
        p@ == spec_overrides_path(data_dir@),
{
    data_dir.join_str("app-config-overrides.json")
}

/// Where the overrides are written before they replace the old file.
pub fn overrides_tmp_path(data_dir: &StoragePath) -> (p: StoragePath)
    ensures
        p@ == data_dir@.join("app-config-overrides.json.tmp"@),
{
    data_dir.join_str("app-config-overrides.json.tmp")
}

/// The error when the overrides file does not hold a JSON object.
pub fn overrides_not_object() -> (e: CommandError)
    ensures
        e.kind() == ErrorKind::Other,
        e.text() == "app-config-overrides.json 顶层必须是对象"@,
{
    CommandError::Other(owned("app-config-overrides.json 顶层必须是对象"))
}

/// The user's overrides, from the file's text (`None` when there is no
/// file): none for a missing or blank file; else the members of the JSON
/// object the text holds, each key with the value under it in that text; a
/// `Serde` error with the parser's message when the text is not JSON, and
/// `overrides_not_object` when it is JSON but no object.
pub fn parse_overrides(raw: Option<&str>) -> (r: Result<TextMap<JsonValue>, CommandError>)
    ensures
        raw is None ==> (r matches Ok(m) && m.map().dom().len() == 0),
        raw matches Some(t) ==> (if trimmed(t@).len() == 0 {
            r matches Ok(m) && m.map().dom().len() == 0
        } else {
            match json_value_outcome(t@) {
                Err(msg) => r matches Err(e) && e.kind() == ErrorKind::Serde && e.text() == msg,
                Ok(None) => r matches Err(e) && e.kind() == ErrorKind::Other && e.text()
                    == "app-config-overrides.json 顶层必须是对象"@,
                Ok(Some(keys)) => r matches Ok(m) && m.map().dom() == keys.to_set() && m.map().dom().len()
                    == keys.len() && forall|k: Seq<char>|
                    m.map().dom().contains(k) ==> (#[trigger] m.map()[k]).source() == t@ && m.map()[k].path()
                        == seq![k],
            }
        }),
{
    let t = match raw {
        None => {
            let m = TextMap::new();
            assert(m.map().dom() =~= Set::empty());
            return Ok(m);
        },
        Some(t) => t,
    };
    if is_blank(t) {
        let m = TextMap::new();
        assert(m.map().dom() =~= Set::empty());
        return Ok(m);
    }
    match parse_json_value(t) {
        Err(msg) => Err(CommandError::Serde(msg)),
        Ok(p) => match p.members {
            None => Err(overrides_not_object()),
            Some(v) => {
                let ghost s = v@;
                let m = TextMap::from_entries(v);
                proof {
                    lemma_insert_all_sorted(Map::<Seq<char>, JsonValue>::empty(), s);
                    lemma_dom_len(s);
                    assert(Map::<Seq<char>, JsonValue>::empty().union_prefer_right(entries_map(s)) =~= entries_map(
                        s,
                    ));
                    let keys = member_keys(s);
                    assert forall|k: Seq<char>| #[trigger] m.map().dom().contains(k) <==> keys.to_set().contains(k) by {
                        if has_key(s, k) {
                            let i = key_index(s, k);
                            assert(keys[i] == k);
                        }
                        if keys.contains(k) {
                            let i = choose|i: int| 0 <= i < keys.len() && keys[i] == k;
                            assert(s[i].0@ == k);
                        }
                    }
                    assert(m.map().dom() =~= keys.to_set());
                    assert forall|k: Seq<char>| m.map().dom().contains(k) implies (#[trigger] m.map()[k]).source() == t@
                        && m.map()[k].path() == seq![k] by {
                        let i = key_index(s, k);
                        assert(s[i].0@ == k);
                        assert(m.map()[k] == s[i].1);
                    }
                }
                Ok(m)
            },
        },
    }
}

/// The overrides' values themselves, under the same keys.
pub fn override_values(m: TextMap<JsonValue>) -> (r: TextMap<serde_json::Value>)
    ensures
        r.map().dom() == m.map().dom(),
        forall|k: Seq<char>| r.map().dom().contains(k) ==> #[trigger] r.map()[k] == m.map()[k].json(),
{
    let ghost mm = m.map();
    let mut rest = m.into_entries();
    let ghost all = rest@;
    let mut out: Vec<(String, serde_json::Value)> = Vec::new();
    while rest.len() > 0
        invariant
            sorted_keys(all),
            mm == entries_map(all),
            out@.len() + rest@.len() == all.len(),
            rest@ == all.skip(out@.len() as int),
            forall|i: int| 0 <= i < out@.len() ==> (#[trigger] out@[i]).0 == all[i].0 && out@[i].1 == all[i].1.json(),
        decreases rest@.len(),
    {
        let ghost d = out@.len();
        let (k, v) = rest.remove(0);
        proof {
            assert(all[d as int] == (k, v));
        }
        out.push((k, v.into_value()));
        proof {
            assert(rest@ =~= all.skip(out@.len() as int));
        }
    }
    let ghost o = out@;
    assert(sorted_keys(o)) by {
        assert forall|i: int, j: int| 0 <= i < j < o.len() implies text_lt(#[trigger] o[i].0@, #[trigger] o[j].0@) by {
            assert(o[i].0 == all[i].0);
            assert(o[j].0 == all[j].0);
        }
    }
    let r = TextMap::from_entries(out);
    proof {
        lemma_insert_all_sorted(Map::<Seq<char>, serde_json::Value>::empty(), o);
        assert(Map::<Seq<char>, serde_json::Value>::empty().union_prefer_right(entries_map(o)) =~= entries_map(o));
        assert forall|k: Seq<char>| #[trigger] has_key(o, k) <==> has_key(all, k) by {
            if has_key(o, k) {
                let i = key_index(o, k);
                assert(all[i].0 == o[i].0);
            }
            if has_key(all, k) {
                let i = key_index(all, k);
                assert(all[i].0 == o[i].0);
            }
        }
        assert(r.map().dom() =~= mm.dom());
        assert forall|k: Seq<char>| r.map().dom().contains(k) implies #[trigger] r.map()[k] == mm[k].json() by {
            let i = key_index(all, k);
            lemma_key_index(all, i);
            assert(o[i].0 == all[i].0);
            lemma_key_index(o, i);
        }
    }
    r
}

/// Application settings with their built-in defaults (the front end's
/// `AppConfig`, keys in snake_case). `video_default_rate` is an `f32`, held
/// as its bit pattern.
#[derive(Debug)]
pub struct AppConfig {
    pub http_user_agent: String,
    pub http_follow_redirects: bool,
    pub http_connect_timeout_secs: u32,
    pub http_ignore_tls_errors: bool,
    pub http_doh_server: String,
    pub proxy_mode: String,
    pub proxy_type: String,
    pub proxy_host: String,
    pub proxy_port: u32,
    pub proxy_username: String,
    pub proxy_password: String,
    pub engine_timeout_secs: u32,
    pub booksource_watcher_enabled: bool,
    pub browser_probe_enabled: bool,
    pub browser_probe_user_agent: String,
    pub browser_probe_timeout_secs: u32,
    pub browser_probe_visible_by_default: bool,
    pub browser_probe_force_visible: bool,
    pub browser_probe_persist_profile: bool,
    pub comic_cache_enabled: bool,
    pub ui_theme: String,
    pub ui_density: String,
    pub ui_enable_aplus_tracking: bool,
    pub video_player_type: String,
    pub video_default_rate_bits: u32,
    pub video_auto_next: bool,
    pub video_quality_prefer: String,
    pub video_remember_progress: bool,
    pub video_seek_step_secs: u32,
    pub video_vjs_preload: String,
    pub video_vjs_pip: bool,
    pub video_xg_download: bool,
    pub video_dp_danmaku: bool,
    pub video_dp_theme: String,
    pub video_autoplay: bool,
    pub web_server_enabled: bool,
    pub web_server_port: u32,
    pub web_server_dist_path: String,
    pub request_min_delay_ms: u32,
    pub cache_prefetch_count: i32,
    pub cache_prefetch_concurrency: u32,
    pub export_prefetch_concurrency: u32,
    pub sync_enabled: bool,
    pub sync_provider: String,
    pub sync_profile_id: String,
    pub sync_webdav_url: String,
    pub sync_webdav_username: String,
    pub sync_webdav_root_dir: String,
    pub sync_webdav_allow_http: bool,
    pub sync_trigger_enabled: bool,
    pub sync_timer_enabled: bool,
    pub sync_timer_interval_secs: u32,
    pub sync_trigger_on_startup: bool,
    pub sync_trigger_on_resume: bool,
    pub sync_trigger_on_unlock_resume: bool,
    pub sync_trigger_on_bookshelf_change: bool,
    pub sync_trigger_on_booksource_change: bool,
    pub sync_trigger_on_settings_change: bool,
    pub sync_scope_bookshelf: bool,
    pub sync_scope_reading_progress: bool,
    pub sync_scope_booksources: bool,
    pub sync_scope_reader_settings: bool,
    pub sync_scope_app_settings: bool,
    pub sync_scope_source_flags: bool,
    pub sync_scope_extensions: bool,
    pub sync_scope_script_config: bool,
    pub sync_mobile_foreground_only: bool,
    pub sync_mobile_screen_on_only: bool,
    pub sync_mobile_wifi_only: bool,
    pub sync_mobile_pause_on_low_battery: bool,
    pub sync_mobile_startup_delay_ms: u32,
    pub sync_mobile_resume_delay_ms: u32,
    pub sync_baidu_app_name: String,
}

impl Default for AppConfig {
    fn default() -> (r: Self)
        ensures
            r.http_user_agent@ == "Mozilla/5.0 (Windows NT 10.0; Win64; x64) AppleWebKit/537.36 (KHTML, like Gecko) Chrome/120.0.0.0 Safari/537.36"@,
            r.http_follow_redirects == true,
            r.http_connect_timeout_secs == 10,
            r.http_ignore_tls_errors == true,
            r.http_doh_server@ == "none"@,
            r.proxy_mode@ == "system"@,
            r.proxy_type@ == "http"@,
            r.proxy_host@ == ""@,
            r.proxy_port == 0,
            r.proxy_username@ == ""@,
            r.proxy_password@ == ""@,
            r.engine_timeout_secs == 30,
            r.booksource_watcher_enabled == false,
            r.browser_probe_enabled == true,
            r.browser_probe_user_agent@ == ""@,
            r.browser_probe_timeout_secs == 0,
            r.browser_probe_visible_by_default == false,
            r.browser_probe_force_visible == false,
            r.browser_probe_persist_profile == true,
            r.comic_cache_enabled == true,
            r.ui_theme@ == "auto"@,
            r.ui_density@ == "standard"@,
            r.ui_enable_aplus_tracking == true,
            r.video_player_type@ == "xgplayer"@,
            r.video_default_rate_bits == 0x3f80_0000u32,
            r.video_auto_next == true,
            r.video_quality_prefer@ == "auto"@,
            r.video_remember_progress == true,
            r.video_seek_step_secs == 10,
            r.video_vjs_preload@ == "auto"@,
            r.video_vjs_pip == true,
            r.video_xg_download == false,
            r.video_dp_danmaku == false,
            r.video_dp_theme@ == "#00b1ff"@,
            r.video_autoplay == true,
            r.web_server_enabled == false,
            r.web_server_port == 7688,
            r.web_server_dist_path@ == ""@,
            r.request_min_delay_ms == 300,
            r.cache_prefetch_count == 3,
            r.cache_prefetch_concurrency == 2,
            r.export_prefetch_concurrency == 3,
            r.sync_enabled == false,
            r.sync_provider@ == "webdav"@,
            r.sync_profile_id@ == "default"@,
            r.sync_webdav_url@ == ""@,
            r.sync_webdav_username@ == ""@,
            r.sync_webdav_root_dir@ == "legado-sync"@,
            r.sync_webdav_allow_http == false,
            r.sync_trigger_enabled == true,
            r.sync_timer_enabled == false,
            r.sync_timer_interval_secs == 900,
            r.sync_trigger_on_startup == true,
            r.sync_trigger_on_resume == true,
            r.sync_trigger_on_unlock_resume == true,
            r.sync_trigger_on_bookshelf_change == false,
            r.sync_trigger_on_booksource_change == false,
            r.sync_trigger_on_settings_change == false,
            r.sync_scope_bookshelf == true,
            r.sync_scope_reading_progress == true,
            r.sync_scope_booksources == true,
            r.sync_scope_reader_settings == true,
            r.sync_scope_app_settings == true,
            r.sync_scope_source_flags == false,
            r.sync_scope_extensions == false,
            r.sync_scope_script_config == false,
            r.sync_mobile_foreground_only == true,
            r.sync_mobile_screen_on_only == true,
            r.sync_mobile_wifi_only == true,
            r.sync_mobile_pause_on_low_battery == true,
            r.sync_mobile_startup_delay_ms == 5000,
            r.sync_mobile_resume_delay_ms == 1500,
            r.sync_baidu_app_name@ == "legado-tauri"@,
    {
        AppConfig {
            http_user_agent: owned("Mozilla/5.0 (Windows NT 10.0; Win64; x64) AppleWebKit/537.36 (KHTML, like Gecko) Chrome/120.0.0.0 Safari/537.36"),
            http_follow_redirects: true,
            http_connect_timeout_secs: 10,
            http_ignore_tls_errors: true,
            http_doh_server: owned("none"),
            proxy_mode: owned("system"),
            proxy_type: owned("http"),
            proxy_host: owned(""),
            proxy_port: 0,
            proxy_username: owned(""),
            proxy_password: owned(""),
            engine_timeout_secs: 30,
            booksource_watcher_enabled: false,
            browser_probe_enabled: true,
            browser_probe_user_agent: owned(""),
            browser_probe_timeout_secs: 0,
            browser_probe_visible_by_default: false,
            browser_probe_force_visible: false,
            browser_probe_persist_profile: true,
            comic_cache_enabled: true,
            ui_theme: owned("auto"),
            ui_density: owned("standard"),
            ui_enable_aplus_tracking: true,
            video_player_type: owned("xgplayer"),
            video_default_rate_bits: 0x3f80_0000u32,
            video_auto_next: true,
            video_quality_prefer: owned("auto"),
            video_remember_progress: true,
            video_seek_step_secs: 10,
            video_vjs_preload: owned("auto"),
            video_vjs_pip: true,
            video_xg_download: false,
            video_dp_danmaku: false,
            video_dp_theme: owned("#00b1ff"),
            video_autoplay: true,
            web_server_enabled: false,
            web_server_port: 7688,
            web_server_dist_path: owned(""),
            request_min_delay_ms: 300,
            cache_prefetch_count: 3,
            cache_prefetch_concurrency: 2,
            export_prefetch_concurrency: 3,
            sync_enabled: false,
            sync_provider: owned("webdav"),
            sync_profile_id: owned("default"),
            sync_webdav_url: owned(""),
            sync_webdav_username: owned(""),
            sync_webdav_root_dir: owned("legado-sync"),
            sync_webdav_allow_http: false,
            sync_trigger_enabled: true,
            sync_timer_enabled: false,
            sync_timer_interval_secs: 900,
            sync_trigger_on_startup: true,
            sync_trigger_on_resume: true,
            sync_trigger_on_unlock_resume: true,
            sync_trigger_on_bookshelf_change: false,
            sync_trigger_on_booksource_change: false,
            sync_trigger_on_settings_change: false,
            sync_scope_bookshelf: true,
            sync_scope_reading_progress: true,
            sync_scope_booksources: true,
            sync_scope_reader_settings: true,
            sync_scope_app_settings: true,
            sync_scope_source_flags: false,
            sync_scope_extensions: false,
            sync_scope_script_config: false,
            sync_mobile_foreground_only: true,
            sync_mobile_screen_on_only: true,
            sync_mobile_wifi_only: true,
            sync_mobile_pause_on_low_battery: true,
            sync_mobile_startup_delay_ms: 5000,
            sync_mobile_resume_delay_ms: 1500,
            sync_baidu_app_name: owned("legado-tauri"),
        }
    }
}

/// The settings as key/value pairs, in declaration order.
pub open spec fn spec_config_entries(c: AppConfig) -> Seq<(Seq<char>, ConfigValue)> {
    seq![
        ("http_user_agent"@, ConfigValue::Text(c.http_user_agent)),
        ("http_follow_redirects"@, ConfigValue::Flag(c.http_follow_redirects)),
        ("http_connect_timeout_secs"@, ConfigValue::Unsigned(c.http_connect_timeout_secs)),
        ("http_ignore_tls_errors"@, ConfigValue::Flag(c.http_ignore_tls_errors)),
        ("http_doh_server"@, ConfigValue::Text(c.http_doh_server)),
        ("proxy_mode"@, ConfigValue::Text(c.proxy_mode)),
        ("proxy_type"@, ConfigValue::Text(c.proxy_type)),
        ("proxy_host"@, ConfigValue::Text(c.proxy_host)),
        ("proxy_port"@, ConfigValue::Unsigned(c.proxy_port)),
        ("proxy_username"@, ConfigValue::Text(c.proxy_username)),
        ("proxy_password"@, ConfigValue::Text(c.proxy_password)),
        ("engine_timeout_secs"@, ConfigValue::Unsigned(c.engine_timeout_secs)),
        ("booksource_watcher_enabled"@, ConfigValue::Flag(c.booksource_watcher_enabled)),
        ("browser_probe_enabled"@, ConfigValue::Flag(c.browser_probe_enabled)),
        ("browser_probe_user_agent"@, ConfigValue::Text(c.browser_probe_user_agent)),
        ("browser_probe_timeout_secs"@, ConfigValue::Unsigned(c.browser_probe_timeout_secs)),
        ("browser_probe_visible_by_default"@, ConfigValue::Flag(c.browser_probe_visible_by_default)),
        ("browser_probe_force_visible"@, ConfigValue::Flag(c.browser_probe_force_visible)),
        ("browser_probe_persist_profile"@, ConfigValue::Flag(c.browser_probe_persist_profile)),
        ("comic_cache_enabled"@, ConfigValue::Flag(c.comic_cache_enabled)),
        ("ui_theme"@, ConfigValue::Text(c.ui_theme)),
        ("ui_density"@, ConfigValue::Text(c.ui_density)),
        ("ui_enable_aplus_tracking"@, ConfigValue::Flag(c.ui_enable_aplus_tracking)),
        ("video_player_type"@, ConfigValue::Text(c.video_player_type)),
        ("video_default_rate"@, ConfigValue::Float32Bits(c.video_default_rate_bits)),
        ("video_auto_next"@, ConfigValue::Flag(c.video_auto_next)),
        ("video_quality_prefer"@, ConfigValue::Text(c.video_quality_prefer)),
        ("video_remember_progress"@, ConfigValue::Flag(c.video_remember_progress)),
        ("video_seek_step_secs"@, ConfigValue::Unsigned(c.video_seek_step_secs)),
        ("video_vjs_preload"@, ConfigValue::Text(c.video_vjs_preload)),
        ("video_vjs_pip"@, ConfigValue::Flag(c.video_vjs_pip)),
        ("video_xg_download"@, ConfigValue::Flag(c.video_xg_download)),
        ("video_dp_danmaku"@, ConfigValue::Flag(c.video_dp_danmaku)),
        ("video_dp_theme"@, ConfigValue::Text(c.video_dp_theme)),
        ("video_autoplay"@, ConfigValue::Flag(c.video_autoplay)),
        ("web_server_enabled"@, ConfigValue::Flag(c.web_server_enabled)),
        ("web_server_port"@, ConfigValue::Unsigned(c.web_server_port)),
        ("web_server_dist_path"@, ConfigValue::Text(c.web_server_dist_path)),
        ("request_min_delay_ms"@, ConfigValue::Unsigned(c.request_min_delay_ms)),
        ("cache_prefetch_count"@, ConfigValue::Signed(c.cache_prefetch_count)),
        ("cache_prefetch_concurrency"@, ConfigValue::Unsigned(c.cache_prefetch_concurrency)),
        ("export_prefetch_concurrency"@, ConfigValue::Unsigned(c.export_prefetch_concurrency)),
        ("sync_enabled"@, ConfigValue::Flag(c.sync_enabled)),
        ("sync_provider"@, ConfigValue::Text(c.sync_provider)),
        ("sync_profile_id"@, ConfigValue::Text(c.sync_profile_id)),
        ("sync_webdav_url"@, ConfigValue::Text(c.sync_webdav_url)),
        ("sync_webdav_username"@, ConfigValue::Text(c.sync_webdav_username)),
        ("sync_webdav_root_dir"@, ConfigValue::Text(c.sync_webdav_root_dir)),
        ("sync_webdav_allow_http"@, ConfigValue::Flag(c.sync_webdav_allow_http)),
        ("sync_trigger_enabled"@, ConfigValue::Flag(c.sync_trigger_enabled)),
        ("sync_timer_enabled"@, ConfigValue::Flag(c.sync_timer_enabled)),
        ("sync_timer_interval_secs"@, ConfigValue::Unsigned(c.sync_timer_interval_secs)),
        ("sync_trigger_on_startup"@, ConfigValue::Flag(c.sync_trigger_on_startup)),
        ("sync_trigger_on_resume"@, ConfigValue::Flag(c.sync_trigger_on_resume)),
        ("sync_trigger_on_unlock_resume"@, ConfigValue::Flag(c.sync_trigger_on_unlock_resume)),
        ("sync_trigger_on_bookshelf_change"@, ConfigValue::Flag(c.sync_trigger_on_bookshelf_change)),
        ("sync_trigger_on_booksource_change"@, ConfigValue::Flag(c.sync_trigger_on_booksource_change)),
        ("sync_trigger_on_settings_change"@, ConfigValue::Flag(c.sync_trigger_on_settings_change)),
        ("sync_scope_bookshelf"@, ConfigValue::Flag(c.sync_scope_bookshelf)),
        ("sync_scope_reading_progress"@, ConfigValue::Flag(c.sync_scope_reading_progress)),
        ("sync_scope_booksources"@, ConfigValue::Flag(c.sync_scope_booksources)),
        ("sync_scope_reader_settings"@, ConfigValue::Flag(c.sync_scope_reader_settings)),
        ("sync_scope_app_settings"@, ConfigValue::Flag(c.sync_scope_app_settings)),
        ("sync_scope_source_flags"@, ConfigValue::Flag(c.sync_scope_source_flags)),
        ("sync_scope_extensions"@, ConfigValue::Flag(c.sync_scope_extensions)),
        ("sync_scope_script_config"@, ConfigValue::Flag(c.sync_scope_script_config)),
        ("sync_mobile_foreground_only"@, ConfigValue::Flag(c.sync_mobile_foreground_only)),
        ("sync_mobile_screen_on_only"@, ConfigValue::Flag(c.sync_mobile_screen_on_only)),
        ("sync_mobile_wifi_only"@, ConfigValue::Flag(c.sync_mobile_wifi_only)),
        ("sync_mobile_pause_on_low_battery"@, ConfigValue::Flag(c.sync_mobile_pause_on_low_battery)),
        ("sync_mobile_startup_delay_ms"@, ConfigValue::Unsigned(c.sync_mobile_startup_delay_ms)),
        ("sync_mobile_resume_delay_ms"@, ConfigValue::Unsigned(c.sync_mobile_resume_delay_ms)),
        ("sync_baidu_app_name"@, ConfigValue::Text(c.sync_baidu_app_name)),
    ]
}

/// The settings as key/value pairs, in declaration order (the object the
/// front end receives, before overrides).
pub fn config_entries(c: &AppConfig) -> (r: Vec<(String, ConfigValue)>)
    ensures
        r@.map_values(|e: (String, ConfigValue)| (e.0@, e.1)) == spec_config_entries(*c),
{
    let mut r: Vec<(String, ConfigValue)> = Vec::new();
    r.push((owned("http_user_agent"), ConfigValue::Text(c.http_user_agent.clone())));
    r.push((owned("http_follow_redirects"), ConfigValue::Flag(c.http_follow_redirects)));
    r.push((owned("http_connect_timeout_secs"), ConfigValue::Unsigned(c.http_connect_timeout_secs)));
    r.push((owned("http_ignore_tls_errors"), ConfigValue::Flag(c.http_ignore_tls_errors)));
    r.push((owned("http_doh_server"), ConfigValue::Text(c.http_doh_server.clone())));
    r.push((owned("proxy_mode"), ConfigValue::Text(c.proxy_mode.clone())));
    r.push((owned("proxy_type"), ConfigValue::Text(c.proxy_type.clone())));
    r.push((owned("proxy_host"), ConfigValue::Text(c.proxy_host.clone())));
    r.push((owned("proxy_port"), ConfigValue::Unsigned(c.proxy_port)));
    r.push((owned("proxy_username"), ConfigValue::Text(c.proxy_username.clone())));
    r.push((owned("proxy_password"), ConfigValue::Text(c.proxy_password.clone())));
    r.push((owned("engine_timeout_secs"), ConfigValue::Unsigned(c.engine_timeout_secs)));
    r.push((owned("booksource_watcher_enabled"), ConfigValue::Flag(c.booksource_watcher_enabled)));
    r.push((owned("browser_probe_enabled"), ConfigValue::Flag(c.browser_probe_enabled)));
    r.push((owned("browser_probe_user_agent"), ConfigValue::Text(c.browser_probe_user_agent.clone())));
    r.push((owned("browser_probe_timeout_secs"), ConfigValue::Unsigned(c.browser_probe_timeout_secs)));
    r.push((owned("browser_probe_visible_by_default"), ConfigValue::Flag(c.browser_probe_visible_by_default)));
    r.push((owned("browser_probe_force_visible"), ConfigValue::Flag(c.browser_probe_force_visible)));
    r.push((owned("browser_probe_persist_profile"), ConfigValue::Flag(c.browser_probe_persist_profile)));
    r.push((owned("comic_cache_enabled"), ConfigValue::Flag(c.comic_cache_enabled)));
    r.push((owned("ui_theme"), ConfigValue::Text(c.ui_theme.clone())));
    r.push((owned("ui_density"), ConfigValue::Text(c.ui_density.clone())));
    r.push((owned("ui_enable_aplus_tracking"), ConfigValue::Flag(c.ui_enable_aplus_tracking)));
    r.push((owned("video_player_type"), ConfigValue::Text(c.video_player_type.clone())));
    r.push((owned("video_default_rate"), ConfigValue::Float32Bits(c.video_default_rate_bits)));
    r.push((owned("video_auto_next"), ConfigValue::Flag(c.video_auto_next)));
    r.push((owned("video_quality_prefer"), ConfigValue::Text(c.video_quality_prefer.clone())));
    r.push((owned("video_remember_progress"), ConfigValue::Flag(c.video_remember_progress)));
    r.push((owned("video_seek_step_secs"), ConfigValue::Unsigned(c.video_seek_step_secs)));
    r.push((owned("video_vjs_preload"), ConfigValue::Text(c.video_vjs_preload.clone())));
    r.push((owned("video_vjs_pip"), ConfigValue::Flag(c.video_vjs_pip)));
    r.push((owned("video_xg_download"), ConfigValue::Flag(c.video_xg_download)));
    r.push((owned("video_dp_danmaku"), ConfigValue::Flag(c.video_dp_danmaku)));
    r.push((owned("video_dp_theme"), ConfigValue::Text(c.video_dp_theme.clone())));
    r.push((owned("video_autoplay"), ConfigValue::Flag(c.video_autoplay)));
    r.push((owned("web_server_enabled"), ConfigValue::Flag(c.web_server_enabled)));
    r.push((owned("web_server_port"), ConfigValue::Unsigned(c.web_server_port)));
    r.push((owned("web_server_dist_path"), ConfigValue::Text(c.web_server_dist_path.clone())));
    r.push((owned("request_min_delay_ms"), ConfigValue::Unsigned(c.request_min_delay_ms)));
    r.push((owned("cache_prefetch_count"), ConfigValue::Signed(c.cache_prefetch_count)));
    r.push((owned("cache_prefetch_concurrency"), ConfigValue::Unsigned(c.cache_prefetch_concurrency)));
    r.push((owned("export_prefetch_concurrency"), ConfigValue::Unsigned(c.export_prefetch_concurrency)));
    r.push((owned("sync_enabled"), ConfigValue::Flag(c.sync_enabled)));
    r.push((owned("sync_provider"), ConfigValue::Text(c.sync_provider.clone())));
    r.push((owned("sync_profile_id"), ConfigValue::Text(c.sync_profile_id.clone())));
    r.push((owned("sync_webdav_url"), ConfigValue::Text(c.sync_webdav_url.clone())));
    r.push((owned("sync_webdav_username"), ConfigValue::Text(c.sync_webdav_username.clone())));
    r.push((owned("sync_webdav_root_dir"), ConfigValue::Text(c.sync_webdav_root_dir.clone())));
    r.push((owned("sync_webdav_allow_http"), ConfigValue::Flag(c.sync_webdav_allow_http)));
    r.push((owned("sync_trigger_enabled"), ConfigValue::Flag(c.sync_trigger_enabled)));
    r.push((owned("sync_timer_enabled"), ConfigValue::Flag(c.sync_timer_enabled)));
    r.push((owned("sync_timer_interval_secs"), ConfigValue::Unsigned(c.sync_timer_interval_secs)));
    r.push((owned("sync_trigger_on_startup"), ConfigValue::Flag(c.sync_trigger_on_startup)));
    r.push((owned("sync_trigger_on_resume"), ConfigValue::Flag(c.sync_trigger_on_resume)));
    r.push((owned("sync_trigger_on_unlock_resume"), ConfigValue::Flag(c.sync_trigger_on_unlock_resume)));
    r.push((owned("sync_trigger_on_bookshelf_change"), ConfigValue::Flag(c.sync_trigger_on_bookshelf_change)));
    r.push((owned("sync_trigger_on_booksource_change"), ConfigValue::Flag(c.sync_trigger_on_booksource_change)));
    r.push((owned("sync_trigger_on_settings_change"), ConfigValue::Flag(c.sync_trigger_on_settings_change)));
    r.push((owned("sync_scope_bookshelf"), ConfigValue::Flag(c.sync_scope_bookshelf)));
    r.push((owned("sync_scope_reading_progress"), ConfigValue::Flag(c.sync_scope_reading_progress)));
    r.push((owned("sync_scope_booksources"), ConfigValue::Flag(c.sync_scope_booksources)));
    r.push((owned("sync_scope_reader_settings"), ConfigValue::Flag(c.sync_scope_reader_settings)));
    r.push((owned("sync_scope_app_settings"), ConfigValue::Flag(c.sync_scope_app_settings)));
    r.push((owned("sync_scope_source_flags"), ConfigValue::Flag(c.sync_scope_source_flags)));
    r.push((owned("sync_scope_extensions"), ConfigValue::Flag(c.sync_scope_extensions)));
    r.push((owned("sync_scope_script_config"), ConfigValue::Flag(c.sync_scope_script_config)));
    r.push((owned("sync_mobile_foreground_only"), ConfigValue::Flag(c.sync_mobile_foreground_only)));
    r.push((owned("sync_mobile_screen_on_only"), ConfigValue::Flag(c.sync_mobile_screen_on_only)));
    r.push((owned("sync_mobile_wifi_only"), ConfigValue::Flag(c.sync_mobile_wifi_only)));
    r.push((owned("sync_mobile_pause_on_low_battery"), ConfigValue::Flag(c.sync_mobile_pause_on_low_battery)));
    r.push((owned("sync_mobile_startup_delay_ms"), ConfigValue::Unsigned(c.sync_mobile_startup_delay_ms)));
    r.push((owned("sync_mobile_resume_delay_ms"), ConfigValue::Unsigned(c.sync_mobile_resume_delay_ms)));
    r.push((owned("sync_baidu_app_name"), ConfigValue::Text(c.sync_baidu_app_name.clone())));
    assert(r@.map_values(|e: (String, ConfigValue)| (e.0@, e.1)) =~= spec_config_entries(*c));
    r
}

/// The full configuration: the defaults with every override laid over them
/// (an override replaces the default of its key whatever its type; keys
/// without a default are kept too).
pub fn merge_with_defaults<V>(defaults: TextMap<V>, overrides: TextMap<V>) -> (r: TextMap<V>)
    ensures
        r.map() == defaults.map().union_prefer_right(overrides.map()),
{
    defaults.overlay(overrides)
}

/// The defaults as a map, given each default already converted to the
/// value type of the overrides.
pub fn defaults_map<V>(entries: Vec<(String, V)>) -> (r: TextMap<V>)
    ensures
        r.map() == insert_all(Map::<Seq<char>, V>::empty(), entries@),
{
    TextMap::from_entries(entries)
}

/// Records the user's value for `key`; the empty key is refused.
pub fn app_config_set<V>(overrides: &mut TextMap<V>, key: String, value: V) -> (r: Result<
    (),
    CommandError,
>)
    ensures
        r is Ok <==> key@.len() > 0,
        r is Ok ==> final(overrides).map() == old(overrides).map().insert(key@, value),
        r matches Err(e) ==> e.kind() == ErrorKind::Invalid && e.text()
            == "app_config_set 不允许空 key"@ && final(overrides).map() == old(overrides).map(),
{
    if key.as_str().is_empty() {
        return Err(CommandError::Invalid(owned("app_config_set 不允许空 key")));
    }
    overrides.insert(key, value);
    Ok(())
}

/// Drops the user's value for `key`, so the default shows again; an absent
/// key is no error.
pub fn app_config_reset<V>(overrides: &mut TextMap<V>, key: &str)
    ensures
        final(overrides).map() == old(overrides).map().remove(key@),
{
    overrides.remove(key);
}

// ── laws ─────────────────────────────────────────────────────────────────

/// After a key is set, the full configuration shows the value set.
pub proof fn law_set_then_get_all<V>(
    defaults: Map<Seq<char>, V>,
    overrides: Map<Seq<char>, V>,
    key: Seq<char>,
    value: V,
)
    ensures
        defaults.union_prefer_right(overrides.insert(key, value)).dom().contains(key),
        defaults.union_prefer_right(overrides.insert(key, value))[key] == value,
{
}

/// After a key is reset, the full configuration shows its default again (or
/// lacks the key when it has no default); other keys are untouched.
pub proof fn law_reset_falls_back_to_default<V>(
    defaults: Map<Seq<char>, V>,
    overrides: Map<Seq<char>, V>,
    key: Seq<char>,
)
    ensures
        defaults.dom().contains(key) ==> defaults.union_prefer_right(overrides.remove(key)).dom().contains(key)
            && defaults.union_prefer_right(overrides.remove(key))[key] == defaults[key],
        !defaults.dom().contains(key) ==> !defaults.union_prefer_right(
            overrides.remove(key),
        ).dom().contains(key),
        forall|k: Seq<char>|
            k != key ==> (#[trigger] defaults.union_prefer_right(overrides.remove(key)).dom().contains(k)
                == defaults.union_prefer_right(overrides).dom().contains(k)),
{
}

/// With no override, the full configuration is the defaults.
pub proof fn law_no_overrides_gives_defaults<V>(defaults: Map<Seq<char>, V>)
    ensures
        defaults.union_prefer_right(Map::<Seq<char>, V>::empty()) == defaults,
{
    assert(defaults.union_prefer_right(Map::<Seq<char>, V>::empty()) =~= defaults);
}


/// Each setting is listed under its own name with its own value: the entry
/// keyed by a field's name holds that field (the float rate as its bits);
/// there is one entry per setting.
pub proof fn law_config_entries_hold_fields(c: AppConfig)
    ensures
        spec_config_entries(c).len() == 73,
        spec_config_entries(c).contains(("http_user_agent"@, ConfigValue::Text(c.http_user_agent))),
        spec_config_entries(c).contains(("http_follow_redirects"@, ConfigValue::Flag(c.http_follow_redirects))),
        spec_config_entries(c).contains(("http_connect_timeout_secs"@, ConfigValue::Unsigned(c.http_connect_timeout_secs))),
        spec_config_entries(c).contains(("http_ignore_tls_errors"@, ConfigValue::Flag(c.http_ignore_tls_errors))),
        spec_config_entries(c).contains(("http_doh_server"@, ConfigValue::Text(c.http_doh_server))),
        spec_config_entries(c).contains(("proxy_mode"@, ConfigValue::Text(c.proxy_mode))),
        spec_config_entries(c).contains(("proxy_type"@, ConfigValue::Text(c.proxy_type))),
        spec_config_entries(c).contains(("proxy_host"@, ConfigValue::Text(c.proxy_host))),
        spec_config_entries(c).contains(("proxy_port"@, ConfigValue::Unsigned(c.proxy_port))),
        spec_config_entries(c).contains(("proxy_username"@, ConfigValue::Text(c.proxy_username))),
        spec_config_entries(c).contains(("proxy_password"@, ConfigValue::Text(c.proxy_password))),
        spec_config_entries(c).contains(("engine_timeout_secs"@, ConfigValue::Unsigned(c.engine_timeout_secs))),
        spec_config_entries(c).contains(("booksource_watcher_enabled"@, ConfigValue::Flag(c.booksource_watcher_enabled))),
        spec_config_entries(c).contains(("browser_probe_enabled"@, ConfigValue::Flag(c.browser_probe_enabled))),
        spec_config_entries(c).contains(("browser_probe_user_agent"@, ConfigValue::Text(c.browser_probe_user_agent))),
        spec_config_entries(c).contains(("browser_probe_timeout_secs"@, ConfigValue::Unsigned(c.browser_probe_timeout_secs))),
        spec_config_entries(c).contains(("browser_probe_visible_by_default"@, ConfigValue::Flag(c.browser_probe_visible_by_default))),
        spec_config_entries(c).contains(("browser_probe_force_visible"@, ConfigValue::Flag(c.browser_probe_force_visible))),
        spec_config_entries(c).contains(("browser_probe_persist_profile"@, ConfigValue::Flag(c.browser_probe_persist_profile))),
        spec_config_entries(c).contains(("comic_cache_enabled"@, ConfigValue::Flag(c.comic_cache_enabled))),
        spec_config_entries(c).contains(("ui_theme"@, ConfigValue::Text(c.ui_theme))),
        spec_config_entries(c).contains(("ui_density"@, ConfigValue::Text(c.ui_density))),
        spec_config_entries(c).contains(("ui_enable_aplus_tracking"@, ConfigValue::Flag(c.ui_enable_aplus_tracking))),
        spec_config_entries(c).contains(("video_player_type"@, ConfigValue::Text(c.video_player_type))),
        spec_config_entries(c).contains(("video_default_rate"@, ConfigValue::Float32Bits(c.video_default_rate_bits))),
        spec_config_entries(c).contains(("video_auto_next"@, ConfigValue::Flag(c.video_auto_next))),
        spec_config_entries(c).contains(("video_quality_prefer"@, ConfigValue::Text(c.video_quality_prefer))),
        spec_config_entries(c).contains(("video_remember_progress"@, ConfigValue::Flag(c.video_remember_progress))),
        spec_config_entries(c).contains(("video_seek_step_secs"@, ConfigValue::Unsigned(c.video_seek_step_secs))),
        spec_config_entries(c).contains(("video_vjs_preload"@, ConfigValue::Text(c.video_vjs_preload))),
        spec_config_entries(c).contains(("video_vjs_pip"@, ConfigValue::Flag(c.video_vjs_pip))),
        spec_config_entries(c).contains(("video_xg_download"@, ConfigValue::Flag(c.video_xg_download))),
        spec_config_entries(c).contains(("video_dp_danmaku"@, ConfigValue::Flag(c.video_dp_danmaku))),
        spec_config_entries(c).contains(("video_dp_theme"@, ConfigValue::Text(c.video_dp_theme))),
        spec_config_entries(c).contains(("video_autoplay"@, ConfigValue::Flag(c.video_autoplay))),
        spec_config_entries(c).contains(("web_server_enabled"@, ConfigValue::Flag(c.web_server_enabled))),
        spec_config_entries(c).contains(("web_server_port"@, ConfigValue::Unsigned(c.web_server_port))),
        spec_config_entries(c).contains(("web_server_dist_path"@, ConfigValue::Text(c.web_server_dist_path))),
        spec_config_entries(c).contains(("request_min_delay_ms"@, ConfigValue::Unsigned(c.request_min_delay_ms))),
        spec_config_entries(c).contains(("cache_prefetch_count"@, ConfigValue::Signed(c.cache_prefetch_count))),
        spec_config_entries(c).contains(("cache_prefetch_concurrency"@, ConfigValue::Unsigned(c.cache_prefetch_concurrency))),
        spec_config_entries(c).contains(("export_prefetch_concurrency"@, ConfigValue::Unsigned(c.export_prefetch_concurrency))),
        spec_config_entries(c).contains(("sync_enabled"@, ConfigValue::Flag(c.sync_enabled))),
        spec_config_entries(c).contains(("sync_provider"@, ConfigValue::Text(c.sync_provider))),
        spec_config_entries(c).contains(("sync_profile_id"@, ConfigValue::Text(c.sync_profile_id))),
        spec_config_entries(c).contains(("sync_webdav_url"@, ConfigValue::Text(c.sync_webdav_url))),
        spec_config_entries(c).contains(("sync_webdav_username"@, ConfigValue::Text(c.sync_webdav_username))),
        spec_config_entries(c).contains(("sync_webdav_root_dir"@, ConfigValue::Text(c.sync_webdav_root_dir))),
        spec_config_entries(c).contains(("sync_webdav_allow_http"@, ConfigValue::Flag(c.sync_webdav_allow_http))),
        spec_config_entries(c).contains(("sync_trigger_enabled"@, ConfigValue::Flag(c.sync_trigger_enabled))),
        spec_config_entries(c).contains(("sync_timer_enabled"@, ConfigValue::Flag(c.sync_timer_enabled))),
        spec_config_entries(c).contains(("sync_timer_interval_secs"@, ConfigValue::Unsigned(c.sync_timer_interval_secs))),
        spec_config_entries(c).contains(("sync_trigger_on_startup"@, ConfigValue::Flag(c.sync_trigger_on_startup))),
        spec_config_entries(c).contains(("sync_trigger_on_resume"@, ConfigValue::Flag(c.sync_trigger_on_resume))),
        spec_config_entries(c).contains(("sync_trigger_on_unlock_resume"@, ConfigValue::Flag(c.sync_trigger_on_unlock_resume))),
        spec_config_entries(c).contains(("sync_trigger_on_bookshelf_change"@, ConfigValue::Flag(c.sync_trigger_on_bookshelf_change))),
        spec_config_entries(c).contains(("sync_trigger_on_booksource_change"@, ConfigValue::Flag(c.sync_trigger_on_booksource_change))),
        spec_config_entries(c).contains(("sync_trigger_on_settings_change"@, ConfigValue::Flag(c.sync_trigger_on_settings_change))),
        spec_config_entries(c).contains(("sync_scope_bookshelf"@, ConfigValue::Flag(c.sync_scope_bookshelf))),
        spec_config_entries(c).contains(("sync_scope_reading_progress"@, ConfigValue::Flag(c.sync_scope_reading_progress))),
        spec_config_entries(c).contains(("sync_scope_booksources"@, ConfigValue::Flag(c.sync_scope_booksources))),
        spec_config_entries(c).contains(("sync_scope_reader_settings"@, ConfigValue::Flag(c.sync_scope_reader_settings))),
        spec_config_entries(c).contains(("sync_scope_app_settings"@, ConfigValue::Flag(c.sync_scope_app_settings))),
        spec_config_entries(c).contains(("sync_scope_source_flags"@, ConfigValue::Flag(c.sync_scope_source_flags))),
        spec_config_entries(c).contains(("sync_scope_extensions"@, ConfigValue::Flag(c.sync_scope_extensions))),
        spec_config_entries(c).contains(("sync_scope_script_config"@, ConfigValue::Flag(c.sync_scope_script_config))),
        spec_config_entries(c).contains(("sync_mobile_foreground_only"@, ConfigValue::Flag(c.sync_mobile_foreground_only))),
        spec_config_entries(c).contains(("sync_mobile_screen_on_only"@, ConfigValue::Flag(c.sync_mobile_screen_on_only))),
        spec_config_entries(c).contains(("sync_mobile_wifi_only"@, ConfigValue::Flag(c.sync_mobile_wifi_only))),
        spec_config_entries(c).contains(("sync_mobile_pause_on_low_battery"@, ConfigValue::Flag(c.sync_mobile_pause_on_low_battery))),
        spec_config_entries(c).contains(("sync_mobile_startup_delay_ms"@, ConfigValue::Unsigned(c.sync_mobile_startup_delay_ms))),
        spec_config_entries(c).contains(("sync_mobile_resume_delay_ms"@, ConfigValue::Unsigned(c.sync_mobile_resume_delay_ms))),
        spec_config_entries(c).contains(("sync_baidu_app_name"@, ConfigValue::Text(c.sync_baidu_app_name))),
{
    let e = spec_config_entries(c);
    assert(e[0] == ("http_user_agent"@, ConfigValue::Text(c.http_user_agent)));
    assert(e[1] == ("http_follow_redirects"@, ConfigValue::Flag(c.http_follow_redirects)));
    assert(e[2] == ("http_connect_timeout_secs"@, ConfigValue::Unsigned(c.http_connect_timeout_secs)));
    assert(e[3] == ("http_ignore_tls_errors"@, ConfigValue::Flag(c.http_ignore_tls_errors)));
    assert(e[4] == ("http_doh_server"@, ConfigValue::Text(c.http_doh_server)));
    assert(e[5] == ("proxy_mode"@, ConfigValue::Text(c.proxy_mode)));
    assert(e[6] == ("proxy_type"@, ConfigValue::Text(c.proxy_type)));
    assert(e[7] == ("proxy_host"@, ConfigValue::Text(c.proxy_host)));
    assert(e[8] == ("proxy_port"@, ConfigValue::Unsigned(c.proxy_port)));
    assert(e[9] == ("proxy_username"@, ConfigValue::Text(c.proxy_username)));
    assert(e[10] == ("proxy_password"@, ConfigValue::Text(c.proxy_password)));
    assert(e[11] == ("engine_timeout_secs"@, ConfigValue::Unsigned(c.engine_timeout_secs)));
    assert(e[12] == ("booksource_watcher_enabled"@, ConfigValue::Flag(c.booksource_watcher_enabled)));
    assert(e[13] == ("browser_probe_enabled"@, ConfigValue::Flag(c.browser_probe_enabled)));
    assert(e[14] == ("browser_probe_user_agent"@, ConfigValue::Text(c.browser_probe_user_agent)));
    assert(e[15] == ("browser_probe_timeout_secs"@, ConfigValue::Unsigned(c.browser_probe_timeout_secs)));
    assert(e[16] == ("browser_probe_visible_by_default"@, ConfigValue::Flag(c.browser_probe_visible_by_default)));
    assert(e[17] == ("browser_probe_force_visible"@, ConfigValue::Flag(c.browser_probe_force_visible)));
    assert(e[18] == ("browser_probe_persist_profile"@, ConfigValue::Flag(c.browser_probe_persist_profile)));
    assert(e[19] == ("comic_cache_enabled"@, ConfigValue::Flag(c.comic_cache_enabled)));
    assert(e[20] == ("ui_theme"@, ConfigValue::Text(c.ui_theme)));
    assert(e[21] == ("ui_density"@, ConfigValue::Text(c.ui_density)));
    assert(e[22] == ("ui_enable_aplus_tracking"@, ConfigValue::Flag(c.ui_enable_aplus_tracking)));
    assert(e[23] == ("video_player_type"@, ConfigValue::Text(c.video_player_type)));
    assert(e[24] == ("video_default_rate"@, ConfigValue::Float32Bits(c.video_default_rate_bits)));
    assert(e[25] == ("video_auto_next"@, ConfigValue::Flag(c.video_auto_next)));
    assert(e[26] == ("video_quality_prefer"@, ConfigValue::Text(c.video_quality_prefer)));
    assert(e[27] == ("video_remember_progress"@, ConfigValue::Flag(c.video_remember_progress)));
    assert(e[28] == ("video_seek_step_secs"@, ConfigValue::Unsigned(c.video_seek_step_secs)));
    assert(e[29] == ("video_vjs_preload"@, ConfigValue::Text(c.video_vjs_preload)));
    assert(e[30] == ("video_vjs_pip"@, ConfigValue::Flag(c.video_vjs_pip)));
    assert(e[31] == ("video_xg_download"@, ConfigValue::Flag(c.video_xg_download)));
    assert(e[32] == ("video_dp_danmaku"@, ConfigValue::Flag(c.video_dp_danmaku)));
    assert(e[33] == ("video_dp_theme"@, ConfigValue::Text(c.video_dp_theme)));
    assert(e[34] == ("video_autoplay"@, ConfigValue::Flag(c.video_autoplay)));
    assert(e[35] == ("web_server_enabled"@, ConfigValue::Flag(c.web_server_enabled)));
    assert(e[36] == ("web_server_port"@, ConfigValue::Unsigned(c.web_server_port)));
    assert(e[37] == ("web_server_dist_path"@, ConfigValue::Text(c.web_server_dist_path)));
    assert(e[38] == ("request_min_delay_ms"@, ConfigValue::Unsigned(c.request_min_delay_ms)));
    assert(e[39] == ("cache_prefetch_count"@, ConfigValue::Signed(c.cache_prefetch_count)));
    assert(e[40] == ("cache_prefetch_concurrency"@, ConfigValue::Unsigned(c.cache_prefetch_concurrency)));
    assert(e[41] == ("export_prefetch_concurrency"@, ConfigValue::Unsigned(c.export_prefetch_concurrency)));
    assert(e[42] == ("sync_enabled"@, ConfigValue::Flag(c.sync_enabled)));
    assert(e[43] == ("sync_provider"@, ConfigValue::Text(c.sync_provider)));
    assert(e[44] == ("sync_profile_id"@, ConfigValue::Text(c.sync_profile_id)));
    assert(e[45] == ("sync_webdav_url"@, ConfigValue::Text(c.sync_webdav_url)));
    assert(e[46] == ("sync_webdav_username"@, ConfigValue::Text(c.sync_webdav_username)));
    assert(e[47] == ("sync_webdav_root_dir"@, ConfigValue::Text(c.sync_webdav_root_dir)));
    assert(e[48] == ("sync_webdav_allow_http"@, ConfigValue::Flag(c.sync_webdav_allow_http)));
    assert(e[49] == ("sync_trigger_enabled"@, ConfigValue::Flag(c.sync_trigger_enabled)));
    assert(e[50] == ("sync_timer_enabled"@, ConfigValue::Flag(c.sync_timer_enabled)));
    assert(e[51] == ("sync_timer_interval_secs"@, ConfigValue::Unsigned(c.sync_timer_interval_secs)));
    assert(e[52] == ("sync_trigger_on_startup"@, ConfigValue::Flag(c.sync_trigger_on_startup)));
    assert(e[53] == ("sync_trigger_on_resume"@, ConfigValue::Flag(c.sync_trigger_on_resume)));
    assert(e[54] == ("sync_trigger_on_unlock_resume"@, ConfigValue::Flag(c.sync_trigger_on_unlock_resume)));
    assert(e[55] == ("sync_trigger_on_bookshelf_change"@, ConfigValue::Flag(c.sync_trigger_on_bookshelf_change)));
    assert(e[56] == ("sync_trigger_on_booksource_change"@, ConfigValue::Flag(c.sync_trigger_on_booksource_change)));
    assert(e[57] == ("sync_trigger_on_settings_change"@, ConfigValue::Flag(c.sync_trigger_on_settings_change)));
    assert(e[58] == ("sync_scope_bookshelf"@, ConfigValue::Flag(c.sync_scope_bookshelf)));
    assert(e[59] == ("sync_scope_reading_progress"@, ConfigValue::Flag(c.sync_scope_reading_progress)));
    assert(e[60] == ("sync_scope_booksources"@, ConfigValue::Flag(c.sync_scope_booksources)));
    assert(e[61] == ("sync_scope_reader_settings"@, ConfigValue::Flag(c.sync_scope_reader_settings)));
    assert(e[62] == ("sync_scope_app_settings"@, ConfigValue::Flag(c.sync_scope_app_settings)));
    assert(e[63] == ("sync_scope_source_flags"@, ConfigValue::Flag(c.sync_scope_source_flags)));
    assert(e[64] == ("sync_scope_extensions"@, ConfigValue::Flag(c.sync_scope_extensions)));
    assert(e[65] == ("sync_scope_script_config"@, ConfigValue::Flag(c.sync_scope_script_config)));
    assert(e[66] == ("sync_mobile_foreground_only"@, ConfigValue::Flag(c.sync_mobile_foreground_only)));
    assert(e[67] == ("sync_mobile_screen_on_only"@, ConfigValue::Flag(c.sync_mobile_screen_on_only)));
    assert(e[68] == ("sync_mobile_wifi_only"@, ConfigValue::Flag(c.sync_mobile_wifi_only)));
    assert(e[69] == ("sync_mobile_pause_on_low_battery"@, ConfigValue::Flag(c.sync_mobile_pause_on_low_battery)));
    assert(e[70] == ("sync_mobile_startup_delay_ms"@, ConfigValue::Unsigned(c.sync_mobile_startup_delay_ms)));
    assert(e[71] == ("sync_mobile_resume_delay_ms"@, ConfigValue::Unsigned(c.sync_mobile_resume_delay_ms)));
    assert(e[72] == ("sync_baidu_app_name"@, ConfigValue::Text(c.sync_baidu_app_name)));
}

} // verus!
