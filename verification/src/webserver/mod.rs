//! The built-in web server's recorded state in
//! `<data_dir>/webserver-state.json`. The server itself is not there yet.
use vstd::prelude::*;

use crate::errors::{not_implemented, CommandError, ErrorKind};
use crate::paths::StoragePath;
use crate::text::owned;

verus! {

/// The web server's settings and whether it runs.
#[derive(Debug, Clone)]
pub struct WebServerState {
    pub enabled: bool,
    pub port: u32,
    pub dist_path: String,
    pub running: bool,
    pub last_error: String,
}

/// The port the web server uses unless the state file names another.
pub const DEFAULT_WEB_PORT: u32 = 7688;

/// `<data_dir>/webserver-state.json`
pub fn webserver_state_path(data_dir: &StoragePath) -> (p: StoragePath)
    ensures
        p@ == data_dir@.join("webserver-state.json"@),
{
    data_dir.join_str("webserver-state.json")
}

/// The state when none is stored (or the stored one cannot be read):
/// disabled, on port 7688, no static directory, not running, no error.
pub fn initial_web_server_state() -> (s: WebServerState)
    ensures
        !s.enabled,
        s.port == 7688,
        s.dist_path@.len() == 0,
        !s.running,
        s.last_error@.len() == 0,
{
    WebServerState { enabled: false, port: DEFAULT_WEB_PORT, dist_path: String::new(), running: false, last_error: String::new() }
}

/// Starting: the server cannot run yet, so it stays stopped and records why.
pub fn web_server_started(s: WebServerState) -> (r: WebServerState)
    ensures
        r.enabled == s.enabled,
        r.port == s.port,
        r.dist_path == s.dist_path,
        !r.running,
        r.last_error@ == "Web 服务器暂未实现：HTTP server 待补"@,
{
    WebServerState { running: false, last_error: owned("Web 服务器暂未实现：HTTP server 待补"), ..s }
}

/// Stopping: not running, no error.
pub fn web_server_stopped(s: WebServerState) -> (r: WebServerState)
    ensures
        r.enabled == s.enabled,
        r.port == s.port,
        r.dist_path == s.dist_path,
        !r.running,
        r.last_error@.len() == 0,
{
    WebServerState { running: false, last_error: String::new(), ..s }
}

/// Picking the static directory needs the platform's folder picker.
pub fn web_server_pick_dist_dir() -> (r: Result<String, CommandError>)
    ensures
        r matches Err(e) && e.kind() == ErrorKind::Other && e.text()
            == "web_server_pick_dist_dir 暂未实现：Harmony 选择器集成待补"@,
{
    proof {
        reveal_strlit("web_server_pick_dist_dir");
        reveal_strlit(" 暂未实现：");
        reveal_strlit("Harmony 选择器集成待补");
        reveal_strlit("web_server_pick_dist_dir 暂未实现：Harmony 选择器集成待补");
        assert("web_server_pick_dist_dir"@ + " 暂未实现："@ + "Harmony 选择器集成待补"@ =~= "web_server_pick_dist_dir 暂未实现：Harmony 选择器集成待补"@);
    }
    Err(not_implemented("web_server_pick_dist_dir", "Harmony 选择器集成待补"))
}

} // verus!
