//! Cloud sync: the stored WebDAV credentials and the status the front end
//! shows. The sync engine itself is not there yet.
use vstd::prelude::*;

use crate::errors::{not_implemented, CommandError, ErrorKind};
use crate::paths::{PathView, StoragePath};
use crate::text::{owned, trim_text, trimmed};

verus! {

/// What the sync panel shows.
#[derive(Debug, Clone)]
pub struct SyncStatus {
    pub enabled: bool,
    pub running: bool,
    pub last_success_at: i64,
    pub last_failed_at: i64,
    pub last_error: String,
    pub dirty_domains: Vec<String>,
    pub conflict_count: u32,
    pub last_run_summary: String,
}

/// The stored WebDAV password.
#[derive(Debug)]
pub struct SyncCredentials {
    pub password: String,
}

pub open spec fn spec_sync_dir(d: PathView) -> PathView {
    d.join("sync"@)
}

pub open spec fn spec_creds_path(d: PathView) -> PathView {
    spec_sync_dir(d).join("credentials.json"@)
}

/// `<data_dir>/sync`
pub fn sync_dir_path(data_dir: &StoragePath) -> (p: StoragePath)
    ensures
        p@ == spec_sync_dir(data_dir@),
{
    data_dir.join_str("sync")
}

/// `<data_dir>/sync/credentials.json`
pub fn creds_path(data_dir: &StoragePath) -> (p: StoragePath)
    ensures
        p@ == spec_creds_path(data_dir@),
{
    sync_dir_path(data_dir).join_str("credentials.json")
}

/// Where the credentials are written before they replace the old ones.
pub fn creds_tmp_path(data_dir: &StoragePath) -> (p: StoragePath)
    ensures
        p@ == spec_sync_dir(data_dir@).join("credentials.json.tmp"@),
{
    sync_dir_path(data_dir).join_str("credentials.json.tmp")
}

/// The status while no sync engine runs: off, idle, nothing recorded.
pub fn sync_get_status() -> (r: Result<SyncStatus, CommandError>)
    ensures
        r matches Ok(s) && !s.enabled && !s.running && s.last_success_at == 0 && s.last_failed_at == 0
            && s.last_error@.len() == 0 && s.dirty_domains@.len() == 0 && s.conflict_count == 0
            && s.last_run_summary@.len() == 0,
{
    Ok(
        SyncStatus {
            enabled: false,
            running: false,
            last_success_at: 0,
            last_failed_at: 0,
            last_error: String::new(),
            dirty_domains: Vec::new(),
            conflict_count: 0,
            last_run_summary: String::new(),
        },
    )
}

/// The credentials when there is nothing to parse: an empty password for a
/// missing (`None`) or blank file; `None` when the file's text must be
/// parsed.
pub fn credentials_without_file(raw: Option<&str>) -> (r: Option<SyncCredentials>)
    ensures
        raw is None ==> (r matches Some(c) && c.password@.len() == 0),
        raw matches Some(t) ==> (trimmed(t@).len() == 0 <==> r is Some),
        r matches Some(c) ==> c.password@.len() == 0,
{
    match raw {
        None => Some(SyncCredentials { password: String::new() }),
        Some(t) => {
            let tt = trim_text(t);
            if tt.as_str().is_empty() {
                Some(SyncCredentials { password: String::new() })
            } else {
                None
            }
        },
    }
}

/// Testing the connection needs a WebDAV client; it reports success.
pub fn sync_test_connection(password: Option<String>) -> (r: Result<bool, CommandError>)
    ensures
        r matches Ok(b) && b,
{
    Ok(true)
}

/// Running a sync needs the sync engine.
pub fn sync_now(mode: Option<String>, domains: Option<Vec<String>>, conflict_strategy: Option<String>) -> (r: Result<
    (),
    CommandError,
>)
    ensures
        r matches Err(e) && e.kind() == ErrorKind::Other && e.text() == "sync_now 暂未实现：同步引擎待补"@,
{
    proof {
        reveal_strlit("sync_now");
        reveal_strlit(" 暂未实现：");
        reveal_strlit("同步引擎待补");
        reveal_strlit("sync_now 暂未实现：同步引擎待补");
        assert("sync_now"@ + " 暂未实现："@ + "同步引擎待补"@ =~= "sync_now 暂未实现：同步引擎待补"@);
    }
    Err(not_implemented("sync_now", "同步引擎待补"))
}

/// The error of the Baidu Netdisk sign-in commands.
pub fn baidu_unsupported() -> (e: CommandError)
    ensures
        e.kind() == ErrorKind::Other,
        e.text() == "百度网盘 OAuth 暂未实现"@,
{
    CommandError::Other(owned("百度网盘 OAuth 暂未实现"))
}

/// A conflict the sync engine could not settle by itself.
#[derive(Debug)]
pub struct SyncConflict {
    pub id: String,
    pub domain: String,
    pub key: String,
    pub message: String,
    pub local: serde_json::Value,
    pub remote: serde_json::Value,
    pub created_at: i64,
    pub resolved: bool,
}

/// Without a sync engine there are no conflicts.
pub fn sync_list_conflicts() -> (r: Result<Vec<SyncConflict>, CommandError>)
    ensures
        r matches Ok(v) && v@.len() == 0,
{
    Ok(Vec::new())
}

/// Resolving a conflict does nothing while there are none.
pub fn sync_resolve_conflict() -> (r: Result<(), CommandError>)
    ensures
        r is Ok,
{
    Ok(())
}

/// Reports of reader sessions are accepted and dropped.
pub fn sync_report_reader_session() -> (r: Result<(), CommandError>)
    ensures
        r is Ok,
{
    Ok(())
}

/// Lifecycle events are accepted and dropped.
pub fn sync_notify_lifecycle() -> (r: Result<(), CommandError>)
    ensures
        r is Ok,
{
    Ok(())
}

/// Starting the Baidu Netdisk sign-in is not available.
pub fn sync_baidu_start_auth() -> (r: Result<serde_json::Value, CommandError>)
    ensures
        r matches Err(e) && e.kind() == ErrorKind::Other && e.text() == "百度网盘 OAuth 暂未实现"@,
{
    Err(baidu_unsupported())
}

/// Polling for a Baidu Netdisk token is not available.
pub fn sync_baidu_poll_token() -> (r: Result<serde_json::Value, CommandError>)
    ensures
        r matches Err(e) && e.kind() == ErrorKind::Other && e.text() == "百度网盘 OAuth 暂未实现"@,
{
    Err(baidu_unsupported())
}

/// Revoking the Baidu Netdisk sign-in succeeds: there is none.
pub fn sync_baidu_revoke_auth() -> (r: Result<(), CommandError>)
    ensures
        r is Ok,
{
    Ok(())
}

} // verus!
