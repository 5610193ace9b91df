//! Local video proxies, recorded in `<data_dir>/video_proxies.json`.
use vstd::prelude::*;

use crate::errors::{not_implemented, CommandError, ErrorKind};
use crate::paths::StoragePath;

verus! {

/// A running proxy: its id, the local port and the URL it serves.
#[derive(Debug, Clone)]
pub struct VideoProxyHandle {
    pub id: String,
    pub port: u32,
    pub url: String,
}

/// A request to proxy a video URL with the headers it needs.
#[derive(Debug)]
pub struct StartVideoProxyArgs {
    pub url: String,
    pub headers: std::collections::HashMap<String, String>,
    pub concurrency: Option<u32>,
}

/// `<data_dir>/video_proxies.json`
pub fn proxies_path(data_dir: &StoragePath) -> (p: StoragePath)
    ensures
        p@ == data_dir@.join("video_proxies.json"@),
{
    data_dir.join_str("video_proxies.json")
}

/// Where the list is written before it replaces the old one.
pub fn proxies_tmp_path(data_dir: &StoragePath) -> (p: StoragePath)
    ensures
        p@ == data_dir@.join("video_proxies.json.tmp"@),
{
    data_dir.join_str("video_proxies.json.tmp")
}

/// Starting a proxy needs the embedded HTTP proxy.
pub fn start_video_proxy(args: StartVideoProxyArgs) -> (r: Result<VideoProxyHandle, CommandError>)
    ensures
        r matches Err(e) && e.kind() == ErrorKind::Other && e.text() == "start_video_proxy 暂未实现：视频本地代理待补"@,
{
    proof {
        reveal_strlit("start_video_proxy");
        reveal_strlit(" 暂未实现：");
        reveal_strlit("视频本地代理待补");
        reveal_strlit("start_video_proxy 暂未实现：视频本地代理待补");
        assert("start_video_proxy"@ + " 暂未实现："@ + "视频本地代理待补"@ =~= "start_video_proxy 暂未实现：视频本地代理待补"@);
    }
    Err(not_implemented("start_video_proxy", "视频本地代理待补"))
}

/// The proxies of `s` on ports other than `port`, in order.
pub open spec fn proxies_off_port(s: Seq<VideoProxyHandle>, port: u32) -> Seq<VideoProxyHandle>
    decreases s.len(),
{
    if s.len() == 0 {
        s
    } else if s.last().port == port {
        proxies_off_port(s.drop_last(), port)
    } else {
        proxies_off_port(s.drop_last(), port).push(s.last())
    }
}

/// Stopping a proxy drops every record on its port.
pub fn stop_video_proxy(list: &mut Vec<VideoProxyHandle>, port: u32)
    ensures
        final(list)@ == proxies_off_port(old(list)@, port),
{
    let mut rest: Vec<VideoProxyHandle> = Vec::new();
    std::mem::swap(&mut rest, list);
    let ghost all = rest@;
    let total = rest.len();
    let mut back: Vec<VideoProxyHandle> = Vec::new();
    while rest.len() > 0
        invariant
            back@.len() + rest@.len() == all.len(),
            rest@ == all.take(rest@.len() as int),
            forall|j: int| 0 <= j < back@.len() ==> #[trigger] back@[j] == all[all.len() - 1 - j],
        decreases rest@.len(),
    {
        let e = rest.pop().unwrap();
        back.push(e);
    }
    let mut kept: Vec<VideoProxyHandle> = Vec::new();
    let mut i: usize = 0;
    while back.len() > 0
        invariant
            total == all.len(),
            i + back@.len() == total,
            forall|j: int| 0 <= j < back@.len() ==> #[trigger] back@[j] == all[total - 1 - j],
            kept@ == proxies_off_port(all.take(i as int), port),
        decreases back@.len(),
    {
        let e = back.pop().unwrap();
        assert(e == all[i as int]);
        proof {
            assert(all.take(i + 1).drop_last() =~= all.take(i as int));
            assert(all.take(i + 1).last() == e);
        }
        if e.port != port {
            kept.push(e);
        }
        i = i + 1;
    }
    assert(all.take(total as int) =~= all);
    *list = kept;
}

/// After stopping, no proxy on that port remains, and every other one does.
pub proof fn law_stop_removes_port(s: Seq<VideoProxyHandle>, port: u32)
    ensures
        forall|h: VideoProxyHandle| #[trigger] proxies_off_port(s, port).contains(h) <==> s.contains(h) && h.port != port,
    decreases s.len(),
{
    if s.len() > 0 {
        let t = s.drop_last();
        law_stop_removes_port(t, port);
        let w = proxies_off_port(s, port);
        let wt = proxies_off_port(t, port);
        assert forall|h: VideoProxyHandle| #[trigger] w.contains(h) <==> s.contains(h) && h.port != port by {
            if s.contains(h) {
                let k = choose|k: int| 0 <= k < s.len() && s[k] == h;
                if k < t.len() {
                    assert(t[k] == h);
                }
            }
            if t.contains(h) {
                let k = choose|k: int| 0 <= k < t.len() && t[k] == h;
                assert(s[k] == h);
            }
            if s.last().port != port {
                if w.contains(h) {
                    let k = choose|k: int| 0 <= k < w.len() && w[k] == h;
                    if k < wt.len() {
                        assert(wt[k] == h);
                    }
                }
                if wt.contains(h) {
                    let k = choose|k: int| 0 <= k < wt.len() && wt[k] == h;
                    assert(w[k] == h);
                }
                if h == s.last() {
                    assert(w[w.len() - 1] == h);
                    assert(s[s.len() - 1] == h);
                }
            }
        }
    }
}

} // verus!
