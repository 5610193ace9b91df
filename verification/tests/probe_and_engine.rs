use legado_tauri::booksource::engine::{
    book_info_call, build_bootstrap, chapter_content_call, chapter_list_call, charset_of, decode_body, eval_tail,
    explore_call, fn_tail, page_or_first, proxy_method, proxy_response, search_call, source_failure, strip_quotes,
    HttpProxyRequest, EVAL_TIMEOUT_SECS,
};
use legado_tauri::browser_probe::{
    cleanup_script, cookie_plan, eval_bootstrap, eval_failure, eval_timeout, missing_session, navigate_step,
    navigate_timeout, new_session_label, page_ready, poll_script, poll_step, same_site_policy, timeout_of,
    wait_until_of, BrowserProbeState, EvalOptions, NavigateOptions, NavigateStep, PollOutcome, PollStep,
    ProbeCookie, SameSitePolicy, Timeout,
};
use legado_tauri::errors::CommandError;
use std::collections::HashMap;

fn nav(wait_until: Option<&str>, wait_for: Option<&str>) -> NavigateOptions {
    NavigateOptions {
        wait_until: wait_until.map(|s| s.to_string()),
        wait_for: wait_for.map(|s| s.to_string()),
        timeout_secs: None,
        timeout: None,
        timeout_ms: None,
    }
}

#[test]
fn sessions_and_user_agent() {
    let mut st = BrowserProbeState::new();
    assert_eq!(st.first_session(), None);
    st.add_session("probe-1".to_string());
    st.add_session("probe-2".to_string());
    assert_eq!(st.first_session(), Some("probe-1".to_string()));
    st.remove_session("probe-1");
    assert_eq!(st.first_session(), Some("probe-2".to_string()));
    st.add_session("probe-3".to_string());
    assert_eq!(st.take_sessions(), vec!["probe-2".to_string(), "probe-3".to_string()]);
    assert_eq!(st.first_session(), None);
    st.set_user_agent("UA/1".to_string());
    assert_eq!(st.session_user_agent(None), Some("UA/1".to_string()));
    assert_eq!(st.session_user_agent(Some("  ".to_string())), Some("UA/1".to_string()));
    assert_eq!(st.session_user_agent(Some("Mine".to_string())), Some("Mine".to_string()));
    st.set_user_agent(" ".to_string());
    assert_eq!(st.session_user_agent(None), None);
}

#[test]
fn session_labels() {
    let a = new_session_label();
    let b = new_session_label();
    assert!(a.starts_with("probe-"));
    assert_eq!(a.len(), 38);
    assert!(a[6..].chars().all(|c| c.is_ascii_hexdigit() && !c.is_ascii_uppercase()));
    assert_ne!(a, b);
    assert_eq!(missing_session("s1").message(), "未找到: 探测会话不存在或已关闭: s1");
}

#[test]
fn timeouts_by_priority() {
    let d = Timeout { secs: 60, millis: 0 };
    assert_eq!(timeout_of(Some(5), Some(6), Some(7000), d), Timeout { secs: 5, millis: 0 });
    assert_eq!(timeout_of(None, Some(6), Some(7000), d), Timeout { secs: 6, millis: 0 });
    assert_eq!(timeout_of(None, None, Some(7250), d), Timeout { secs: 7, millis: 250 });
    assert_eq!(timeout_of(None, None, None, d), d);
    assert_eq!(navigate_timeout(&nav(None, None)), Timeout { secs: 60, millis: 0 });
    let e = EvalOptions { timeout_secs: None, timeout: None, timeout_ms: None };
    assert_eq!(eval_timeout(&e), Timeout { secs: 55, millis: 0 });
}

#[test]
fn wait_conditions() {
    assert_eq!(wait_until_of(&nav(Some("networkidle"), Some("x"))), "networkidle");
    assert_eq!(wait_until_of(&nav(None, Some("domcontentloaded"))), "domcontentloaded");
    assert_eq!(wait_until_of(&nav(None, None)), "load");
    assert!(page_ready("domcontentloaded", "interactive"));
    assert!(page_ready("domcontentloaded", "complete"));
    assert!(!page_ready("load", "interactive"));
    assert!(page_ready("networkidle", "complete"));
    assert!(!page_ready("load", "loading"));
}

#[test]
fn navigation_steps() {
    let t = Timeout { secs: 60, millis: 0 };
    assert!(matches!(navigate_step("load", Some("complete"), true, t), NavigateStep::Done { settle_millis: 0 }));
    assert!(matches!(navigate_step("networkidle", Some("complete"), false, t), NavigateStep::Done { settle_millis: 500 }));
    assert!(matches!(navigate_step("load", Some("interactive"), false, t), NavigateStep::Retry { after_millis: 100 }));
    assert!(matches!(navigate_step("load", None, false, t), NavigateStep::Retry { after_millis: 100 }));
    match navigate_step("load", Some("loading"), true, t) {
        NavigateStep::Fail(CommandError::Other(m)) => assert_eq!(m, "页面加载超时（60s，waitUntil=load）"),
        other => panic!("unexpected {:?}", other),
    }
}

#[test]
fn poll_steps() {
    let t = Timeout { secs: 55, millis: 0 };
    assert!(matches!(poll_step(PollOutcome::Text("{\"ok\":true}".to_string()), true, t), PollStep::Finish(s) if s == "{\"ok\":true}"));
    assert!(matches!(poll_step(PollOutcome::Text("null".to_string()), false, t), PollStep::Retry { after_millis: 100 }));
    assert!(matches!(poll_step(PollOutcome::OtherValue, false, t), PollStep::Retry { .. }));
    match poll_step(PollOutcome::Text("null".to_string()), true, t) {
        PollStep::Fail(CommandError::Other(m)) => assert_eq!(m, "浏览器探测超时（55s）"),
        other => panic!("unexpected {:?}", other),
    }
    match poll_step(PollOutcome::Failed(CommandError::Other("gone".to_string())), false, t) {
        PollStep::Fail(CommandError::Other(m)) => assert_eq!(m, "gone"),
        other => panic!("unexpected {:?}", other),
    }
}

#[test]
fn probe_scripts() {
    assert_eq!(poll_script("r1"), "JSON.stringify((window.__probeResults || {})[\"r1\"] ?? null)");
    assert_eq!(cleanup_script("a\"b"), "delete (window.__probeResults || {})[\"a\\\"b\"];");
    let js = eval_bootstrap("return 1;", "r1");
    assert!(js.starts_with("window.__probeResults = window.__probeResults || {};\n(async function() {\n"));
    assert!(js.contains("\nreturn 1;\n"));
    assert!(js.contains("window.__probeResults[\"r1\"] = { ok: true"));
    assert!(js.ends_with("})();\n\"started\""));
}

#[test]
fn evaluation_results() {
    assert!(eval_failure(Some(true), Some("x".to_string()), "d").is_none());
    assert_eq!(eval_failure(Some(false), Some("boom".to_string()), "d").unwrap().message(), "boom");
    assert_eq!(eval_failure(None, None, "页面内执行失败").unwrap().message(), "页面内执行失败");
    assert_eq!(source_failure(None, None).unwrap().message(), "书源脚本执行失败");
    assert!(source_failure(Some(true), None).is_none());
}

#[test]
fn cookies() {
    assert_eq!(same_site_policy("STRICT"), Some(SameSitePolicy::Strict));
    assert_eq!(same_site_policy("Lax"), Some(SameSitePolicy::Lax));
    assert_eq!(same_site_policy("none"), Some(SameSitePolicy::NoRestriction));
    assert_eq!(same_site_policy("other"), None);
    let c = ProbeCookie {
        name: "n".to_string(),
        value: "v".to_string(),
        domain: Some(String::new()),
        path: None,
        expires: Some(10),
        http_only: Some(false),
        secure: Some(true),
        same_site: Some("Lax".to_string()),
    };
    let p = cookie_plan(c, Some("example.com".to_string()));
    assert_eq!(p.domain.as_deref(), Some("example.com"));
    assert_eq!(p.path, "/");
    assert!(p.secure && !p.http_only);
    assert_eq!(p.expires, Some(10));
    assert_eq!(p.same_site, Some(SameSitePolicy::Lax));
    let c = ProbeCookie {
        name: "n".to_string(),
        value: "v".to_string(),
        domain: Some("own.org".to_string()),
        path: Some("/p".to_string()),
        expires: None,
        http_only: None,
        secure: None,
        same_site: None,
    };
    let p = cookie_plan(c, None);
    assert_eq!(p.domain.as_deref(), Some("own.org"));
    assert_eq!(p.path, "/p");
    assert!(!p.secure && !p.http_only && p.same_site.is_none());
}

#[test]
fn http_methods() {
    assert_eq!(proxy_method(None).unwrap(), "GET");
    assert_eq!(proxy_method(Some("post")).unwrap(), "POST");
    assert_eq!(proxy_method(Some("Propfind")).unwrap(), "PROPFIND");
    match proxy_method(Some("")) {
        Err(CommandError::Invalid(m)) => assert_eq!(m, "非法 HTTP 方法 : invalid HTTP method"),
        other => panic!("unexpected {:?}", other),
    }
    assert!(matches!(proxy_method(Some("GE T")), Err(CommandError::Invalid(_))));
    let r = HttpProxyRequest { url: "http://x".to_string(), method: None, headers: None, body: None };
    assert!(r.headers.is_none());
}

#[test]
fn charsets() {
    assert_eq!(charset_of("text/html; charset=GBK"), Some("GBK".to_string()));
    assert_eq!(charset_of("text/html;charset=\"utf-8\""), Some("utf-8".to_string()));
    assert_eq!(charset_of("text/html"), None);
    assert_eq!(charset_of("charset=a;charset=b"), Some("a".to_string()));
    assert_eq!(charset_of("text/html; Charset=x"), None);
    assert_eq!(charset_of(""), None);
    assert_eq!(strip_quotes("\"\"x\"\""), "x");
    assert_eq!(strip_quotes("\"\""), "");
}

#[test]
fn body_decoding() {
    let gbk_bytes = [0xd6u8, 0xd0, 0xce, 0xc4];
    assert_eq!(decode_body(&gbk_bytes, Some("text/html; charset=gbk")), "中文");
    assert_eq!(decode_body(&gbk_bytes, None), "中文");
    assert_eq!(decode_body("中文".as_bytes(), None), "中文");
    assert_eq!(decode_body("中文".as_bytes(), Some("text/plain; charset=unknown-x")), "中文");
    assert_eq!(decode_body(b"abc", Some("text/plain; charset=latin1")), "abc");
    let r = proxy_response(200, HashMap::new(), "ok".as_bytes(), None);
    assert_eq!(r.status, 200);
    assert_eq!(r.body, "ok");
    assert!(r.headers.is_empty());
}

#[test]
fn source_calls() {
    let c = search_call();
    assert_eq!(c.candidates, vec!["search".to_string()]);
    assert_eq!(c.timeout_secs, 40);
    assert_eq!(chapter_list_call().candidates, vec!["toc".to_string(), "chapterList".to_string()]);
    assert_eq!(chapter_list_call().timeout_secs, 120);
    assert_eq!(chapter_content_call().candidates, vec!["content".to_string(), "chapterContent".to_string()]);
    assert_eq!(book_info_call().candidates, vec!["bookInfo".to_string()]);
    assert_eq!(explore_call().timeout_secs, 40);
    assert_eq!(EVAL_TIMEOUT_SECS, 18);
    assert_eq!(page_or_first(None), 1);
    assert_eq!(page_or_first(Some(3)), 3);
}

#[test]
fn source_scripts() {
    let tail = fn_tail(&vec!["toc".to_string(), "chapterList".to_string()], "[\"u\"]").unwrap();
    assert!(tail.starts_with("const candidates = [\"toc\",\"chapterList\"];"));
    assert!(tail.contains("await fn.apply(mod, [\"u\"]);"));
    let js = build_bootstrap("r1", "a.js", "function search(){}", "TAIL").unwrap();
    assert!(js.contains("const REQ = \"r1\";"));
    assert!(js.contains("const fileName = \"a.js\";"));
    assert!(js.contains("new Function('legado', \"function search(){}\" + '\\n;return {"));
    assert!(js.contains("\n    TAIL\n  } catch (e) {"));
    assert!(js.ends_with("})();\n\"started\""));
    let t = eval_tail(None).unwrap();
    assert!(t.contains("Object.keys(mod)"));
    let t = eval_tail(Some("return 1")).unwrap();
    assert!(t.starts_with("const __fn = new Function('module', 'with(module){\\n' + \"return 1\" + '\\n}');"));
}
