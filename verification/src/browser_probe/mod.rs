//! Browser probing: sessions in separate web-view windows, in which a page
//! is loaded and user code is run. The windows, the waiting and the script
//! injection belong to the host; this module keeps the session list and
//! decides each step: how long to wait, when a page counts as loaded, what
//! the injected scripts say, and what a poll or an evaluation came to.
use vstd::prelude::*;

use crate::booksource::commands::{lemma_without, without};
use crate::errors::{CommandError, ErrorKind};
use crate::json::{json_parses, json_quoted, json_value_outcome, parse_json_value, quote_json, texts, JsonValue};
use crate::bookshelf::commands::is_lower_hex;
use crate::paths::concat_text;
use crate::text::{
    ascii_case, int_decimal, owned, push_text, same_text, to_ascii_case, trim_text, trimmed,
    u64_decimal,
};

verus! {

// ── sessions ─────────────────────────────────────────────────────────────

/// The live probe sessions (window labels) and the user agent that new
/// sessions get.
#[derive(Debug)]
pub struct BrowserProbeState {
    sessions: Vec<String>,
    user_agent: Option<String>,
}

/// The probe state as a spec value.
pub struct ProbeStateView {
    pub sessions: Seq<Seq<char>>,
    pub user_agent: Option<Seq<char>>,
}

impl View for BrowserProbeState {
    type V = ProbeStateView;

    closed spec fn view(&self) -> ProbeStateView {
        ProbeStateView {
            sessions: texts(self.sessions@),
            user_agent: match self.user_agent {
                Some(u) => Some(u@),
                None => None,
            },
        }
    }
}

impl BrowserProbeState {
    /// No session, no user agent.
    pub fn new() -> (s: BrowserProbeState)
        ensures
            s@.sessions.len() == 0,
            s@.user_agent is None,
    {
        let s = BrowserProbeState { sessions: Vec::new(), user_agent: None };
        assert(s@.sessions =~= Seq::<Seq<char>>::empty());
        s
    }

    /// Records a session that was opened.
    pub fn add_session(&mut self, label: String)
        ensures
            final(self)@.sessions == old(self)@.sessions.push(label@),
            final(self)@.user_agent == old(self)@.user_agent,
    {
        self.sessions.push(label);
        assert(texts(self.sessions@) =~= texts(old(self).sessions@).push(label@));
    }

    /// Forgets a session (every entry with its label).
    pub fn remove_session(&mut self, label: &str)
        ensures
            final(self)@.sessions == without(old(self)@.sessions, label@),
            final(self)@.user_agent == old(self)@.user_agent,
    {
        crate::booksource::commands::remove_extra_dir(&mut self.sessions, label);
    }

    /// Hands out every session and forgets them all.
    pub fn take_sessions(&mut self) -> (r: Vec<String>)
        ensures
            texts(r@) == old(self)@.sessions,
            final(self)@.sessions.len() == 0,
            final(self)@.user_agent == old(self)@.user_agent,
    {
        let mut out: Vec<String> = Vec::new();
        std::mem::swap(&mut out, &mut self.sessions);
        assert(texts(self.sessions@) =~= Seq::<Seq<char>>::empty());
        out
    }

    /// The oldest live session, whose window cookie commands use first.
    pub fn first_session(&self) -> (r: Option<String>)
        ensures
            self@.sessions.len() == 0 ==> r is None,
            self@.sessions.len() > 0 ==> (r matches Some(l) && l@ == self@.sessions[0]),
    {
        if self.sessions.len() == 0 {
            None
        } else {
            let l = self.sessions[0].clone();
            assert(texts(self.sessions@)[0] == self.sessions@[0]@);
            Some(l)
        }
    }

    /// Sets the user agent of later sessions; a blank text clears it.
    pub fn set_user_agent(&mut self, user_agent: String)
        ensures
            final(self)@.sessions == old(self)@.sessions,
            final(self)@.user_agent == stored_user_agent(user_agent@),
    {
        let t = trim_text(user_agent.as_str());
        if t.as_str().is_empty() {
            self.user_agent = None;
        } else {
            self.user_agent = Some(user_agent);
        }
    }

    /// The user agent of a new session: the one asked for, unless blank,
    /// else the stored one.
    pub fn session_user_agent(&self, requested: Option<String>) -> (r: Option<String>)
        ensures
            opt_view(r) == effective_user_agent(self@.user_agent, opt_view(requested)),
    {
        match requested {
            Some(u) => {
                let t = trim_text(u.as_str());
                if !t.as_str().is_empty() {
                    return Some(u);
                }
            },
            None => {},
        }
        match &self.user_agent {
            Some(u) => Some(u.clone()),
            None => None,
        }
    }
}

/// The user agent stored for later sessions when `ua` is set: none when it
/// is blank.
pub open spec fn stored_user_agent(ua: Seq<char>) -> Option<Seq<char>> {
    if trimmed(ua).len() == 0 {
        None
    } else {
        Some(ua)
    }
}

/// The user agent a new session gets: the one it asks for unless blank,
/// else the stored one.
pub open spec fn effective_user_agent(stored: Option<Seq<char>>, requested: Option<Seq<char>>) -> Option<Seq<char>> {
    match requested {
        Some(u) => if trimmed(u).len() > 0 {
            Some(u)
        } else {
            stored
        },
        None => stored,
    }
}

pub open spec fn opt_view(o: Option<String>) -> Option<Seq<char>> {
    match o {
        Some(s) => Some(s@),
        None => None,
    }
}

/// Closing a session forgets it, and closing every session leaves none;
/// neither touches the stored user agent.
pub proof fn law_close_session(sessions: Seq<Seq<char>>, label: Seq<char>)
    ensures
        !without(sessions, label).contains(label),
        forall|x: Seq<char>| x != label ==> (#[trigger] without(sessions, label).contains(x) <==> sessions.contains(x)),
{
    lemma_without(sessions, label);
}

/// A user agent set for later sessions is what a session created without
/// one of its own gets; a blank one clears it, so such a session gets none;
/// a session that asks for a non-blank one gets that one whatever is stored.
pub proof fn law_user_agent_then_session(stored: Option<Seq<char>>, ua: Seq<char>, asked: Seq<char>)
    ensures
        trimmed(ua).len() == 0 ==> effective_user_agent(stored_user_agent(ua), None) is None,
        trimmed(ua).len() > 0 ==> effective_user_agent(stored_user_agent(ua), None) == Some(ua),
        trimmed(asked).len() > 0 ==> effective_user_agent(stored, Some(asked)) == Some(asked),
{
}

/// The label of a new session window: `probe-` and a fresh UUID in simple
/// form.
pub open spec fn is_session_label(l: Seq<char>) -> bool {
    &&& l.len() == 38
    &&& l.take(6) == "probe-"@
    &&& forall|i: int| 6 <= i < 38 ==> is_lower_hex(#[trigger] l[i])
}

/// `uuid::Uuid::new_v4().simple().to_string()`: a fresh random UUID as 32
/// lower-case hex digits. The contract states that shape only; which UUID
/// comes out is chance.
#[verifier::external_body]
fn random_simple_uuid() -> (r: String)
    ensures
        r@.len() == 32,
        forall|i: int| 0 <= i < 32 ==> is_lower_hex(#[trigger] r@[i]),
{
    uuid::Uuid::new_v4().simple().to_string()
}

/// A fresh session label.
pub fn new_session_label() -> (r: String)
    ensures
        is_session_label(r@),
{
    let id = random_simple_uuid();
    let l = concat_text("probe-", id.as_str());
    proof {
        reveal_strlit("probe-");
        assert(l@.take(6) =~= "probe-"@);
        assert forall|i: int| 6 <= i < 38 implies is_lower_hex(#[trigger] l@[i]) by {
            assert(l@[i] == id@[i - 6]);
        }
    }
    l
}

/// The error when a session's window is not there.
pub fn missing_session(session_id: &str) -> (e: CommandError)
    ensures
        e.kind() == ErrorKind::NotFound,
        e.text() == "探测会话不存在或已关闭: "@ + session_id@,
{
    CommandError::NotFound(concat_text("探测会话不存在或已关闭: ", session_id))
}

// ── options and timeouts ─────────────────────────────────────────────────

/// Options of a navigation.
#[derive(Debug)]
pub struct NavigateOptions {
    pub wait_until: Option<String>,
    pub wait_for: Option<String>,
    pub timeout_secs: Option<u64>,
    pub timeout: Option<u64>,
    pub timeout_ms: Option<u64>,
}

/// Options of an evaluation.
#[derive(Debug)]
pub struct EvalOptions {
    pub timeout_secs: Option<u64>,
    pub timeout: Option<u64>,
    pub timeout_ms: Option<u64>,
}

/// A cookie to store.
#[derive(Debug)]
pub struct ProbeCookie {
    pub name: String,
    pub value: String,
    pub domain: Option<String>,
    pub path: Option<String>,
    pub expires: Option<i64>,
    pub http_only: Option<bool>,
    pub secure: Option<bool>,
    pub same_site: Option<String>,
}

/// A length of time in whole seconds and the milliseconds beyond them.
#[derive(Debug, Clone, Copy, PartialEq, Eq, Structural)]
pub struct Timeout {
    pub secs: u64,
    pub millis: u32,
}

/// The timeout a request asks for: `timeoutSecs`, else `timeout` (also in
/// seconds), else `timeoutMs`, else the default.
pub open spec fn spec_timeout_of(secs: Option<u64>, t: Option<u64>, ms: Option<u64>, default: Timeout) -> Timeout {
    match secs {
        Some(s) => Timeout { secs: s, millis: 0 },
        None => match t {
            Some(s) => Timeout { secs: s, millis: 0 },
            None => match ms {
                Some(m) => Timeout { secs: (m / 1000) as u64, millis: (m % 1000) as u32 },
                None => default,
            },
        },
    }
}

pub fn timeout_of(secs: Option<u64>, t: Option<u64>, ms: Option<u64>, default: Timeout) -> (r: Timeout)
    ensures
        r == spec_timeout_of(secs, t, ms, default),
{
    match secs {
        Some(s) => Timeout { secs: s, millis: 0 },
        None => match t {
            Some(s) => Timeout { secs: s, millis: 0 },
            None => match ms {
                Some(m) => Timeout { secs: m / 1000, millis: (m % 1000) as u32 },
                None => default,
            },
        },
    }
}

/// How long a navigation waits for the page: 60 s unless asked otherwise.
pub fn navigate_timeout(opts: &NavigateOptions) -> (r: Timeout)
    ensures
        r == spec_timeout_of(opts.timeout_secs, opts.timeout, opts.timeout_ms, Timeout { secs: 60, millis: 0 }),
{
    timeout_of(opts.timeout_secs, opts.timeout, opts.timeout_ms, Timeout { secs: 60, millis: 0 })
}

/// How long an evaluation waits for its result: 55 s unless asked otherwise.
pub fn eval_timeout(opts: &EvalOptions) -> (r: Timeout)
    ensures
        r == spec_timeout_of(opts.timeout_secs, opts.timeout, opts.timeout_ms, Timeout { secs: 55, millis: 0 }),
{
    timeout_of(opts.timeout_secs, opts.timeout, opts.timeout_ms, Timeout { secs: 55, millis: 0 })
}

/// What a navigation waits for: `waitUntil`, else `waitFor`, else `load`.
pub fn wait_until_of(opts: &NavigateOptions) -> (r: String)
    ensures
        r@ == match opts.wait_until {
            Some(w) => w@,
            None => match opts.wait_for {
                Some(w) => w@,
                None => "load"@,
            },
        },
{
    match &opts.wait_until {
        Some(w) => w.clone(),
        None => match &opts.wait_for {
            Some(w) => w.clone(),
            None => owned("load"),
        },
    }
}

// ── navigation ───────────────────────────────────────────────────────────

/// Whether a page in `ready_state` satisfies `wait_until`:
/// `domcontentloaded` needs `interactive` or `complete`; anything else
/// (`load`, `networkidle`) needs `complete`.
pub open spec fn spec_page_ready(wait_until: Seq<char>, ready_state: Seq<char>) -> bool {
    if wait_until == "domcontentloaded"@ {
        ready_state == "interactive"@ || ready_state == "complete"@
    } else {
        ready_state == "complete"@
    }
}

pub fn page_ready(wait_until: &str, ready_state: &str) -> (r: bool)
    ensures
        r == spec_page_ready(wait_until@, ready_state@),
{
    if same_text(wait_until, "domcontentloaded") {
        same_text(ready_state, "interactive") || same_text(ready_state, "complete")
    } else {
        same_text(ready_state, "complete")
    }
}

/// The next step of a navigation after one look at `document.readyState`.
#[derive(Debug)]
pub enum NavigateStep {
    /// The page is ready; wait this many milliseconds more, then succeed.
    Done { settle_millis: u64 },
    /// Give up with this error.
    Fail(CommandError),
    /// Look again after this many milliseconds.
    Retry { after_millis: u64 },
}

/// The message of a navigation that timed out.
pub open spec fn navigate_timeout_text(timeout: Timeout, wait_until: Seq<char>) -> Seq<char> {
    "页面加载超时（"@ + int_decimal(timeout.secs as int) + "s，waitUntil="@ + wait_until + "）"@
}

/// Decides a navigation's next step: `ready_state` is the page's ready
/// state when the look returned one (`None` while the page could not
/// answer), `past_deadline` whether the timeout has run out. A ready page
/// ends the wait (after a further 500 ms for `networkidle`); otherwise the
/// timeout ends it with an error, or the page is looked at again in 100 ms.
pub fn navigate_step(wait_until: &str, ready_state: Option<&str>, past_deadline: bool, timeout: Timeout) -> (r:
    NavigateStep)
    ensures
        (ready_state matches Some(s) && spec_page_ready(wait_until@, s@)) ==> (r matches NavigateStep::Done {
            settle_millis,
        } && settle_millis == (if wait_until@ == "networkidle"@ {
            500u64
        } else {
            0u64
        })),
        !(ready_state matches Some(s) && spec_page_ready(wait_until@, s@)) && past_deadline ==> (r matches NavigateStep::Fail(
            e,
        ) && e.kind() == ErrorKind::Other && e.text() == navigate_timeout_text(timeout, wait_until@)),
        !(ready_state matches Some(s) && spec_page_ready(wait_until@, s@)) && !past_deadline ==> (r matches NavigateStep::Retry {
            after_millis,
        } && after_millis == 100),
{
    let ready = match ready_state {
        Some(s) => page_ready(wait_until, s),
        None => false,
    };
    if ready {
        let settle: u64 = if same_text(wait_until, "networkidle") {
            500
        } else {
            0
        };
        return NavigateStep::Done { settle_millis: settle };
    }
    if past_deadline {
        let mut m = owned("页面加载超时（");
        push_text(&mut m, u64_decimal(timeout.secs).as_str());
        push_text(&mut m, "s，waitUntil=");
        push_text(&mut m, wait_until);
        push_text(&mut m, "）");
        return NavigateStep::Fail(CommandError::Other(m));
    }
    NavigateStep::Retry { after_millis: 100 }
}

// ── scripts ──────────────────────────────────────────────────────────────

/// The JSON literal of a request id, or `""` when it cannot be written.
pub open spec fn spec_quote_or_empty(s: Seq<char>) -> Seq<char> {
    match json_quoted(s) {
        Ok(t) => t,
        Err(_) => "\"\""@,
    }
}

pub fn quote_or_empty(s: &str) -> (r: String)
    ensures
        r@ == spec_quote_or_empty(s@),
        json_quoted(s@) == Ok::<Seq<char>, Seq<char>>(r@),
{
    match quote_json(s) {
        Ok(t) => t,
        Err(_) => owned("\"\""),
    }
}

/// The script that reads the result slot of a request.
pub open spec fn spec_poll_script(req: Seq<char>) -> Seq<char> {
    "JSON.stringify((window.__probeResults || {})["@ + req + "] ?? null)"@
}

/// The script that clears the result slot of a request.
pub open spec fn spec_cleanup_script(req: Seq<char>) -> Seq<char> {
    "delete (window.__probeResults || {})["@ + req + "];"@
}

pub fn poll_script(req_id: &str) -> (r: String)
    ensures
        r@ == spec_poll_script(spec_quote_or_empty(req_id@)),
{
    let q = quote_or_empty(req_id);
    let mut s = owned("JSON.stringify((window.__probeResults || {})[");
    push_text(&mut s, q.as_str());
    push_text(&mut s, "] ?? null)");
    s
}

pub fn cleanup_script(req_id: &str) -> (r: String)
    ensures
        r@ == spec_cleanup_script(spec_quote_or_empty(req_id@)),
{
    let q = quote_or_empty(req_id);
    let mut s = owned("delete (window.__probeResults || {})[");
    push_text(&mut s, q.as_str());
    push_text(&mut s, "];");
    s
}

/// The script that runs user code in a page: the code becomes the body of
/// an async function; its value (or its error) lands in the request's
/// result slot.
pub open spec fn spec_eval_bootstrap(code: Seq<char>, req: Seq<char>) -> Seq<char> {
    "window.__probeResults = window.__probeResults || {};\n(async function() {\n  try {\n    const __v = await (async function() {\n"@
        + code + "\n    })();\n    window.__probeResults["@ + req
        + "] = { ok: true, value: __v === undefined ? null : __v };\n  } catch (__e) {\n    window.__probeResults["@
        + req + "] = { ok: false, error: String(__e && __e.stack || __e) };\n  }\n})();\n\"started\""@
}

pub fn eval_bootstrap(code: &str, req_id: &str) -> (r: String)
    ensures
        r@ == spec_eval_bootstrap(code@, spec_quote_or_empty(req_id@)),
{
    let q = quote_or_empty(req_id);
    let mut s = owned(
        "window.__probeResults = window.__probeResults || {};\n(async function() {\n  try {\n    const __v = await (async function() {\n",
    );
    push_text(&mut s, code);
    push_text(&mut s, "\n    })();\n    window.__probeResults[");
    push_text(&mut s, q.as_str());
    push_text(&mut s, "] = { ok: true, value: __v === undefined ? null : __v };\n  } catch (__e) {\n    window.__probeResults[");
    push_text(&mut s, q.as_str());
    push_text(&mut s, "] = { ok: false, error: String(__e && __e.stack || __e) };\n  }\n})();\n\"started\"");
    s
}

// ── polling ──────────────────────────────────────────────────────────────

/// What one evaluation of the poll script gave: a string, another value, or
/// an error.
#[derive(Debug)]
pub enum PollOutcome {
    Text(String),
    OtherValue,
    Failed(CommandError),
}

/// The next step of a poll.
#[derive(Debug)]
pub enum PollStep {
    /// The slot held this JSON text: clear the slot and parse it.
    Finish(String),
    /// Give up with this error.
    Fail(CommandError),
    /// Poll again after this many milliseconds.
    Retry { after_millis: u64 },
}

/// Decides a poll's next step: a string other than `null` is the result; an
/// evaluation error ends the poll; otherwise the timeout ends it with an
/// error, or the slot is read again in 100 ms.
pub fn poll_step(outcome: PollOutcome, past_deadline: bool, timeout: Timeout) -> (r: PollStep)
    ensures
        (outcome matches PollOutcome::Text(s) && s@ != "null"@) ==> (r matches PollStep::Finish(t) && t@ == outcome->Text_0@),
        outcome matches PollOutcome::Failed(e) ==> r == PollStep::Fail(e),
        !(outcome matches PollOutcome::Text(s) && s@ != "null"@) && !(outcome is Failed) && past_deadline ==> (r matches PollStep::Fail(e)
            && e.kind() == ErrorKind::Other && e.text() == "浏览器探测超时（"@ + int_decimal(timeout.secs as int) + "s）"@),
        !(outcome matches PollOutcome::Text(s) && s@ != "null"@) && !(outcome is Failed) && !past_deadline ==> (r matches PollStep::Retry {
            after_millis,
        } && after_millis == 100),
{
    match outcome {
        PollOutcome::Text(s) => {
            if !same_text(s.as_str(), "null") {
                return PollStep::Finish(s);
            }
        },
        PollOutcome::Failed(e) => {
            return PollStep::Fail(e);
        },
        PollOutcome::OtherValue => {},
    }
    if past_deadline {
        let mut m = owned("浏览器探测超时（");
        push_text(&mut m, u64_decimal(timeout.secs).as_str());
        push_text(&mut m, "s）");
        return PollStep::Fail(CommandError::Other(m));
    }
    PollStep::Retry { after_millis: 100 }
}

/// The error for a URL the browser cannot parse, with the parser's reason.
pub fn invalid_url(url: &str, reason: &str) -> (e: CommandError)
    ensures
        e.kind() == ErrorKind::Invalid,
        e.text() == "非法 URL "@ + url@ + ": "@ + reason@,
{
    let mut m = owned("非法 URL ");
    push_text(&mut m, url);
    push_text(&mut m, ": ");
    push_text(&mut m, reason);
    CommandError::Invalid(m)
}

/// The error when the cookies of a window cannot be read.
pub fn cookie_read_failed(reason: &str) -> (e: CommandError)
    ensures
        e.kind() == ErrorKind::Other,
        e.text() == "读取 cookie 失败: "@ + reason@,
{
    let mut m = owned("读取 cookie 失败: ");
    push_text(&mut m, reason);
    CommandError::Other(m)
}

/// What the raw result of an evaluation in a page becomes: the JSON value
/// of the whole text, or, when it is not JSON, the text itself.
pub enum EvalRaw {
    Json(JsonValue),
    Text(String),
}

pub fn eval_raw(raw: String) -> (r: EvalRaw)
    ensures
        r is Text <==> !json_parses(raw@),
        r matches EvalRaw::Text(s) ==> s@ == raw@,
        r matches EvalRaw::Json(v) ==> v.source() == raw@ && v.path() == Seq::<Seq<char>>::empty(),
{
    match parse_json_value(raw.as_str()) {
        Ok(p) => EvalRaw::Json(p.json),
        Err(_) => EvalRaw::Text(raw),
    }
}

/// The JSON value of the whole text found in a request's result slot, or
/// an error carrying the parser's message.
pub fn parse_probe_result(text: &str) -> (r: Result<JsonValue, CommandError>)
    ensures
        r is Ok <==> json_parses(text@),
        r matches Ok(v) ==> v.source() == text@ && v.path() == Seq::<Seq<char>>::empty(),
        r matches Err(e) ==> e.kind() == ErrorKind::Other && e.text() == "探测结果解析失败: "@
            + json_value_outcome(text@)->Err_0,
{
    match parse_json_value(text) {
        Ok(p) => Ok(p.json),
        Err(m) => {
            let mut msg = owned("探测结果解析失败: ");
            push_text(&mut msg, m.as_str());
            Err(CommandError::Other(msg))
        },
    }
}

/// The error an evaluation's result slot reports, if any: none when `ok` is
/// `true`; else the recorded error text, or `default_message` when there is
/// none.
pub fn eval_failure(ok: Option<bool>, error: Option<String>, default_message: &str) -> (r: Option<CommandError>)
    ensures
        ok == Some(true) ==> r is None,
        ok != Some(true) ==> (r matches Some(e) && e.kind() == ErrorKind::Other && e.text() == match error {
            Some(m) => m@,
            None => default_message@,
        }),
{
    match ok {
        Some(true) => None,
        _ => match error {
            Some(m) => Some(CommandError::Other(m)),
            None => Some(CommandError::Other(owned(default_message))),
        },
    }
}

// ── cookies ──────────────────────────────────────────────────────────────

/// The `SameSite` attribute of a cookie.
#[derive(Debug, Clone, Copy, PartialEq, Eq, Structural)]
pub enum SameSitePolicy {
    Strict,
    Lax,
    /// `SameSite=None`.
    NoRestriction,
}

/// `strict`, `lax` and `none`, in any ASCII case, name a policy; other
/// texts none.
pub open spec fn spec_same_site(s: Seq<char>) -> Option<SameSitePolicy> {
    let l = ascii_case(s, false);
    if l == "strict"@ {
        Some(SameSitePolicy::Strict)
    } else if l == "lax"@ {
        Some(SameSitePolicy::Lax)
    } else if l == "none"@ {
        Some(SameSitePolicy::NoRestriction)
    } else {
        None
    }
}

pub fn same_site_policy(s: &str) -> (r: Option<SameSitePolicy>)
    ensures
        r == spec_same_site(s@),
{
    let l = to_ascii_case(s, false);
    if same_text(l.as_str(), "strict") {
        Some(SameSitePolicy::Strict)
    } else if same_text(l.as_str(), "lax") {
        Some(SameSitePolicy::Lax)
    } else if same_text(l.as_str(), "none") {
        Some(SameSitePolicy::NoRestriction)
    } else {
        None
    }
}

/// The cookie as it is stored.
#[derive(Debug)]
pub struct CookiePlan {
    pub name: String,
    pub value: String,
    pub domain: Option<String>,
    pub path: String,
    pub secure: bool,
    pub http_only: bool,
    pub expires: Option<i64>,
    pub same_site: Option<SameSitePolicy>,
}

/// How a cookie given for a URL is stored: its own domain unless empty,
/// else the URL's host; its path, `/` by default; `Secure` and `HttpOnly`
/// only when asked for; its expiry; its `SameSite` policy when it names one.
pub fn cookie_plan(cookie: ProbeCookie, url_host: Option<String>) -> (r: CookiePlan)
    ensures
        r.name == cookie.name,
        r.value == cookie.value,
        opt_view(r.domain) == match cookie.domain {
            Some(d) => if d@.len() > 0 {
                Some(d@)
            } else {
                opt_view(url_host)
            },
            None => opt_view(url_host),
        },
        r.path@ == match cookie.path {
            Some(p) => p@,
            None => "/"@,
        },
        r.secure == (cookie.secure == Some(true)),
        r.http_only == (cookie.http_only == Some(true)),
        r.expires == cookie.expires,
        r.same_site == match cookie.same_site {
            Some(s) => spec_same_site(s@),
            None => None,
        },
{
    let domain = match cookie.domain {
        Some(d) => if d.as_str().is_empty() {
            url_host
        } else {
            Some(d)
        },
        None => url_host,
    };
    let path = match cookie.path {
        Some(p) => p,
        None => owned("/"),
    };
    let same_site = match &cookie.same_site {
        Some(s) => same_site_policy(s.as_str()),
        None => None,
    };
    CookiePlan {
        name: cookie.name,
        value: cookie.value,
        domain,
        path,
        secure: cookie.secure == Some(true),
        http_only: cookie.http_only == Some(true),
        expires: cookie.expires,
        same_site,
    }
}

} // verus!
