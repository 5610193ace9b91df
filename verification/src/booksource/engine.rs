//! The book-source engine's share of the work that is not in the page: the
//! scripts that load a source into the main window and call its functions,
//! the calls each command makes, and the HTTP proxy that the sources' code
//! uses (method, charset and decoding of the response body).
use vstd::prelude::*;
use vstd::utf8::{decode_utf8, valid_utf8};

use crate::errors::{CommandError, ErrorKind};
use crate::json::{compact_string_list, json_compact_string_list, json_quoted, quote_json, texts};
use crate::text::{
    ascii_case, chars_of, owned, push_char, push_text, starts_with_text, to_ascii_case, trim_text, trimmed,
};

verus! {

// ── the HTTP proxy ───────────────────────────────────────────────────────

/// A request made by a book source's code.
#[derive(Debug)]
pub struct HttpProxyRequest {
    pub url: String,
    pub method: Option<String>,
    pub headers: Option<std::collections::HashMap<String, String>>,
    pub body: Option<String>,
}

/// The answer handed back to the book source's code.
#[derive(Debug)]
pub struct HttpProxyResponse {
    pub status: u16,
    pub headers: std::collections::HashMap<String, String>,
    pub body: String,
}

/// The methods that the `http` crate knows by name.
pub open spec fn standard_http_method(m: Seq<char>) -> bool {
    ||| m == "GET"@
    ||| m == "PUT"@
    ||| m == "POST"@
    ||| m == "HEAD"@
    ||| m == "PATCH"@
    ||| m == "TRACE"@
    ||| m == "QUERY"@
    ||| m == "DELETE"@
    ||| m == "OPTIONS"@
    ||| m == "CONNECT"@
}

/// A character allowed in an HTTP token (RFC 9110 `tchar`): a letter, a
/// digit, or one of ``!#$%&'*+-.^_`|~``.
pub open spec fn is_token_char(c: char) -> bool {
    ||| ('0' <= c && c <= '9')
    ||| ('A' <= c && c <= 'Z')
    ||| ('a' <= c && c <= 'z')
    ||| c == '!' || c == '#' || c == '$' || c == '%' || c == '&' || c == '\''
    ||| c == '*' || c == '+' || c == '-' || c == '.' || c == '^' || c == '_'
    ||| c == '`' || c == '|' || c == '~'
}

/// Whether `reqwest::Method::from_bytes` accepts a method name: a name that
/// is not empty and made of token characters only (its `METHOD_CHARS` table;
/// the bytes of other characters are not in it).
pub open spec fn http_method_accepted(m: Seq<char>) -> bool {
    m.len() > 0 && forall|i: int| 0 <= i < m.len() ==> is_token_char(#[trigger] m[i])
}

/// Calls `reqwest::Method::from_bytes` on the name's bytes. Its contract:
/// it succeeds exactly when `http_method_accepted` holds; the standard
/// methods are accepted and the empty name is not (as the source of
/// `Method::from_bytes` shows); the error's text is `invalid HTTP method`.
#[verifier::external_body]
fn check_http_method(m: &str) -> (r: Result<(), String>)
    ensures
        r is Ok <==> http_method_accepted(m@),
        standard_http_method(m@) ==> r is Ok,
        m@.len() == 0 ==> r is Err,
        r matches Err(e) ==> e@ == "invalid HTTP method"@,
{
    match reqwest::Method::from_bytes(m.as_bytes()) {
        Ok(_) => Ok(()),
        Err(e) => Err(e.to_string()),
    }
}

/// The method a proxied request is sent with: the requested one (`GET` by
/// default) in ASCII upper case, which must be a method the HTTP client
/// accepts.
pub fn proxy_method(method: Option<&str>) -> (r: Result<String, CommandError>)
    ensures
        ({
            let m = ascii_case(
                match method {
                    Some(x) => x@,
                    None => "GET"@,
                },
                true,
            );
            &&& r is Ok <==> http_method_accepted(m)
            &&& r matches Ok(s) ==> s@ == m
            &&& r matches Err(e) ==> e.kind() == ErrorKind::Invalid && e.text() == "非法 HTTP 方法 "@ + m + ": "@
                + "invalid HTTP method"@
        }),
{
    let m = match method {
        Some(x) => to_ascii_case(x, true),
        None => to_ascii_case("GET", true),
    };
    match check_http_method(m.as_str()) {
        Ok(()) => Ok(m),
        Err(e) => {
            let mut msg = owned("非法 HTTP 方法 ");
            push_text(&mut msg, m.as_str());
            push_text(&mut msg, ": ");
            push_text(&mut msg, e.as_str());
            Err(CommandError::Invalid(msg))
        },
    }
}

/// The pieces of a text between `;` separators (`str::split(';')`).
pub open spec fn split_semis(s: Seq<char>) -> Seq<Seq<char>>
    decreases s.len(),
{
    if s.len() == 0 {
        seq![Seq::<char>::empty()]
    } else if s.last() == ';' {
        split_semis(s.drop_last()).push(Seq::<char>::empty())
    } else {
        let p = split_semis(s.drop_last());
        p.update(p.len() - 1, p.last().push(s.last()))
    }
}

proof fn lemma_split_semis_nonempty(s: Seq<char>)
    ensures
        split_semis(s).len() >= 1,
    decreases s.len(),
{
    if s.len() > 0 {
        lemma_split_semis_nonempty(s.drop_last());
    }
}

/// Number of leading `c` characters.
pub open spec fn lead_count(s: Seq<char>, c: char) -> nat
    decreases s.len(),
{
    if s.len() == 0 || s[0] != c {
        0
    } else {
        1 + lead_count(s.drop_first(), c)
    }
}

/// Number of trailing `c` characters.
pub open spec fn trail_count(s: Seq<char>, c: char) -> nat
    decreases s.len(),
{
    if s.len() == 0 || s.last() != c {
        0
    } else {
        1 + trail_count(s.drop_last(), c)
    }
}

/// `str::trim_matches(c)`: every leading and trailing `c` removed.
pub open spec fn strip_char(s: Seq<char>, c: char) -> Seq<char> {
    let a = s.skip(lead_count(s, c) as int);
    a.take(a.len() - trail_count(a, c))
}

proof fn lemma_lead_count_is(s: Seq<char>, c: char, k: int)
    requires
        0 <= k <= s.len(),
        forall|j: int| 0 <= j < k ==> #[trigger] s[j] == c,
        k < s.len() ==> s[k] != c,
    ensures
        lead_count(s, c) == k,
    decreases s.len(),
{
    if k > 0 {
        assert forall|j: int| 0 <= j < k - 1 implies #[trigger] s.drop_first()[j] == c by {
            assert(s.drop_first()[j] == s[j + 1]);
        }
        if k - 1 < s.drop_first().len() {
            assert(s.drop_first()[k - 1] == s[k]);
        }
        lemma_lead_count_is(s.drop_first(), c, k - 1);
    }
}

proof fn lemma_trail_count_is(s: Seq<char>, c: char, k: int)
    requires
        0 <= k <= s.len(),
        forall|j: int| s.len() - k <= j < s.len() ==> #[trigger] s[j] == c,
        k < s.len() ==> s[s.len() - k - 1] != c,
    ensures
        trail_count(s, c) == k,
    decreases s.len(),
{
    if k > 0 {
        let d = s.drop_last();
        assert forall|j: int| d.len() - (k - 1) <= j < d.len() implies #[trigger] d[j] == c by {
            assert(d[j] == s[j]);
        }
        if k - 1 < d.len() {
            assert(d[d.len() - (k - 1) - 1] == s[s.len() - k - 1]);
        }
        lemma_trail_count_is(d, c, k - 1);
    }
}

/// The text with every leading and trailing `"` removed.
pub fn strip_quotes(s: &str) -> (r: String)
    ensures
        r@ == strip_char(s@, '"'),
{
    let cs = chars_of(s);
    let n = cs.len();
    let mut start: usize = 0;
    while start < n && cs[start] == '"'
        invariant
            n == cs@.len(),
            start <= n,
            forall|j: int| 0 <= j < start ==> #[trigger] cs@[j] == '"',
        decreases n - start,
    {
        start = start + 1;
    }
    let mut end: usize = n;
    while end > start && cs[end - 1] == '"'
        invariant
            n == cs@.len(),
            start <= end <= n,
            forall|j: int| end <= j < n ==> #[trigger] cs@[j] == '"',
        decreases end - start,
    {
        end = end - 1;
    }
    let out = crate::text::slice_text(&cs, start, end);
    proof {
        let sv = s@;
        lemma_lead_count_is(sv, '"', start as int);
        let a = sv.skip(start as int);
        let k = (n - end) as int;
        assert forall|j: int| a.len() - k <= j < a.len() implies #[trigger] a[j] == '"' by {
            assert(a[j] == sv[j + start]);
        }
        if k < a.len() {
            assert(a[a.len() - k - 1] == sv[end - 1]);
        }
        lemma_trail_count_is(a, '"', k);
        assert(out@ =~= a.take(a.len() - trail_count(a, '"')));
    }
    out
}

/// A piece names the charset when, trimmed, it starts with `charset=`.
pub open spec fn charset_piece(p: Seq<char>) -> bool {
    trimmed(p).len() >= 8 && trimmed(p).take(8) == "charset="@
}

/// The charset named by the first piece that names one: the text after
/// `charset=`, without surrounding quotes.
pub open spec fn charset_in(parts: Seq<Seq<char>>) -> Option<Seq<char>>
    decreases parts.len(),
{
    if parts.len() == 0 {
        None
    } else if charset_piece(parts[0]) {
        Some(strip_char(trimmed(parts[0]).skip(8), '"'))
    } else {
        charset_in(parts.drop_first())
    }
}

/// The charset a `Content-Type` value names, if any.
pub open spec fn spec_charset_of(content_type: Seq<char>) -> Option<Seq<char>> {
    charset_in(split_semis(content_type))
}

/// The pieces of a text between `;` separators.
fn split_on_semis(s: &str) -> (r: Vec<String>)
    ensures
        texts(r@) == split_semis(s@),
{
    let cs = chars_of(s);
    let n = cs.len();
    let mut pieces: Vec<String> = Vec::new();
    let mut cur = String::new();
    for i in 0..n
        invariant
            n == cs@.len(),
            cs@ == s@,
            texts(pieces@).push(cur@) == split_semis(s@.take(i as int)),
    {
        let c = cs[i];
        let ghost before = texts(pieces@).push(cur@);
        proof {
            assert(s@.take(i + 1).drop_last() =~= s@.take(i as int));
            assert(s@.take(i + 1).last() == c);
            lemma_split_semis_nonempty(s@.take(i as int));
        }
        if c == ';' {
            let done = cur;
            pieces.push(done);
            cur = String::new();
            assert(texts(pieces@).push(cur@) =~= before.push(Seq::<char>::empty()));
        } else {
            let ghost old_cur = cur@;
            push_char(&mut cur, c);
            assert(texts(pieces@).push(cur@) =~= before.update(before.len() - 1, before.last().push(c)));
        }
    }
    assert(s@.take(n as int) =~= s@);
    pieces.push(cur);
    pieces
}

/// The charset named in a `Content-Type` header value.
pub fn charset_of(content_type: &str) -> (r: Option<String>)
    ensures
        opt_text(r) == spec_charset_of(content_type@),
{
    let parts = split_on_semis(content_type);
    let ghost ps = texts(parts@);
    let n = parts.len();
    let mut i: usize = 0;
    assert(ps.skip(0) =~= ps);
    while i < n
        invariant
            n == parts@.len(),
            ps == texts(parts@),
            ps == split_semis(content_type@),
            i <= n,
            charset_in(ps) == charset_in(ps.skip(i as int)),
        decreases n - i,
    {
        let t = trim_text(parts[i].as_str());
        assert(ps.skip(i as int)[0] == parts@[i as int]@);
        proof {
            reveal_strlit("charset=");
        }
        if starts_with_text(t.as_str(), "charset=") {
            let rest = crate::text::slice_text(&chars_of(t.as_str()), 8, t.as_str().unicode_len());
            return Some(strip_quotes(rest.as_str()));
        }
        assert(ps.skip(i as int).drop_first() =~= ps.skip(i + 1));
        i = i + 1;
    }
    assert(ps.skip(n as int) =~= Seq::<Seq<char>>::empty());
    None
}

pub open spec fn opt_text(o: Option<String>) -> Option<Seq<char>> {
    match o {
        Some(s) => Some(s@),
        None => None,
    }
}

/// What `encoding_rs` makes of the bytes under a charset label: `None` when
/// `Encoding::for_label` knows no such label, else the text that
/// `Encoding::decode` gives.
pub uninterp spec fn labelled_decoding(label: Seq<char>, bytes: Seq<u8>) -> Option<Seq<char>>;

/// What `encoding_rs::GBK.decode` makes of the bytes.
pub uninterp spec fn gbk_decoding(bytes: Seq<u8>) -> Seq<char>;

/// Looks the label up with `encoding_rs::Encoding::for_label` and decodes
/// the bytes with what it finds (`Encoding::decode`, the text kept, the
/// rest of its answer dropped). Its contract: the result is the named
/// outcome `labelled_decoding` of the label and the bytes.
#[verifier::external_body]
fn decode_labelled(label: &str, bytes: &[u8]) -> (r: Option<String>)
    ensures
        opt_text(r) == labelled_decoding(label@, bytes@),
{
    encoding_rs::Encoding::for_label(label.as_bytes()).map(|enc| enc.decode(bytes).0.into_owned())
}

/// Decodes the bytes with `encoding_rs::GBK.decode`, keeping the text. Its
/// contract: the result is the named outcome `gbk_decoding` of the bytes.
#[verifier::external_body]
fn decode_gbk(bytes: &[u8]) -> (r: String)
    ensures
        r@ == gbk_decoding(bytes@),
{
    encoding_rs::GBK.decode(bytes).0.into_owned()
}

/// `std::str::from_utf8`: the text when the bytes are valid UTF-8, else
/// nothing, as the standard library documents it.
#[verifier::external_body]
fn utf8_text(bytes: &[u8]) -> (r: Option<String>)
    ensures
        r is Some <==> valid_utf8(bytes@),
        r matches Some(s) ==> s@ == decode_utf8(bytes@),
{
    std::str::from_utf8(bytes).ok().map(|s| s.to_string())
}

/// How a response body is read: with the charset its `Content-Type` names,
/// when `encoding_rs` knows it; else as UTF-8 when it is valid UTF-8; else
/// as GBK (common on Chinese sites).
pub open spec fn spec_decode_body(bytes: Seq<u8>, content_type: Option<Seq<char>>) -> Seq<char> {
    let by_label = match content_type {
        Some(ct) => match spec_charset_of(ct) {
            Some(label) => labelled_decoding(label, bytes),
            None => None,
        },
        None => None,
    };
    match by_label {
        Some(t) => t,
        None => if valid_utf8(bytes) {
            decode_utf8(bytes)
        } else {
            gbk_decoding(bytes)
        },
    }
}

/// The body is decoded by the charset the Content-Type names whenever
/// `encoding_rs` knows that label; only without a usable label does it fall
/// back: to UTF-8 for valid UTF-8, else to GBK.
pub proof fn law_decode_follows_charset(bytes: Seq<u8>, content_type: Seq<char>, label: Seq<char>)
    requires
        spec_charset_of(content_type) == Some(label),
    ensures
        labelled_decoding(label, bytes) matches Some(t) ==> spec_decode_body(bytes, Some(content_type)) == t,
        labelled_decoding(label, bytes) is None && valid_utf8(bytes) ==> spec_decode_body(bytes, Some(content_type))
            == decode_utf8(bytes),
        labelled_decoding(label, bytes) is None && !valid_utf8(bytes) ==> spec_decode_body(bytes, Some(content_type))
            == gbk_decoding(bytes),
{
}

/// Without a charset in the Content-Type (or without one at all), valid
/// UTF-8 is read as UTF-8 and anything else as GBK.
pub proof fn law_decode_without_charset(bytes: Seq<u8>, content_type: Option<Seq<char>>)
    requires
        content_type matches Some(ct) ==> spec_charset_of(ct) is None,
    ensures
        valid_utf8(bytes) ==> spec_decode_body(bytes, content_type) == decode_utf8(bytes),
        !valid_utf8(bytes) ==> spec_decode_body(bytes, content_type) == gbk_decoding(bytes),
{
}

pub fn decode_body(bytes: &[u8], content_type: Option<&str>) -> (r: String)
    ensures
        r@ == spec_decode_body(bytes@, match content_type {
            Some(c) => Some(c@),
            None => None,
        }),
{
    let charset = match content_type {
        Some(ct) => charset_of(ct),
        None => None,
    };
    match charset {
        Some(label) => {
            match decode_labelled(label.as_str(), bytes) {
                Some(t) => {
                    return t;
                },
                None => {},
            }
        },
        None => {},
    }
    match utf8_text(bytes) {
        Some(s) => s,
        None => decode_gbk(bytes),
    }
}

/// The answer to a proxied request, from what the host received.
pub fn proxy_response(status: u16, headers: std::collections::HashMap<String, String>, bytes: &[u8], content_type: Option<&str>) -> (r:
    HttpProxyResponse)
    ensures
        r.status == status,
        r.headers == headers,
        r.body@ == spec_decode_body(bytes@, match content_type {
            Some(c) => Some(c@),
            None => None,
        }),
{
    HttpProxyResponse { status, headers, body: decode_body(bytes, content_type) }
}


// ── scripts ──────────────────────────────────────────────────────────────

/// The fixed parts of the script that loads a book source into the main
/// window (once per file name, as a module with the functions a source may
/// define) and then runs a tail of code with `REQ`, `fileName` and `mod` in
/// scope; an exception lands in the request's result slot.
pub open spec fn bootstrap_text(req: Seq<char>, file: Seq<char>, code: Seq<char>, tail: Seq<char>) -> Seq<char> {
    "window.__probeResults = window.__probeResults || {};\nwindow.__bsModules = window.__bsModules || {};\n(async function() {\n  const REQ = "@ + req + ";\n  try {\n    const fileName = "@ + file + ";\n    if (!window.__bsModules[fileName]) {\n      const __invokeRaw = window.__TAURI_INTERNALS__.invoke;\n      const __invoke = (cmd, args) => __invokeRaw(cmd, args).catch(e => {\n        throw new Error(e && e.message ? e.message : String(e));\n      });\n      const legado = {\n        http: {\n          get: (url, headers) => __invoke('booksource_http_proxy', { request: { url, method: 'GET', headers: headers || {} } }).then(r => r.body),\n          post: (url, body, headers) => __invoke('booksource_http_proxy', { request: { url, method: 'POST', body: body ?? null, headers: headers || {} } }).then(r => r.body),\n          request: (request) => __invoke('booksource_http_proxy', { request }),\n        },\n      };\n      const factory = new Function('legado', "@ + code + " + '\\n;return {\\n  search: typeof search === \"function\" ? search : undefined,\\n  bookInfo: typeof bookInfo === \"function\" ? bookInfo : undefined,\\n  toc: typeof toc === \"function\" ? toc : undefined,\\n  chapterList: typeof chapterList === \"function\" ? chapterList : undefined,\\n  content: typeof content === \"function\" ? content : undefined,\\n  chapterContent: typeof chapterContent === \"function\" ? chapterContent : undefined,\\n  explore: typeof explore === \"function\" ? explore : undefined\\n};');\n      window.__bsModules[fileName] = factory(legado);\n    }\n    const mod = window.__bsModules[fileName];\n    "@ + tail + "\n  } catch (e) {\n    window.__probeResults[REQ] = { ok: false, error: String(e && (e.stack || e.message) || e) };\n  }\n})();\n\"started\""@
}

fn quote_or_error(s: &str) -> (r: Result<String, CommandError>)
    ensures
        match json_quoted(s@) {
            Ok(t) => r matches Ok(x) && x@ == t,
            Err(m) => r matches Err(e) && e.kind() == ErrorKind::Other && e.text() == m,
        },
        r is Ok,
{
    match quote_json(s) {
        Ok(t) => Ok(t),
        Err(m) => Err(CommandError::Other(m)),
    }
}

/// The script that runs `tail_js` in the module of a book source, the
/// request id, file name and source code written as JSON literals.
pub fn build_bootstrap(req_id: &str, file_name: &str, source_code: &str, tail_js: &str) -> (r: Result<String, CommandError>)
    ensures
        match (json_quoted(req_id@), json_quoted(file_name@), json_quoted(source_code@)) {
            (Ok(req), Ok(file), Ok(code)) => r matches Ok(s) && s@ == bootstrap_text(req, file, code, tail_js@),
            (Err(m), _, _) => r matches Err(e) && e.kind() == ErrorKind::Other && e.text() == m,
            (Ok(_), Err(m), _) => r matches Err(e) && e.kind() == ErrorKind::Other && e.text() == m,
            (Ok(_), Ok(_), Err(m)) => r matches Err(e) && e.kind() == ErrorKind::Other && e.text() == m,
        },
        r is Ok,
{
    let req = match quote_or_error(req_id) {
        Ok(t) => t,
        Err(e) => return Err(e),
    };
    let file = match quote_or_error(file_name) {
        Ok(t) => t,
        Err(e) => return Err(e),
    };
    let code = match quote_or_error(source_code) {
        Ok(t) => t,
        Err(e) => return Err(e),
    };
    let mut s = owned("window.__probeResults = window.__probeResults || {};\nwindow.__bsModules = window.__bsModules || {};\n(async function() {\n  const REQ = ");
    push_text(&mut s, req.as_str());
    push_text(&mut s, ";\n  try {\n    const fileName = ");
    push_text(&mut s, file.as_str());
    push_text(&mut s, ";\n    if (!window.__bsModules[fileName]) {\n      const __invokeRaw = window.__TAURI_INTERNALS__.invoke;\n      const __invoke = (cmd, args) => __invokeRaw(cmd, args).catch(e => {\n        throw new Error(e && e.message ? e.message : String(e));\n      });\n      const legado = {\n        http: {\n          get: (url, headers) => __invoke('booksource_http_proxy', { request: { url, method: 'GET', headers: headers || {} } }).then(r => r.body),\n          post: (url, body, headers) => __invoke('booksource_http_proxy', { request: { url, method: 'POST', body: body ?? null, headers: headers || {} } }).then(r => r.body),\n          request: (request) => __invoke('booksource_http_proxy', { request }),\n        },\n      };\n      const factory = new Function('legado', ");
    push_text(&mut s, code.as_str());
    push_text(&mut s, " + '\\n;return {\\n  search: typeof search === \"function\" ? search : undefined,\\n  bookInfo: typeof bookInfo === \"function\" ? bookInfo : undefined,\\n  toc: typeof toc === \"function\" ? toc : undefined,\\n  chapterList: typeof chapterList === \"function\" ? chapterList : undefined,\\n  content: typeof content === \"function\" ? content : undefined,\\n  chapterContent: typeof chapterContent === \"function\" ? chapterContent : undefined,\\n  explore: typeof explore === \"function\" ? explore : undefined\\n};');\n      window.__bsModules[fileName] = factory(legado);\n    }\n    const mod = window.__bsModules[fileName];\n    ");
    push_text(&mut s, tail_js);
    push_text(&mut s, "\n  } catch (e) {\n    window.__probeResults[REQ] = { ok: false, error: String(e && (e.stack || e.message) || e) };\n  }\n})();\n\"started\"");
    Ok(s)
}

/// The tail that calls the first of the candidate functions the source
/// defines with the arguments (a JSON array) and stores its value.
pub open spec fn fn_tail_text(candidates: Seq<char>, args: Seq<char>) -> Seq<char> {
    "const candidates = "@ + candidates + ";\n    let fn;\n    for (const n of candidates) { if (typeof mod[n] === 'function') { fn = mod[n]; break; } }\n    if (!fn) throw new Error('书源缺少可用函数: ' + candidates.join('/'));\n    const value = await fn.apply(mod, "@ + args + ");\n    window.__probeResults[REQ] = { ok: true, value: value === undefined ? null : value };"@
}

pub fn fn_tail(candidates: &Vec<String>, args_json: &str) -> (r: Result<String, CommandError>)
    ensures
        match json_compact_string_list(texts(candidates@)) {
            Ok(c) => r matches Ok(s) && s@ == fn_tail_text(c, args_json@),
            Err(m) => r matches Err(e) && e.kind() == ErrorKind::Other && e.text() == m,
        },
        r is Ok,
{
    let c = match compact_string_list(candidates) {
        Ok(t) => t,
        Err(m) => return Err(CommandError::Other(m)),
    };
    let mut s = owned("const candidates = ");
    push_text(&mut s, c.as_str());
    push_text(&mut s, ";\n    let fn;\n    for (const n of candidates) { if (typeof mod[n] === 'function') { fn = mod[n]; break; } }\n    if (!fn) throw new Error('书源缺少可用函数: ' + candidates.join('/'));\n    const value = await fn.apply(mod, ");
    push_text(&mut s, args_json);
    push_text(&mut s, ");\n    window.__probeResults[REQ] = { ok: true, value: value === undefined ? null : value };");
    Ok(s)
}

/// The tail of `booksource_eval`: without entry code, the names of the
/// functions the source defines, joined by commas; with entry code, that
/// code run with the module's names in scope and its value as text.
pub open spec fn eval_tail_text(entry: Option<Seq<char>>) -> Result<Seq<char>, Seq<char>> {
    match entry {
        None => Ok("window.__probeResults[REQ] = { ok: true, value: Object.keys(mod).filter(k => typeof mod[k] === 'function').join(',') };"@),
        Some(code) => match json_quoted(code) {
            Ok(q) => Ok("const __fn = new Function('module', 'with(module){\\n' + "@ + q + " + '\\n}');\n    const __v = await __fn(mod);\n    window.__probeResults[REQ] = { ok: true, value: __v === undefined || __v === null ? '' : (typeof __v === 'string' ? __v : JSON.stringify(__v)) };"@),
            Err(m) => Err(m),
        },
    }
}

pub fn eval_tail(entry_code: Option<&str>) -> (r: Result<String, CommandError>)
    ensures
        match eval_tail_text(match entry_code {
            Some(c) => Some(c@),
            None => None,
        }) {
            Ok(t) => r matches Ok(s) && s@ == t,
            Err(m) => r matches Err(e) && e.kind() == ErrorKind::Other && e.text() == m,
        },
        r is Ok,
{
    match entry_code {
        None => Ok(owned("window.__probeResults[REQ] = { ok: true, value: Object.keys(mod).filter(k => typeof mod[k] === 'function').join(',') };")),
        Some(code) => {
            let q = match quote_or_error(code) {
                Ok(t) => t,
                Err(e) => return Err(e),
            };
            let mut s = owned("const __fn = new Function('module', 'with(module){\\n' + ");
            push_text(&mut s, q.as_str());
            push_text(&mut s, " + '\\n}');\n    const __v = await __fn(mod);\n    window.__probeResults[REQ] = { ok: true, value: __v === undefined || __v === null ? '' : (typeof __v === 'string' ? __v : JSON.stringify(__v)) };");
            Ok(s)
        },
    }
}

// ── the calls of the commands ────────────────────────────────────────────

/// A call into a book source: the functions to try, in order, and how long
/// to wait for the result.
#[derive(Debug)]
pub struct SourceCall {
    pub candidates: Vec<String>,
    pub timeout_secs: u64,
}

fn call_of(names: &[&str], timeout_secs: u64) -> (r: SourceCall)
    ensures
        r.candidates@.len() == names@.len(),
        forall|i: int| 0 <= i < names@.len() ==> (#[trigger] r.candidates@[i])@ == names@[i]@,
        r.timeout_secs == timeout_secs,
{
    let mut v: Vec<String> = Vec::new();
    for i in 0..names.len()
        invariant
            v@.len() == i,
            forall|k: int| 0 <= k < i ==> (#[trigger] v@[k])@ == names@[k]@,
    {
        v.push(owned(names[i]));
    }
    SourceCall { candidates: v, timeout_secs }
}

pub open spec fn is_call(c: SourceCall, names: Seq<Seq<char>>, secs: u64) -> bool {
    texts(c.candidates@) == names && c.timeout_secs == secs
}

/// Search: `search`, 40 s.
pub fn search_call() -> (r: SourceCall)
    ensures
        is_call(r, seq!["search"@], 40),
{
    let r = call_of(&["search"], 40);
    assert(texts(r.candidates@) =~= seq!["search"@]);
    r
}

/// Book details: `bookInfo`, 40 s.
pub fn book_info_call() -> (r: SourceCall)
    ensures
        is_call(r, seq!["bookInfo"@], 40),
{
    let r = call_of(&["bookInfo"], 40);
    assert(texts(r.candidates@) =~= seq!["bookInfo"@]);
    r
}

/// Table of contents: `toc`, else `chapterList`, 120 s.
pub fn chapter_list_call() -> (r: SourceCall)
    ensures
        is_call(r, seq!["toc"@, "chapterList"@], 120),
{
    let r = call_of(&["toc", "chapterList"], 120);
    assert(texts(r.candidates@) =~= seq!["toc"@, "chapterList"@]);
    r
}

/// Chapter text: `content`, else `chapterContent`, 40 s.
pub fn chapter_content_call() -> (r: SourceCall)
    ensures
        is_call(r, seq!["content"@, "chapterContent"@], 40),
{
    let r = call_of(&["content", "chapterContent"], 40);
    assert(texts(r.candidates@) =~= seq!["content"@, "chapterContent"@]);
    r
}

/// Explore page: `explore`, 40 s.
pub fn explore_call() -> (r: SourceCall)
    ensures
        is_call(r, seq!["explore"@], 40),
{
    let r = call_of(&["explore"], 40);
    assert(texts(r.candidates@) =~= seq!["explore"@]);
    r
}

/// How long `booksource_eval` waits for its result.
pub const EVAL_TIMEOUT_SECS: u64 = 18;

/// The page a search or explore call asks for: the given one, else the
/// first.
pub fn page_or_first(page: Option<i64>) -> (r: i64)
    ensures
        r == match page {
            Some(p) => p,
            None => 1,
        },
{
    match page {
        Some(p) => p,
        None => 1,
    }
}

/// The error a source call's result slot reports, if any; without a
/// recorded error text, `书源脚本执行失败`.
pub fn source_failure(ok: Option<bool>, error: Option<String>) -> (r: Option<CommandError>)
    ensures
        ok == Some(true) ==> r is None,
        ok != Some(true) ==> (r matches Some(e) && e.kind() == ErrorKind::Other && e.text() == match error {
            Some(m) => m@,
            None => "书源脚本执行失败"@,
        }),
{
    crate::browser_probe::eval_failure(ok, error, "书源脚本执行失败")
}

} // verus!
