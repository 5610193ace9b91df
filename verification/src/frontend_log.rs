//! The front end's log, one JSON object per line in `<data_dir>/frontend.log`.
use vstd::prelude::*;

use crate::json::{escape_char, escaped};
use crate::paths::StoragePath;
use crate::text::{
    chars_of, digit_char, digit_of, i64_decimal, int_decimal, lemma_decimal_chars, owned, push_char, push_text,
};

verus! {

/// `<data_dir>/frontend.log`
pub fn frontend_log_path(data_dir: &StoragePath) -> (p: StoragePath)
    ensures
        p@ == data_dir@.join("frontend.log"@),
{
    data_dir.join_str("frontend.log")
}

/// The JSON object of one message:
/// `{"ts":<ts>,"level":"<level>","message":"<message>"}`.
pub open spec fn log_object(ts: i64, level: Seq<char>, message: Seq<char>) -> Seq<char> {
    "{\"ts\":"@ + int_decimal(ts as int) + ",\"level\":\""@ + escaped(level) + "\",\"message\":\""@
        + escaped(message) + "\"}"@
}

/// The log line of one message: its JSON object and a line feed.
pub open spec fn spec_log_line(ts: i64, level: Seq<char>, message: Seq<char>) -> Seq<char> {
    log_object(ts, level, message) + "\n"@
}

fn push_escaped(out: &mut String, s: &str)
    ensures
        final(out)@ == old(out)@ + escaped(s@),
{
    let cs = chars_of(s);
    let n = cs.len();
    let ghost start = out@;
    for i in 0..n
        invariant
            n == cs@.len(),
            cs@ == s@,
            out@ == start + escaped(s@.take(i as int)),
    {
        let c = cs[i];
        let ghost before = out@;
        proof {
            assert(s@.take(i + 1).drop_last() =~= s@.take(i as int));
            assert(s@.take(i + 1).last() == c);
        }
        let u = c as u32;
        if c == '\\' {
            push_char(out, '\\');
            push_char(out, '\\');
        } else if c == '"' {
            push_char(out, '\\');
            push_char(out, '"');
        } else if c == '\n' {
            push_char(out, '\\');
            push_char(out, 'n');
        } else if c == '\r' {
            push_char(out, '\\');
            push_char(out, 'r');
        } else if c == '\t' {
            push_char(out, '\\');
            push_char(out, 't');
        } else if c == '\x08' {
            push_char(out, '\\');
            push_char(out, 'b');
        } else if c == '\x0c' {
            push_char(out, '\\');
            push_char(out, 'f');
        } else if u < 32 {
            push_char(out, '\\');
            push_char(out, 'u');
            push_char(out, '0');
            push_char(out, '0');
            let hi = digit_of((u / 16) as u64);
            let lo = digit_of((u % 16) as u64);
            push_char(out, hi);
            push_char(out, lo);
        } else {
            push_char(out, c);
        }
        assert(out@ =~= before + escape_char(c));
        assert(start + escaped(s@.take(i + 1)) =~= start + escaped(s@.take(i as int)) + escape_char(c));
    }
    assert(s@.take(n as int) =~= s@);
}

/// The line appended to the log for one message.
pub fn log_line(ts: i64, level: &str, message: &str) -> (r: String)
    ensures
        r@ == spec_log_line(ts, level@, message@),
{
    let mut out = owned("{\"ts\":");
    push_text(&mut out, i64_decimal(ts).as_str());
    push_text(&mut out, ",\"level\":\"");
    push_escaped(&mut out, level);
    push_text(&mut out, "\",\"message\":\"");
    push_escaped(&mut out, message);
    push_text(&mut out, "\"}");
    push_text(&mut out, "\n");
    out
}

/// No character below U+0020.
pub open spec fn no_control(s: Seq<char>) -> bool {
    forall|k: int| 0 <= k < s.len() ==> (#[trigger] s[k] as u32) >= 32
}

proof fn lemma_no_control_add(a: Seq<char>, b: Seq<char>)
    requires
        no_control(a),
        no_control(b),
    ensures
        no_control(a + b),
{
    assert forall|k: int| 0 <= k < (a + b).len() implies ((#[trigger] (a + b)[k]) as u32) >= 32 by {
        if k < a.len() {
            assert((a + b)[k] == a[k]);
        } else {
            assert((a + b)[k] == b[k - a.len()]);
        }
    }
}

/// An escaped text holds no control character: the escapes are made of
/// printable characters only.
pub proof fn lemma_escaped_no_control(s: Seq<char>)
    ensures
        no_control(escaped(s)),
    decreases s.len(),
{
    if s.len() > 0 {
        lemma_escaped_no_control(s.drop_last());
        let c = s.last();
        let e = escape_char(c);
        if (c as u32) < 32 && c != '\n' && c != '\r' && c != '\t' && c != '\x08' && c != '\x0c' {
            assert((c as u32) / 16 < 2);
            assert(e[4] == digit_char(((c as u32) / 16) as nat));
            assert(e[5] == digit_char(((c as u32) % 16) as nat));
        }
        assert(no_control(e));
        lemma_no_control_add(escaped(s.drop_last()), e);
    }
}

/// A log line holds exactly one line feed, at its end: the JSON object
/// before it holds no control character, whatever the level and message.
pub proof fn law_log_line_single_line(ts: i64, level: Seq<char>, message: Seq<char>)
    ensures
        no_control(log_object(ts, level, message)),
        spec_log_line(ts, level, message).len() > 0,
        spec_log_line(ts, level, message).last() == '\n',
        forall|k: int|
            0 <= k < spec_log_line(ts, level, message).len() - 1 ==> #[trigger] spec_log_line(
                ts,
                level,
                message,
            )[k] != '\n',
{
    reveal_strlit("{\"ts\":");
    reveal_strlit(",\"level\":\"");
    reveal_strlit("\",\"message\":\"");
    reveal_strlit("\"}");
    reveal_strlit("\n");
    lemma_decimal_chars(ts as int);
    lemma_escaped_no_control(level);
    lemma_escaped_no_control(message);
    let d = int_decimal(ts as int);
    assert(no_control(d)) by {
        assert forall|k: int| 0 <= k < d.len() implies (#[trigger] d[k] as u32) >= 32 by {
            assert('0' <= d[k] <= '9' || d[k] == '-');
        }
    }
    let a = "{\"ts\":"@;
    let b = ",\"level\":\""@;
    let c = "\",\"message\":\""@;
    let f = "\"}"@;
    assert(no_control(a));
    assert(no_control(b));
    assert(no_control(c));
    assert(no_control(f));
    lemma_no_control_add(a, d);
    lemma_no_control_add(a + d, b);
    lemma_no_control_add(a + d + b, escaped(level));
    lemma_no_control_add(a + d + b + escaped(level), c);
    lemma_no_control_add(a + d + b + escaped(level) + c, escaped(message));
    lemma_no_control_add(a + d + b + escaped(level) + c + escaped(message), f);
    let o = log_object(ts, level, message);
    let l = spec_log_line(ts, level, message);
    assert(l.len() == o.len() + 1);
    assert(l[l.len() - 1] == '\n');
    assert forall|k: int| 0 <= k < l.len() - 1 implies #[trigger] l[k] != '\n' by {
        assert(l[k] == o[k]);
        assert((o[k] as u32) >= 32);
    }
}

} // verus!
