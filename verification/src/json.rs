//! JSON text of plain values, as serde_json reads and writes it.
use vstd::prelude::*;

use crate::kvmap::sorted_keys;
use crate::text::{digit_char, text_lt};

verus! {

/// What `serde_json::from_str::<Vec<String>>` makes of a text: the strings of
/// a JSON array of strings, or the text of the parse error.
pub uninterp spec fn json_string_list(text: Seq<char>) -> Result<Seq<Seq<char>>, Seq<char>>;

/// What `serde_json::to_string_pretty` makes of a list of strings (its
/// `PrettyFormatter`, two spaces of indent): `[]` for none, else `[`, each
/// string literal on a line of its own after two spaces, separated by
/// commas, and `]` on the last line.
pub open spec fn json_pretty_string_list(items: Seq<Seq<char>>) -> Result<Seq<char>, Seq<char>> {
    if items.len() == 0 {
        Ok("[]"@)
    } else {
        Ok("[\n  "@ + joined(items.map_values(|s: Seq<char>| quoted_text(s)), ",\n  "@) + "\n]"@)
    }
}

/// `items` with `sep` between each two of them.
pub open spec fn joined(items: Seq<Seq<char>>, sep: Seq<char>) -> Seq<char>
    decreases items.len(),
{
    if items.len() == 0 {
        Seq::empty()
    } else if items.len() == 1 {
        items[0]
    } else {
        joined(items.drop_last(), sep) + sep + items.last()
    }
}

/// The JSON string literal of a text: quotes around the text with every
/// character escaped as `escape_char` says.
pub open spec fn quoted_text(s: Seq<char>) -> Seq<char> {
    seq!['"'] + escaped(s) + seq!['"']
}

/// The views of a list of strings.
pub open spec fn texts(v: Seq<String>) -> Seq<Seq<char>> {
    v.map_values(|s: String| s@)
}

/// Calls `serde_json::from_str::<Vec<String>>` on `text`. Its contract: the
/// result is the named outcome `json_string_list` of the text, the error
/// carried as its message (`Display` of `serde_json::Error`).
#[verifier::external_body]
pub(crate) fn parse_string_list(text: &str) -> (r: Result<Vec<String>, String>)
    ensures
        json_string_list(text@) == (match r {
            Ok(v) => Ok(texts(v@)),
            Err(m) => Err(m@),
        }),
{
    serde_json::from_str::<Vec<String>>(text).map_err(|e| e.to_string())
}

/// Calls `serde_json::to_string_pretty` on a list of strings. Its contract:
/// the result is `json_pretty_string_list` of the list;
/// it is text, not an error (serde_json fails only where a `Serialize` impl
/// fails or a map has keys that are not strings, and neither happens for
/// strings); the text opens with `[`, as every JSON array does; and
/// `serde_json::from_str` reads it back as the same strings (the writer
/// escapes each string and the reader undoes exactly that escaping).
#[verifier::external_body]
pub(crate) fn pretty_string_list(items: &Vec<String>) -> (r: Result<String, String>)
    ensures
        json_pretty_string_list(texts(items@)) == (match r {
            Ok(s) => Ok(s@),
            Err(m) => Err(m@),
        }),
        r is Ok,
        r->Ok_0@.len() > 0 && r->Ok_0@[0] == '[',
        json_string_list(r->Ok_0@) is Ok && json_string_list(r->Ok_0@)->Ok_0 == texts(items@),
{
    serde_json::to_string_pretty(items).map_err(|e| e.to_string())
}

/// How a character is written inside a JSON string: backslash and quote escaped, the control characters below U+0020
/// as `\n \r \t \b \f` or `\u00XX` (lower-case hex), everything else as is.
pub open spec fn escape_char(c: char) -> Seq<char> {
    if c == '\\' {
        seq!['\\', '\\']
    } else if c == '"' {
        seq!['\\', '"']
    } else if c == '\n' {
        seq!['\\', 'n']
    } else if c == '\r' {
        seq!['\\', 'r']
    } else if c == '\t' {
        seq!['\\', 't']
    } else if c == '\x08' {
        seq!['\\', 'b']
    } else if c == '\x0c' {
        seq!['\\', 'f']
    } else if (c as u32) < 32 {
        seq!['\\', 'u', '0', '0', digit_char(((c as u32) / 16) as nat), digit_char(((c as u32) % 16) as nat)]
    } else {
        seq![c]
    }
}

/// The text with every character escaped.
pub open spec fn escaped(s: Seq<char>) -> Seq<char>
    decreases s.len(),
{
    if s.len() == 0 {
        Seq::empty()
    } else {
        escaped(s.drop_last()) + escape_char(s.last())
    }
}

/// What `serde_json::to_string` makes of a string: the JSON string literal,
/// the text between quotes with every character escaped as `escape_char`
/// says (serde_json's escape table: quote, backslash and the characters
/// below U+0020, with lower-case hex digits).
pub open spec fn json_quoted(s: Seq<char>) -> Result<Seq<char>, Seq<char>> {
    Ok(quoted_text(s))
}

/// What `serde_json::to_string` makes of a list of strings: `[`, the string
/// literals separated by commas, `]`.
pub open spec fn json_compact_string_list(items: Seq<Seq<char>>) -> Result<Seq<char>, Seq<char>> {
    Ok("["@ + joined(items.map_values(|s: Seq<char>| quoted_text(s)), ","@) + "]"@)
}

/// Calls `serde_json::to_string` on a string. Its contract: the result is
/// `json_quoted` of the string, and it is text, not an error (serde_json
/// fails only where a `Serialize` impl fails or a map has keys that are not
/// strings).
#[verifier::external_body]
pub(crate) fn quote_json(s: &str) -> (r: Result<String, String>)
    ensures
        json_quoted(s@) == (match r {
            Ok(t) => Ok(t@),
            Err(m) => Err(m@),
        }),
        r is Ok,
{
    serde_json::to_string(s).map_err(|e| e.to_string())
}

/// Calls `serde_json::to_string` on a list of strings. Its contract: the
/// result is `json_compact_string_list` of the list, and it is text,
/// not an error (as for `quote_json`).
#[verifier::external_body]
pub(crate) fn compact_string_list(items: &Vec<String>) -> (r: Result<String, String>)
    ensures
        json_compact_string_list(texts(items@)) == (match r {
            Ok(t) => Ok(t@),
            Err(m) => Err(m@),
        }),
        r is Ok,
{
    serde_json::to_string(items).map_err(|e| e.to_string())
}

/// The views of a list of string pairs.
pub open spec fn pair_texts(v: Seq<(String, String)>) -> Seq<(Seq<char>, Seq<char>)> {
    v.map_values(|p: (String, String)| (p.0@, p.1@))
}

/// What `serde_json::from_str::<BTreeMap<String, String>>` makes of a text:
/// the members of a JSON object of strings in key order, or the text of the
/// parse error.
pub uninterp spec fn json_string_map(text: Seq<char>) -> Result<Seq<(Seq<char>, Seq<char>)>, Seq<char>>;

/// What `serde_json::to_string_pretty` makes of a map of strings holding the
/// given members in this order: `{}` for none, else `{`, each member
/// (key literal, `: `, value literal) on a line of its own after two spaces,
/// separated by commas, and `}` on the last line.
pub open spec fn json_pretty_string_map(members: Seq<(Seq<char>, Seq<char>)>) -> Result<Seq<char>, Seq<char>> {
    if members.len() == 0 {
        Ok("{}"@)
    } else {
        Ok("{\n  "@ + joined(
            members.map_values(|m: (Seq<char>, Seq<char>)| quoted_text(m.0) + ": "@ + quoted_text(m.1)),
            ",\n  "@,
        ) + "\n}"@)
    }
}

/// What `serde_json::from_str::<serde_json::Value>` makes of a text: the
/// text of the parse error; or, for a text it accepts, the keys of its
/// members in the order `serde_json::Map` keeps them when the value is a
/// JSON object, and nothing for any other value.
pub uninterp spec fn json_value_outcome(text: Seq<char>) -> Result<Option<Seq<Seq<char>>>, Seq<char>>;

/// serde_json accepts the text as one JSON value.
pub open spec fn json_parses(text: Seq<char>) -> bool {
    json_value_outcome(text) is Ok
}

/// A JSON value as serde_json read it, with where it came from: the text it
/// was parsed from, and the keys that lead to it from the value of the whole
/// text (none for that value itself). Only `parse_json_value` makes one.
pub struct JsonValue {
    value: serde_json::Value,
    source: Ghost<Seq<char>>,
    path: Ghost<Seq<Seq<char>>>,
}

impl JsonValue {
    /// The text the value was read from.
    pub closed spec fn source(&self) -> Seq<char> {
        self.source@
    }

    /// The keys leading to the value within its text.
    pub closed spec fn path(&self) -> Seq<Seq<char>> {
        self.path@
    }

    /// The value itself.
    pub closed spec fn json(&self) -> serde_json::Value {
        self.value
    }

    /// Hands out the value itself.
    pub fn into_value(self) -> (v: serde_json::Value)
        ensures
            v == self.json(),
    {
        self.value
    }
}

/// The keys of a list of members, in order.
pub open spec fn member_keys(v: Seq<(String, JsonValue)>) -> Seq<Seq<char>> {
    v.map_values(|p: (String, JsonValue)| p.0@)
}

/// The value of a whole text, and its members when it is an object.
pub struct ParsedJson {
    pub json: JsonValue,
    pub members: Option<Vec<(String, JsonValue)>>,
}

/// Calls `serde_json::from_str::<BTreeMap<String, String>>` and hands out
/// the map's members in its (key) order. Its contract: the result is the
/// named outcome `json_string_map`, the error as its message.
#[verifier::external_body]
pub(crate) fn parse_string_map(text: &str) -> (r: Result<Vec<(String, String)>, String>)
    ensures
        json_string_map(text@) == (match r {
            Ok(v) => Ok(pair_texts(v@)),
            Err(m) => Err(m@),
        }),
{
    serde_json::from_str::<std::collections::BTreeMap<String, String>>(text).map(|m| m.into_iter().collect()).map_err(
        |e| e.to_string(),
    )
}

/// Keys in strictly increasing order (the order of `str`, byte by byte in
/// UTF-8, which is the order of the characters).
pub open spec fn keys_increasing(s: Seq<(Seq<char>, Seq<char>)>) -> bool {
    forall|i: int, j: int| 0 <= i < j < s.len() ==> text_lt(#[trigger] s[i].0, #[trigger] s[j].0)
}

/// Calls `serde_json::to_string_pretty` on the `BTreeMap<String, String>`
/// that holds the given members, which come in increasing key order, so
/// that the map holds exactly them, in that order. Its contract: the result
/// is `json_pretty_string_map` of the members, and it is text, not an error
/// (the keys are strings); the text opens with `{`, and `serde_json::from_str`
/// reads it back as the same members.
#[verifier::external_body]
pub(crate) fn pretty_string_map(members: &Vec<(String, String)>) -> (r: Result<String, String>)
    requires
        keys_increasing(pair_texts(members@)),
    ensures
        json_pretty_string_map(pair_texts(members@)) == (match r {
            Ok(s) => Ok(s@),
            Err(m) => Err(m@),
        }),
        r is Ok,
        r->Ok_0@.len() > 0 && r->Ok_0@[0] == '{',
        json_string_map(r->Ok_0@) is Ok && json_string_map(r->Ok_0@)->Ok_0 == pair_texts(members@),
{
    let map: std::collections::BTreeMap<&String, &String> = members.iter().map(|(k, v)| (k, v)).collect();
    serde_json::to_string_pretty(&map).map_err(|e| e.to_string())
}

/// Calls `serde_json::from_str::<serde_json::Value>`. Its contract: the
/// result follows the named outcome `json_value_outcome` (the error carried
/// as its message; an object's members by their keys, which come strictly
/// increasing, as `serde_json::Map`, a `BTreeMap` without the
/// `preserve_order` feature, keeps and hands them out); the value is the
/// value of the text, and each member's value is the value under its key.
#[verifier::external_body]
pub(crate) fn parse_json_value(text: &str) -> (r: Result<ParsedJson, String>)
    ensures
        (match json_value_outcome(text@) {
            Err(m) => r matches Err(e) && e@ == m,
            Ok(None) => r matches Ok(p) && p.members is None,
            Ok(Some(keys)) => r matches Ok(p) && p.members matches Some(v) && member_keys(v@) == keys,
        }),
        r is Ok ==> r->Ok_0.json.source() == text@ && r->Ok_0.json.path() == Seq::<Seq<char>>::empty(),
        r is Ok && r->Ok_0.members is Some ==> sorted_keys(r->Ok_0.members->Some_0@),
        r is Ok && r->Ok_0.members is Some ==> forall|i: int|
            0 <= i < r->Ok_0.members->Some_0@.len() ==> (#[trigger] r->Ok_0.members->Some_0@[i]).1.source()
                == text@ && r->Ok_0.members->Some_0@[i].1.path() == seq![r->Ok_0.members->Some_0@[i].0@],
{
    let value = serde_json::from_str::<serde_json::Value>(text).map_err(|e| e.to_string())?;
    let members = value.as_object().map(|m| {
        m.iter().map(|(k, v)| (k.clone(), JsonValue { value: v.clone(), source: Ghost(text@), path: Ghost(seq![k@]) })).collect()
    });
    Ok(ParsedJson { json: JsonValue { value, source: Ghost(text@), path: Ghost(Seq::empty()) }, members })
}

} // verus!
