//! The error every command of the application reports: a code the front end
//! branches on and a human-readable message.
use vstd::prelude::*;

use crate::text::{owned, push_text};

verus! {

/// Command error. `Io` and `Serde` carry the text of the I/O or JSON error
/// that the host side met; the others carry the message the library wrote.
#[derive(Debug, Clone)]
pub enum CommandError {
    Io(String),
    Serde(String),
    NotFound(String),
    Invalid(String),
    Other(String),
}

/// The error a command reports as a spec value: a variant tag and its text.
#[derive(PartialEq, Eq, Structural)]
pub enum ErrorKind {
    Io,
    Serde,
    NotFound,
    Invalid,
    Other,
}

impl CommandError {
    pub open spec fn kind(&self) -> ErrorKind {
        match self {
            CommandError::Io(_) => ErrorKind::Io,
            CommandError::Serde(_) => ErrorKind::Serde,
            CommandError::NotFound(_) => ErrorKind::NotFound,
            CommandError::Invalid(_) => ErrorKind::Invalid,
            CommandError::Other(_) => ErrorKind::Other,
        }
    }

    pub open spec fn text(&self) -> Seq<char> {
        match self {
            CommandError::Io(m) => m@,
            CommandError::Serde(m) => m@,
            CommandError::NotFound(m) => m@,
            CommandError::Invalid(m) => m@,
            CommandError::Other(m) => m@,
        }
    }

    pub fn other(msg: String) -> (e: CommandError)
        ensures
            e == CommandError::Other(msg),
    {
        CommandError::Other(msg)
    }

    pub fn invalid(msg: String) -> (e: CommandError)
        ensures
            e == CommandError::Invalid(msg),
    {
        CommandError::Invalid(msg)
    }

    pub fn not_found(msg: String) -> (e: CommandError)
        ensures
            e == CommandError::NotFound(msg),
    {
        CommandError::NotFound(msg)
    }

    /// The code the front end sees in `{ code, message }`.
    pub fn code(&self) -> (c: String)
        ensures
            c@ == error_code(self.kind()),
    {
        match self {
            CommandError::Io(_) => owned("IO_ERROR"),
            CommandError::Serde(_) => owned("SERDE_ERROR"),
            CommandError::NotFound(_) => owned("NOT_FOUND"),
            CommandError::Invalid(_) => owned("INVALID_ARG"),
            CommandError::Other(_) => owned("OTHER"),
        }
    }

    /// The message the front end sees: the variant's prefix and its text.
    pub fn message(&self) -> (m: String)
        ensures
            m@ == error_prefix(self.kind()) + self.text(),
    {
        let (mut out, inner) = match self {
            CommandError::Io(m) => (owned("IO 错误: "), m),
            CommandError::Serde(m) => (owned("JSON 解析错误: "), m),
            CommandError::NotFound(m) => (owned("未找到: "), m),
            CommandError::Invalid(m) => (owned("参数无效: "), m),
            CommandError::Other(m) => (String::new(), m),
        };
        push_text(&mut out, inner.as_str());
        out
    }
}

pub open spec fn error_code(k: ErrorKind) -> Seq<char> {
    match k {
        ErrorKind::Io => "IO_ERROR"@,
        ErrorKind::Serde => "SERDE_ERROR"@,
        ErrorKind::NotFound => "NOT_FOUND"@,
        ErrorKind::Invalid => "INVALID_ARG"@,
        ErrorKind::Other => "OTHER"@,
    }
}

pub open spec fn error_prefix(k: ErrorKind) -> Seq<char> {
    match k {
        ErrorKind::Io => "IO 错误: "@,
        ErrorKind::Serde => "JSON 解析错误: "@,
        ErrorKind::NotFound => "未找到: "@,
        ErrorKind::Invalid => "参数无效: "@,
        ErrorKind::Other => Seq::<char>::empty(),
    }
}

/// `"<what> 暂未实现：<needs>"`, the error of a command that is not there yet.
pub fn not_implemented(what: &str, needs: &str) -> (e: CommandError)
    ensures
        e.kind() == ErrorKind::Other,
        e.text() == what@ + " 暂未实现："@ + needs@,
{
    let mut m = owned(what);
    push_text(&mut m, " 暂未实现：");
    push_text(&mut m, needs);
    CommandError::Other(m)
}

} // verus!
