//! Exporting a book as plain text.
use vstd::prelude::*;
use vstd::string::StrSliceExecFns;

use crate::bookshelf::model::{CachedChapter, ShelfBook};
use crate::codec::{base64_encode, spec_base64};
use crate::errors::{CommandError, ErrorKind};
use crate::text::{
    chars_of, nat_decimal, owned, push_text, string_from_chars, trim_text,
    trimmed, u64_decimal,
};

verus! {

/// Export request of `bookshelf_export_book_data`.
#[derive(Debug)]
pub struct BookshelfExportBookDataArgs {
    pub id: String,
    pub format: String,
}

/// Export result handed to the front end.
#[derive(Debug)]
pub struct BookshelfExportDataPayload {
    pub file_name: String,
    pub mime: String,
    pub base64: String,
}

/// Export request of `bookshelf_export_book` (written to `save_path`).
#[derive(Debug)]
pub struct BookshelfExportBookArgs {
    pub id: String,
    pub format: String,
    pub save_path: String,
}

// ── chapter numbers ──────────────────────────────────────────────────────

pub open spec fn cn_digit(d: nat) -> Seq<char> {
    if d == 0 {
        "零"@
    } else if d == 1 {
        "一"@
    } else if d == 2 {
        "二"@
    } else if d == 3 {
        "三"@
    } else if d == 4 {
        "四"@
    } else if d == 5 {
        "五"@
    } else if d == 6 {
        "六"@
    } else if d == 7 {
        "七"@
    } else if d == 8 {
        "八"@
    } else {
        "九"@
    }
}

/// Chinese numeral of a chapter number: digits below 10; `十` and, if not
/// zero, the ones digit below 20 (10 is `十`, 11 is `十一`); tens digit, `十`
/// and, if not zero, the ones digit below 100; Arabic digits from 100 on.
pub open spec fn spec_chinese_num(n: nat) -> Seq<char> {
    if n < 10 {
        cn_digit(n)
    } else if n < 20 {
        "十"@ + (if n % 10 != 0 {
            cn_digit(n % 10)
        } else {
            Seq::<char>::empty()
        })
    } else if n < 100 {
        cn_digit(n / 10) + "十"@ + (if n % 10 != 0 {
            cn_digit(n % 10)
        } else {
            Seq::<char>::empty()
        })
    } else {
        nat_decimal(n)
    }
}

fn cn_digit_text(d: usize) -> (r: &'static str)
    requires
        d < 10,
    ensures
        r@ == cn_digit(d as nat),
{
    if d == 0 {
        "零"
    } else if d == 1 {
        "一"
    } else if d == 2 {
        "二"
    } else if d == 3 {
        "三"
    } else if d == 4 {
        "四"
    } else if d == 5 {
        "五"
    } else if d == 6 {
        "六"
    } else if d == 7 {
        "七"
    } else if d == 8 {
        "八"
    } else {
        "九"
    }
}

/// The chapter number as written in the heading `第N章`.
pub fn chinese_num(n: usize) -> (r: String)
    ensures
        r@ == spec_chinese_num(n as nat),
{
    if n < 10 {
        return owned(cn_digit_text(n));
    }
    if n < 20 {
        let mut s = owned("十");
        if n != 10 {
            push_text(&mut s, cn_digit_text(n - 10));
        }
        assert(n == 10 ==> s@ == s@ + Seq::<char>::empty());
        return s;
    }
    if n < 100 {
        let tens = n / 10;
        let ones = n % 10;
        let mut s = owned(cn_digit_text(tens));
        push_text(&mut s, "十");
        if ones != 0 {
            push_text(&mut s, cn_digit_text(ones));
        }
        assert(ones == 0 ==> s@ == s@ + Seq::<char>::empty());
        return s;
    }
    u64_decimal(n as u64)
}

// ── file names ───────────────────────────────────────────────────────────

/// Characters a file name may not hold on common systems become `_`.
pub open spec fn file_name_char(c: char) -> char {
    if c == '/' || c == '\\' || c == ':' || c == '*' || c == '?' || c == '"' || c == '<' || c
        == '>' || c == '|' {
        '_'
    } else {
        c
    }
}

pub open spec fn spec_sanitize_file_name(name: Seq<char>, ext: Seq<char>) -> Seq<char> {
    let t = trimmed(name.map_values(|c: char| file_name_char(c)));
    if t.len() == 0 {
        "export."@ + ext
    } else {
        t + "."@ + ext
    }
}

/// Export file name: the book name with forbidden characters replaced and
/// surrounding whitespace removed, `export` when nothing is left, then
/// `.` and the extension.
pub fn sanitize_file_name(name: &str, ext: &str) -> (r: String)
    ensures
        r@ == spec_sanitize_file_name(name@, ext@),
{
    let cs = chars_of(name);
    let n = cs.len();
    let mut cleaned: Vec<char> = Vec::new();
    for i in 0..n
        invariant
            n == cs@.len(),
            cs@ == name@,
            cleaned@ == name@.map_values(|c: char| file_name_char(c)).take(i as int),
    {
        let c = cs[i];
        let d = if c == '/' || c == '\\' || c == ':' || c == '*' || c == '?' || c == '"' || c
            == '<' || c == '>' || c == '|' {
            '_'
        } else {
            c
        };
        cleaned.push(d);
        assert(name@.map_values(|c: char| file_name_char(c)).take(i + 1) =~= name@.map_values(
            |c: char| file_name_char(c),
        ).take(i as int).push(d));
    }
    assert(name@.map_values(|c: char| file_name_char(c)).take(n as int) =~= name@.map_values(
        |c: char| file_name_char(c),
    ));
    let cleaned_text = string_from_chars(cleaned.as_slice());
    let trimmed_text = trim_text(cleaned_text.as_str());
    if trimmed_text.as_str().is_empty() {
        let mut r = owned("export.");
        push_text(&mut r, ext);
        r
    } else {
        let mut r = trimmed_text;
        push_text(&mut r, ".");
        push_text(&mut r, ext);
        r
    }
}

// ── plain-text export ────────────────────────────────────────────────────

/// `name` or `name  author`, then a blank line.
pub open spec fn export_header(book: ShelfBook) -> Seq<char> {
    book.name@ + (if book.author@.len() != 0 {
        "  "@ + book.author@
    } else {
        Seq::<char>::empty()
    }) + "\n\n"@
}

/// One chapter: `第N章 name`, a blank line, the trimmed body, a blank line.
pub open spec fn export_chapter(number: nat, ch: CachedChapter, body: Seq<char>) -> Seq<char> {
    "第"@ + spec_chinese_num(number) + "章 "@ + ch.name@ + "\n\n"@ + trimmed(body) + "\n\n"@
}

/// The chapters `0..count` of the export.
pub open spec fn export_chapters(
    chapters: Seq<CachedChapter>,
    bodies: Seq<Seq<char>>,
    count: nat,
) -> Seq<char>
    decreases count,
{
    if count == 0 {
        Seq::<char>::empty()
    } else {
        export_chapters(chapters, bodies, (count - 1) as nat) + export_chapter(
            count,
            chapters[count - 1],
            bodies[count - 1],
        )
    }
}

pub open spec fn export_text(
    book: ShelfBook,
    chapters: Seq<CachedChapter>,
    bodies: Seq<Seq<char>>,
) -> Seq<char> {
    export_header(book) + export_chapters(chapters, bodies, chapters.len())
}

/// The plain-text export of a book whose chapter `i` has body `bodies[i]`
/// (empty when its file could not be read).
pub fn build_export_text(book: &ShelfBook, chapters: &[CachedChapter], bodies: &[String]) -> (r:
    String)
    requires
        bodies@.len() == chapters@.len(),
    ensures
        r@ == export_text(*book, chapters@, bodies@.map_values(|b: String| b@)),
{
    let ghost bv = bodies@.map_values(|b: String| b@);
    let mut out = book.name.clone();
    if !book.author.as_str().is_empty() {
        push_text(&mut out, "  ");
        push_text(&mut out, book.author.as_str());
    }
    push_text(&mut out, "\n\n");
    assert(out@ =~= export_header(*book));
    let n = chapters.len();
    for idx in 0..n
        invariant
            n == chapters@.len(),
            bodies@.len() == n,
            bv == bodies@.map_values(|b: String| b@),
            out@ == export_header(*book) + export_chapters(chapters@, bv, idx as nat),
    {
        let ch = &chapters[idx];
        push_text(&mut out, "第");
        let num = chinese_num(idx + 1);
        push_text(&mut out, num.as_str());
        push_text(&mut out, "章 ");
        push_text(&mut out, ch.name.as_str());
        push_text(&mut out, "\n\n");
        let body = trim_text(bodies[idx].as_str());
        push_text(&mut out, body.as_str());
        push_text(&mut out, "\n\n");
        assert(bv[idx as int] == bodies@[idx as int]@);
        assert(out@ =~= export_header(*book) + export_chapters(chapters@, bv, (idx + 1) as nat));
    }
    out
}

/// The export formats a request may name.
#[derive(PartialEq, Eq, Structural, Debug, Clone, Copy)]
pub enum ExportFormat {
    Txt,
    Epub,
    Unsupported,
}

pub open spec fn spec_export_format(format: Seq<char>) -> ExportFormat {
    if format == "txt"@ {
        ExportFormat::Txt
    } else if format == "epub"@ {
        ExportFormat::Epub
    } else {
        ExportFormat::Unsupported
    }
}

pub fn export_format(format: &str) -> (r: ExportFormat)
    ensures
        r == spec_export_format(format@),
{
    if crate::text::same_text(format, "txt") {
        ExportFormat::Txt
    } else if crate::text::same_text(format, "epub") {
        ExportFormat::Epub
    } else {
        ExportFormat::Unsupported
    }
}

/// The bytes of an export: UTF-8 text for `txt`; `Other` for `epub`, which
/// is not supported yet; `Invalid` for any other format.
pub fn build_export_bytes(
    book: &ShelfBook,
    chapters: &[CachedChapter],
    bodies: &[String],
    format: &str,
) -> (r: Result<Vec<u8>, CommandError>)
    requires
        bodies@.len() == chapters@.len(),
    ensures
        (r is Ok) <==> spec_export_format(format@) == ExportFormat::Txt,
        r matches Ok(b) ==> b@ == vstd::utf8::encode_utf8(
            export_text(*book, chapters@, bodies@.map_values(|b: String| b@)),
        ),
        r matches Err(e) ==> (if spec_export_format(format@) == ExportFormat::Epub {
            e.kind() == ErrorKind::Other && e.text() == "EPUB 导出暂未实现，请先用 TXT 格式"@
        } else {
            e.kind() == ErrorKind::Invalid && e.text() == "不支持的导出格式: "@ + format@
        }),
{
    match export_format(format) {
        ExportFormat::Txt => {
            let text = build_export_text(book, chapters, bodies);
            Ok(text.as_str().as_bytes_vec())
        },
        ExportFormat::Epub => Err(CommandError::Other(owned("EPUB 导出暂未实现，请先用 TXT 格式"))),
        ExportFormat::Unsupported => {
            let mut m = owned("不支持的导出格式: ");
            push_text(&mut m, format);
            Err(CommandError::Invalid(m))
        },
    }
}

/// `bookshelf_export_book_data` once the book and its chapter bodies are at
/// hand: file name, MIME type and the Base64 of the export.
pub fn export_book_data(
    book: &ShelfBook,
    chapters: &[CachedChapter],
    bodies: &[String],
    format: &str,
) -> (r: Result<BookshelfExportDataPayload, CommandError>)
    requires
        bodies@.len() == chapters@.len(),
    ensures
        (r is Ok) <==> spec_export_format(format@) == ExportFormat::Txt,
        r matches Ok(p) ==> {
            &&& p.mime@ == "text/plain;charset=utf-8"@
            &&& p.file_name@ == spec_sanitize_file_name(book.name@, "txt"@)
            &&& p.base64@ == spec_base64(
                vstd::utf8::encode_utf8(
                    export_text(*book, chapters@, bodies@.map_values(|b: String| b@)),
                ),
            )
        },
        r matches Err(e) ==> (if spec_export_format(format@) == ExportFormat::Epub {
            e.kind() == ErrorKind::Other && e.text() == "EPUB 导出暂未实现，请先用 TXT 格式"@
        } else {
            e.kind() == ErrorKind::Invalid && e.text() == "不支持的导出格式: "@ + format@
        }),
{
    let bytes = match build_export_bytes(book, chapters, bodies, format) {
        Ok(b) => b,
        Err(e) => return Err(e),
    };
    let file_name = sanitize_file_name(book.name.as_str(), "txt");
    Ok(
        BookshelfExportDataPayload {
            file_name,
            mime: owned("text/plain;charset=utf-8"),
            base64: base64_encode(bytes.as_slice()),
        },
    )
}

} // verus!
