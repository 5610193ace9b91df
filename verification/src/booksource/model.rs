//! What the book-source manager lists.
use vstd::prelude::*;

use crate::text::owned;

verus! {

/// A book source as the front end lists it.
#[derive(Debug, Clone)]
pub struct BookSourceMeta {
    pub source_key: Option<String>,
    pub uuid: Option<String>,
    pub file_name: String,
    pub name: String,
    pub author: Option<String>,
    pub logo: Option<String>,
    pub description: Option<String>,
    pub enabled: bool,
    pub file_size: u64,
    pub modified_at: i64,
    pub source_dir: String,
    pub source_type: String,
}

/// A book source as a spec value.
pub struct BookSourceMetaView {
    pub source_key: Option<Seq<char>>,
    pub uuid: Option<Seq<char>>,
    pub file_name: Seq<char>,
    pub name: Seq<char>,
    pub author: Option<Seq<char>>,
    pub logo: Option<Seq<char>>,
    pub description: Option<Seq<char>>,
    pub enabled: bool,
    pub file_size: u64,
    pub modified_at: i64,
    pub source_dir: Seq<char>,
    pub source_type: Seq<char>,
}

pub open spec fn opt_text(o: Option<String>) -> Option<Seq<char>> {
    match o {
        Some(s) => Some(s@),
        None => None,
    }
}

impl View for BookSourceMeta {
    type V = BookSourceMetaView;

    open spec fn view(&self) -> BookSourceMetaView {
        BookSourceMetaView {
            source_key: opt_text(self.source_key),
            uuid: opt_text(self.uuid),
            file_name: self.file_name@,
            name: self.name@,
            author: opt_text(self.author),
            logo: opt_text(self.logo),
            description: opt_text(self.description),
            enabled: self.enabled,
            file_size: self.file_size,
            modified_at: self.modified_at,
            source_dir: self.source_dir@,
            source_type: self.source_type@,
        }
    }
}

/// The type a book source has when its metadata names none.
pub fn default_source_type() -> (r: String)
    ensures
        r@ == "novel"@,
{
    owned("novel")
}

} // verus!
