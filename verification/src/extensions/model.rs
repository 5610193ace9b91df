//! What the extension manager lists.
use vstd::prelude::*;

use crate::json::texts;

verus! {

/// An extension as the front end lists it. The header fields (namespace,
/// match patterns, grants, ...) are parsed by the front end itself.
#[derive(Debug, Clone)]
pub struct ExtensionMeta {
    pub file_name: String,
    pub name: String,
    pub namespace: String,
    pub version: String,
    pub description: String,
    pub author: String,
    pub match_patterns: Vec<String>,
    pub grants: Vec<String>,
    pub run_at: String,
    pub category: String,
    pub enabled: bool,
    pub file_size: u64,
    pub modified_at: i64,
}

/// An extension as a spec value.
pub struct ExtensionMetaView {
    pub file_name: Seq<char>,
    pub name: Seq<char>,
    pub namespace: Seq<char>,
    pub version: Seq<char>,
    pub description: Seq<char>,
    pub author: Seq<char>,
    pub match_patterns: Seq<Seq<char>>,
    pub grants: Seq<Seq<char>>,
    pub run_at: Seq<char>,
    pub category: Seq<char>,
    pub enabled: bool,
    pub file_size: u64,
    pub modified_at: i64,
}

impl View for ExtensionMeta {
    type V = ExtensionMetaView;

    open spec fn view(&self) -> ExtensionMetaView {
        ExtensionMetaView {
            file_name: self.file_name@,
            name: self.name@,
            namespace: self.namespace@,
            version: self.version@,
            description: self.description@,
            author: self.author@,
            match_patterns: texts(self.match_patterns@),
            grants: texts(self.grants@),
            run_at: self.run_at@,
            category: self.category@,
            enabled: self.enabled,
            file_size: self.file_size,
            modified_at: self.modified_at,
        }
    }
}

} // verus!
