//! Chapter prefetching. Without the book-source engine no chapter can be
//! fetched: a prefetch request is answered at once with a progress event
//! that says so and a done event, so the front end leaves its busy state.
use vstd::prelude::*;

use crate::errors::{not_implemented, CommandError, ErrorKind};
use crate::text::owned;

verus! {

/// A chapter to prefetch.
#[derive(Debug)]
pub struct PrefetchChapterInfo {
    pub index: i32,
    pub name: String,
    pub url: String,
}

/// A prefetch request.
#[derive(Debug)]
pub struct PrefetchPayload {
    pub id: String,
    pub file_name: String,
    pub book_url: String,
    pub book_name: String,
    pub source_type: String,
    pub chapters: Vec<PrefetchChapterInfo>,
    pub start_index: i32,
    pub count: i32,
    pub concurrency: Option<u32>,
    pub task_id: String,
}

/// The `shelf:prefetch-progress` event.
#[derive(Debug)]
pub struct PrefetchProgressPayload {
    pub task_id: String,
    pub done: u32,
    pub total: u32,
    pub chapter_index: i32,
    pub error: Option<String>,
}

/// The `shelf:prefetch-done` event.
#[derive(Debug)]
pub struct PrefetchDonePayload {
    pub task_id: String,
}

/// What the save-path picker is asked for.
#[derive(Debug)]
pub struct PickSavePathArgs {
    pub default_name: String,
    pub filter_name: Option<String>,
    pub filter_exts: Vec<String>,
}

/// The two events that answer a prefetch request: no chapter done out of
/// all requested, starting at the first index, with the reason; then done.
pub fn prefetch_events(payload: &PrefetchPayload) -> (r: (PrefetchProgressPayload, PrefetchDonePayload))
    ensures
        r.0.task_id == payload.task_id,
        r.0.done == 0,
        r.0.total == payload.chapters@.len() as u32,
        r.0.chapter_index == payload.start_index,
        r.0.error matches Some(m) && m@ == "booksource 引擎尚未实现，本次未缓存任何章节"@,
        r.1.task_id == payload.task_id,
{
    let total = payload.chapters.len() as u32;
    (
        PrefetchProgressPayload {
            task_id: payload.task_id.clone(),
            done: 0,
            total,
            chapter_index: payload.start_index,
            error: Some(owned("booksource 引擎尚未实现，本次未缓存任何章节")),
        },
        PrefetchDonePayload { task_id: payload.task_id.clone() },
    )
}

/// No prefetch task keeps running, so there is nothing to cancel.
pub fn booksource_cancel(task_id: String) -> (r: Result<(), CommandError>)
    ensures
        r is Ok,
{
    Ok(())
}

/// The save-path picker needs the platform's file picker.
pub fn bookshelf_pick_save_path(args: PickSavePathArgs) -> (r: Result<Option<String>, CommandError>)
    ensures
        r matches Err(e) && e.kind() == ErrorKind::Other && e.text() == "bookshelf_pick_save_path"@ + " 暂未实现："@
            + "Harmony 系统选择器集成待补"@,
{
    Err(not_implemented("bookshelf_pick_save_path", "Harmony 系统选择器集成待补"))
}

} // verus!
