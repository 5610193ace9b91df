use vstd::prelude::*;

pub mod app_config;
pub mod bookshelf;
pub mod browser_probe;
pub mod booksource;
pub mod codec;
pub mod comic;
pub mod cover;
pub mod errors;
pub mod extensions;
pub mod font;
pub mod frontend_log;
pub mod frontend_storage;
pub mod hashing;
pub mod json;
pub mod kvmap;
pub mod paths;
pub mod prefetch;
pub mod sort;
pub mod stubs;
pub mod sync;
pub mod text;
pub mod video;
pub mod webserver;

verus! {

} // verus!
