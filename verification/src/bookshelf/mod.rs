//! The bookshelf: its records, its files, and the operations of its commands.
pub mod model;
pub mod storage;
pub mod commands;
pub mod export;
