//! Book sources: `.js` files in a primary directory and in directories the
//! user adds, with their listing, paths and on/off markers.
pub mod commands;
pub mod engine;
pub mod model;
