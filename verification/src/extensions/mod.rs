//! Front-end extensions: `.js` files under `<data_dir>/extensions`, switched
//! on and off by marker files beside them.
pub mod commands;
pub mod model;
