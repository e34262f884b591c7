//! Sessions that write one object.

pub mod trace;
pub mod writer;
