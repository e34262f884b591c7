//! The write path of an object-storage access layer.
//!
//! A caller appends data to a remote object block by block; the backend fails
//! with an error that carries a kind and a verdict on whether a retry is worthwhile.

pub mod buffer;
pub mod error;
pub mod object;
pub mod services;
pub mod text;
