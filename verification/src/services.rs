//! What is particular to one storage service.

pub mod oss;
