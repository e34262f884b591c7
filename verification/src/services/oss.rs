//! Aliyun Object Storage Service.

pub mod error;
