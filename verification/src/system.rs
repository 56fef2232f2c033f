//! What the capture session asks of the operating system.

pub mod permission_cache;
