//! Pooled byte buffers.
pub mod pool;
pub mod readable;
pub mod storage;
pub mod laws;
