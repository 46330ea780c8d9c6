//! Streams of bytes and what is cut out of them.

pub mod block;
pub mod frame;
pub mod impl_stream;
