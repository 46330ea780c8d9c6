//! The FLV demuxer.
//!
//! An FLV stream is a file header followed by tags. Each tag is preceded by the
//! size of the tag before it and carries audio, video or script data.

pub mod codec;
pub mod metadata;
pub mod parser;
pub mod script;
pub mod demux;
pub mod driver;
pub mod laws;
