//! Verified core of the FLV demuxer and of the cue sheet playlist reader.

pub mod cuesheet;
pub mod error;
pub mod es;
pub mod es_out;
pub mod flv;
pub mod fourcc;
pub mod inflate;
pub mod input_item;
pub mod number;
pub mod rational;
pub mod stream;
pub mod text;
pub mod tick;
