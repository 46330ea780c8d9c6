//! Cue sheets: the description of the tracks of an audio file, line by line.

pub mod cuesheet;
pub mod parse;
