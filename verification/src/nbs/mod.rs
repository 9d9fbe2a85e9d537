//! Note Block Studio (NBS) songs: instruments, pitches, notes and the file format.

pub mod defs;
pub mod song;
pub mod file;
pub mod laws;
