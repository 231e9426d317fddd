//! An interactive metronome's core: the command language an operator types,
//! the engine that owns the live tempo, accents and time signature, and the
//! per-generation schedule of sounds that a running task plays until it is
//! superseded.

pub mod engine;
pub mod parse;
pub mod schedule;
pub mod text;
pub mod token;
