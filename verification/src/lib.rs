//! Integer, enum and text logic of the crystal-field visualizer, verified.
//!
//! Everything that decides — step sequencing and trig conditions, LFO
//! routing by trip level, MIDI byte parsing, the POSCAR reader, the pairing of
//! reciprocal vectors in a morph, tour scene picks, random presets, k-paths and
//! the command-line pieces of the clip renderer — lives here with contracts;
//! the floating-point rendering side consumes these plain values.

pub mod lfo;
pub mod trip;
pub mod routing;
pub mod text;
pub mod seq;
pub mod midi;
pub mod modes;
pub mod symmetry;
pub mod species;
pub mod poscar;
pub mod tour;
pub mod preset;
pub mod bench;
pub mod cli;
pub mod morph;
pub mod kpath;
