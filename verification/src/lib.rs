//! The twelve pitch classes of the chromatic scale, with transposition by
//! half steps.
//!
//! A [`Note`] is a pitch class: a note name without an octave, spelled with
//! sharps only. A note can be read from its name, written back as its name,
//! and moved up or down the scale by any number of half steps. Every
//! operation is a pure function.
//!
//! The contracts are stated over the note's position in the scale, an
//! integer from 0 (A) to 11 (G#), which is the note's view. In a contract
//! `%` is the Euclidean remainder, so `x % 12` lies from 0 to 11 for
//! negative `x` too. The module [`laws`] holds what follows from the
//! contracts for every note and every number of steps.

pub mod laws;
pub mod name;
pub mod note;

pub use note::Note;
