//! Plain data types of the sound-bank and sequence-list interface that the
//! host resolves for the interpreter: which sequences exist and which banks
//! they use, decoded sample data, and envelope steps. Loading and parsing
//! them is the host's work; the interpreter only consumes the values.

use vstd::prelude::*;

verus! {

/// One playable sequence: its name and the sound banks it draws from.
#[derive(Debug, Clone, PartialEq, Eq)]
pub struct Sequence {
    /// The sequence's name, which also names its bytecode file.
    pub name: String,
    /// Names of the sound banks the sequence uses.
    pub sound_banks: Vec<String>,
}

/// One step of an ADSR-style envelope.
#[derive(Debug, Clone, Copy, PartialEq, Eq, Structural)]
pub enum EnvelopeStep {
    /// Stop the note.
    Stop,
    /// Hold the current level forever.
    Hang,
    /// Continue at the given step index.
    Goto(u16),
    /// Restart the envelope.
    Restart,
    /// Move to the given volume over the given delay.
    Next { delay: u16, volume: u16 },
}

/// A decoded sample buffer.
#[derive(Debug, Clone, PartialEq, Eq)]
pub struct Sample {
    /// The signed 16-bit sample frames.
    pub data: Vec<i16>,
}

} // verus!
