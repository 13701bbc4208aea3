//! The failures the container reader can report. Malformed input is always
//! surfaced as an error value, never as a crash.

use vstd::prelude::*;

verus! {

/// Why a container could not be read.
#[derive(Debug, Clone, Copy, PartialEq, Eq, Structural)]
pub enum AiffError {
    /// A chunk header, length or identifier is malformed.
    InvalidFormat,
    /// The form type is not the expected audio interchange type.
    InvalidFormType,
    /// The required common chunk never appeared.
    MissingComm,
    /// The required sound-data chunk never appeared.
    MissingSsnd,
    /// A loop descriptor holds an unknown play mode.
    InvalidPlayMode(u16),
}

} // verus!
