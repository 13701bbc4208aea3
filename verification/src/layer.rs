//! The layer-tier (note) instruction set and its decoder and encoder.
//!
//! The decoder is parameterized by the owning channel's large-notes flag,
//! which selects between the two note-trigger encodings. The portamento
//! duration byte is consumed as a single byte, as the driver reads it.

use vstd::prelude::*;

use crate::bytes::{read_u16_be, spec_u16_be};
use crate::{
    lemma_nibble_or, lemma_var_bytes, push_u16_be, push_var, read_var, spec_encode_var,
    spec_read_var_at, DecodeError,
};

verus! {

/// One instruction of the layer tier.
#[derive(Debug, Clone, Copy, PartialEq, Eq, Structural)]
pub enum LayerCmd {
    /// End of script, loop or function.
    End,
    /// Call a function.
    Call(u16),
    /// Jump to a point in the layer script.
    Jump(u16),
    /// Repeat until the loop-end marker for X iterations (256 if X = 0).
    Loop(u8),
    /// Loop end marker.
    LoopEnd,
    /// Set the duration for future short notes to the duration table's entry N.
    SetShortNoteDurationFromTable(u8),
    /// Set the velocity for future short notes to the velocity table's entry N.
    SetShortNoteVelocityFromTable(u8),
    /// Set the pan for this layer (0..=128).
    SetPan(u8),
    /// Set the duration for future short notes.
    SetShortNoteDuration(u8),
    /// Disable portamento for later notes.
    DisablePortamento,
    /// Enable portamento with mode X, target pitch Y and duration Z.
    Portamento(u8, u8, u16),
    /// Set the instrument within the bank.
    SetInstr(u8),
    /// Let notes decay independently (the default).
    SomethingOff,
    /// Keep notes sounding continuously across triggers.
    SomethingOn,
    /// Set the default play percentage for short notes.
    SetShortNoteDefaultPlayPercentage(u16),
    /// Set transposition in semitones.
    Transpose(u8),
    /// Set the velocity for future short notes.
    SetShortNoteVelocity(u8),
    /// Delay for N ticks.
    Delay(u16),
    /// Play a note with an explicit play percentage, velocity and duration.
    /// Valid when the channel uses large notes.
    Note0 { pitch: u8, percentage: u16, velocity: u8, duration: u8 },
    /// Play a note with an explicit play percentage and velocity, duration 0.
    /// Valid when the channel uses large notes.
    Note1 { pitch: u8, percentage: u16, velocity: u8 },
    /// Play a note with an explicit velocity and duration and the last used
    /// play percentage. Valid when the channel uses large notes.
    Note2 { pitch: u8, velocity: u8, duration: u8 },
    /// Play a note with an explicit play percentage; velocity and duration
    /// come from the short-note settings. Valid with small notes.
    SmallNote0 { pitch: u8, percentage: u16 },
    /// Play a note with the default play percentage. Valid with small notes.
    SmallNote1 { pitch: u8 },
    /// Play a note with the previous play percentage. Valid with small notes.
    SmallNote2 { pitch: u8 },
}

/// What decoding the start of `d` as a layer-tier instruction yields, with
/// the note encoding selected by `large`: the instruction and the bytes
/// consumed, or the decode fault.
pub open spec fn spec_read_layer_cmd(d: Seq<u8>, large: bool) -> Result<
    (LayerCmd, int),
    DecodeError,
> {
    if d.len() < 1 {
        Err(DecodeError::Truncated)
    } else if d[0] >= 0xc0 {
        spec_read_layer_upper(d)
    } else if large {
        spec_read_layer_note(d)
    } else {
        spec_read_layer_small_note(d)
    }
}

/// The layer-tier instructions whose opcode byte is `0xc0` or above.
pub open spec fn spec_read_layer_upper(d: Seq<u8>) -> Result<(LayerCmd, int), DecodeError>
    recommends
        d.len() >= 1,
{
    {
        let op = d[0];
        if op == 0xff {
            Ok((LayerCmd::End, 1))
        } else if op == 0xfc {
            if d.len() < 3 {
                Err(DecodeError::Truncated)
            } else {
                Ok((LayerCmd::Call(spec_u16_be(d[1], d[2])), 3))
            }
        } else if op == 0xfb {
            if d.len() < 3 {
                Err(DecodeError::Truncated)
            } else {
                Ok((LayerCmd::Jump(spec_u16_be(d[1], d[2])), 3))
            }
        } else if op == 0xf8 {
            if d.len() < 2 {
                Err(DecodeError::Truncated)
            } else {
                Ok((LayerCmd::Loop(d[1]), 2))
            }
        } else if op == 0xf7 {
            Ok((LayerCmd::LoopEnd, 1))
        } else if 0xe0 <= op && op <= 0xef {
            Ok((LayerCmd::SetShortNoteDurationFromTable(op & 0x0f), 1))
        } else if 0xd0 <= op && op <= 0xdf {
            Ok((LayerCmd::SetShortNoteVelocityFromTable(op & 0x0f), 1))
        } else if op == 0xca {
            if d.len() < 2 {
                Err(DecodeError::Truncated)
            } else {
                Ok((LayerCmd::SetPan(d[1]), 2))
            }
        } else if op == 0xc9 {
            if d.len() < 2 {
                Err(DecodeError::Truncated)
            } else {
                Ok((LayerCmd::SetShortNoteDuration(d[1]), 2))
            }
        } else if op == 0xc8 {
            Ok((LayerCmd::DisablePortamento, 1))
        } else if op == 0xc7 {
            if d.len() < 4 {
                Err(DecodeError::Truncated)
            } else {
                Ok((LayerCmd::Portamento(d[1], d[2], d[3] as u16), 4))
            }
        } else if op == 0xc6 {
            if d.len() < 2 {
                Err(DecodeError::Truncated)
            } else {
                Ok((LayerCmd::SetInstr(d[1]), 2))
            }
        } else if op == 0xc5 {
            Ok((LayerCmd::SomethingOff, 1))
        } else if op == 0xc4 {
            Ok((LayerCmd::SomethingOn, 1))
        } else if op == 0xc3 {
            match spec_read_var_at(d, 1) {
                Some(r) => Ok((LayerCmd::SetShortNoteDefaultPlayPercentage(r.0), 1 + r.1)),
                None => Err(DecodeError::Truncated),
            }
        } else if op == 0xc2 {
            if d.len() < 2 {
                Err(DecodeError::Truncated)
            } else {
                Ok((LayerCmd::Transpose(d[1]), 2))
            }
        } else if op == 0xc1 {
            if d.len() < 2 {
                Err(DecodeError::Truncated)
            } else {
                Ok((LayerCmd::SetShortNoteVelocity(d[1]), 2))
            }
        } else if op == 0xc0 {
            match spec_read_var_at(d, 1) {
                Some(r) => Ok((LayerCmd::Delay(r.0), 1 + r.1)),
                None => Err(DecodeError::Truncated),
            }
        } else {
            Err(DecodeError::UnknownOpcode(op))
        }
    }
}

/// The large-notes note triggers (opcode bytes below `0xc0`).
pub open spec fn spec_read_layer_note(d: Seq<u8>) -> Result<(LayerCmd, int), DecodeError>
    recommends
        d.len() >= 1,
        d[0] < 0xc0,
{
    {
        let op = d[0];
        if op <= 0x3f {
            match spec_read_var_at(d, 1) {
                Some(r) => if d.len() < 3 + r.1 {
                    Err(DecodeError::Truncated)
                } else {
                    Ok(
                        (
                            LayerCmd::Note0 {
                                pitch: op,
                                percentage: r.0,
                                velocity: d[1 + r.1],
                                duration: d[2 + r.1],
                            },
                            3 + r.1,
                        ),
                    )
                },
                None => Err(DecodeError::Truncated),
            }
        } else if op <= 0x7f {
            match spec_read_var_at(d, 1) {
                Some(r) => if d.len() < 2 + r.1 {
                    Err(DecodeError::Truncated)
                } else {
                    Ok(
                        (
                            LayerCmd::Note1 {
                                pitch: (op - 0x40) as u8,
                                percentage: r.0,
                                velocity: d[1 + r.1],
                            },
                            2 + r.1,
                        ),
                    )
                },
                None => Err(DecodeError::Truncated),
            }
        } else {
            if d.len() < 3 {
                Err(DecodeError::Truncated)
            } else {
                Ok(
                    (
                        LayerCmd::Note2 { pitch: (op - 0x80) as u8, velocity: d[1], duration: d[2] },
                        3,
                    ),
                )
            }
        }
    }
}

/// The small-notes note triggers (opcode bytes below `0xc0`).
pub open spec fn spec_read_layer_small_note(d: Seq<u8>) -> Result<(LayerCmd, int), DecodeError>
    recommends
        d.len() >= 1,
        d[0] < 0xc0,
{
    {
        let op = d[0];
        if op <= 0x3f {
            match spec_read_var_at(d, 1) {
                Some(r) => Ok((LayerCmd::SmallNote0 { pitch: op, percentage: r.0 }, 1 + r.1)),
                None => Err(DecodeError::Truncated),
            }
        } else if op <= 0x7f {
            Ok((LayerCmd::SmallNote1 { pitch: (op - 0x40) as u8 }, 1))
        } else {
            Ok((LayerCmd::SmallNote2 { pitch: (op - 0x80) as u8 }, 1))
        }
    }
}

impl LayerCmd {
    /// Decodes the instruction at the start of `data`, with the note
    /// encoding selected by `large_notes`.
    /// Returns the instruction and the number of bytes consumed.
    pub fn read(data: &[u8], large_notes: bool) -> (r: Result<(LayerCmd, usize), DecodeError>)
        ensures
            match r {
                Ok(ok) => spec_read_layer_cmd(data@, large_notes) == Ok::<_, DecodeError>(
                    (ok.0, ok.1 as int),
                ),
                Err(e) => spec_read_layer_cmd(data@, large_notes) == Err::<(LayerCmd, int), _>(e),
            },
    {
        if data.len() < 1 {
            return Err(DecodeError::Truncated);
        }
        if data[0] >= 0xc0 {
            Self::read_upper(data)
        } else if large_notes {
            Self::read_note(data)
        } else {
            Self::read_small_note(data)
        }
    }

    /// Decodes the instructions whose opcode byte is `0xc0` or above.
    #[verifier::rlimit(50)]
    fn read_upper(data: &[u8]) -> (r: Result<(LayerCmd, usize), DecodeError>)
        requires
            data@.len() >= 1,
            data@[0] >= 0xc0,
        ensures
            match r {
                Ok(ok) => spec_read_layer_upper(data@) == Ok::<_, DecodeError>((ok.0, ok.1 as int)),
                Err(e) => spec_read_layer_upper(data@) == Err::<(LayerCmd, int), _>(e),
            },
    {
        let op: u8 = data[0];
        match op {
            0xff => Ok((LayerCmd::End, 1)),
            0xfc => {
                if data.len() < 3 {
                    return Err(DecodeError::Truncated);
                }
                Ok((LayerCmd::Call(read_u16_be(&data[1..data.len()])), 3))
            },
            0xfb => {
                if data.len() < 3 {
                    return Err(DecodeError::Truncated);
                }
                Ok((LayerCmd::Jump(read_u16_be(&data[1..data.len()])), 3))
            },
            0xf8 => {
                if data.len() < 2 {
                    return Err(DecodeError::Truncated);
                }
                Ok((LayerCmd::Loop(data[1]), 2))
            },
            0xf7 => Ok((LayerCmd::LoopEnd, 1)),
            0xe0..=0xef => Ok((LayerCmd::SetShortNoteDurationFromTable(op & 0x0f), 1)),
            0xd0..=0xdf => Ok((LayerCmd::SetShortNoteVelocityFromTable(op & 0x0f), 1)),
            0xca => {
                if data.len() < 2 {
                    return Err(DecodeError::Truncated);
                }
                Ok((LayerCmd::SetPan(data[1]), 2))
            },
            0xc9 => {
                if data.len() < 2 {
                    return Err(DecodeError::Truncated);
                }
                Ok((LayerCmd::SetShortNoteDuration(data[1]), 2))
            },
            0xc8 => Ok((LayerCmd::DisablePortamento, 1)),
            0xc7 => {
                if data.len() < 4 {
                    return Err(DecodeError::Truncated);
                }
                Ok((LayerCmd::Portamento(data[1], data[2], data[3] as u16), 4))
            },
            0xc6 => {
                if data.len() < 2 {
                    return Err(DecodeError::Truncated);
                }
                Ok((LayerCmd::SetInstr(data[1]), 2))
            },
            0xc5 => Ok((LayerCmd::SomethingOff, 1)),
            0xc4 => Ok((LayerCmd::SomethingOn, 1)),
            0xc3 => {
                if data.len() < 2 || (data[1] & 0x80 != 0 && data.len() < 3) {
                    return Err(DecodeError::Truncated);
                }
                let (v, size) = read_var(&data[1..data.len()]);
                Ok((LayerCmd::SetShortNoteDefaultPlayPercentage(v), 1 + size))
            },
            0xc2 => {
                if data.len() < 2 {
                    return Err(DecodeError::Truncated);
                }
                Ok((LayerCmd::Transpose(data[1]), 2))
            },
            0xc1 => {
                if data.len() < 2 {
                    return Err(DecodeError::Truncated);
                }
                Ok((LayerCmd::SetShortNoteVelocity(data[1]), 2))
            },
            0xc0 => {
                if data.len() < 2 || (data[1] & 0x80 != 0 && data.len() < 3) {
                    return Err(DecodeError::Truncated);
                }
                let (v, size) = read_var(&data[1..data.len()]);
                Ok((LayerCmd::Delay(v), 1 + size))
            },
            _ => Err(DecodeError::UnknownOpcode(op)),
        }
    }

    /// Decodes the large-notes note triggers (opcode bytes below `0xc0`).
    #[verifier::rlimit(50)]
    fn read_note(data: &[u8]) -> (r: Result<(LayerCmd, usize), DecodeError>)
        requires
            data@.len() >= 1,
            data@[0] < 0xc0,
        ensures
            match r {
                Ok(ok) => spec_read_layer_note(data@) == Ok::<_, DecodeError>((ok.0, ok.1 as int)),
                Err(e) => spec_read_layer_note(data@) == Err::<(LayerCmd, int), _>(e),
            },
    {
        let op: u8 = data[0];
        if op <= 0x3f {
            if data.len() < 2 || (data[1] & 0x80 != 0 && data.len() < 3) {
                return Err(DecodeError::Truncated);
            }
            let (v, size) = read_var(&data[1..data.len()]);
            if data.len() < 3 + size {
                return Err(DecodeError::Truncated);
            }
            Ok(
                (
                    LayerCmd::Note0 {
                        pitch: op,
                        percentage: v,
                        velocity: data[1 + size],
                        duration: data[2 + size],
                    },
                    3 + size,
                ),
            )
        } else if op <= 0x7f {
            if data.len() < 2 || (data[1] & 0x80 != 0 && data.len() < 3) {
                return Err(DecodeError::Truncated);
            }
            let (v, size) = read_var(&data[1..data.len()]);
            if data.len() < 2 + size {
                return Err(DecodeError::Truncated);
            }
            Ok(
                (
                    LayerCmd::Note1 { pitch: op - 0x40, percentage: v, velocity: data[1 + size] },
                    2 + size,
                ),
            )
        } else {
            if data.len() < 3 {
                return Err(DecodeError::Truncated);
            }
            Ok((LayerCmd::Note2 { pitch: op - 0x80, velocity: data[1], duration: data[2] }, 3))
        }
    }

    /// Decodes the small-notes note triggers (opcode bytes below `0xc0`).
    fn read_small_note(data: &[u8]) -> (r: Result<(LayerCmd, usize), DecodeError>)
        requires
            data@.len() >= 1,
            data@[0] < 0xc0,
        ensures
            match r {
                Ok(ok) => spec_read_layer_small_note(data@) == Ok::<_, DecodeError>(
                    (ok.0, ok.1 as int),
                ),
                Err(e) => spec_read_layer_small_note(data@) == Err::<(LayerCmd, int), _>(e),
            },
    {
        let op: u8 = data[0];
        if op <= 0x3f {
            if data.len() < 2 || (data[1] & 0x80 != 0 && data.len() < 3) {
                return Err(DecodeError::Truncated);
            }
            let (v, size) = read_var(&data[1..data.len()]);
            Ok((LayerCmd::SmallNote0 { pitch: op, percentage: v }, 1 + size))
        } else if op <= 0x7f {
            Ok((LayerCmd::SmallNote1 { pitch: op - 0x40 }, 1))
        } else {
            Ok((LayerCmd::SmallNote2 { pitch: op - 0x80 }, 1))
        }
    }

    /// Whether this is the script-terminating instruction.
    pub fn is_end(&self) -> (r: bool)
        ensures
            r == (*self is End),
    {
        matches!(self, LayerCmd::End)
    }

    /// Encodes the instruction in its canonical byte form.
    #[verifier::rlimit(50)]
    pub fn encode(&self) -> (r: Vec<u8>)
        requires
            layer_cmd_wf(*self),
        ensures
            r@ == spec_encode_layer_cmd(*self),
    {
        let mut out: Vec<u8> = Vec::new();
        match *self {
            LayerCmd::End => out.push(0xff),
            LayerCmd::Call(a) => {
                out.push(0xfc);
                push_u16_be(&mut out, a);
            },
            LayerCmd::Jump(a) => {
                out.push(0xfb);
                push_u16_be(&mut out, a);
            },
            LayerCmd::Loop(n) => {
                out.push(0xf8);
                out.push(n);
            },
            LayerCmd::LoopEnd => out.push(0xf7),
            LayerCmd::SetShortNoteDurationFromTable(n) => out.push(0xe0 | n),
            LayerCmd::SetShortNoteVelocityFromTable(n) => out.push(0xd0 | n),
            LayerCmd::SetPan(p) => {
                out.push(0xca);
                out.push(p);
            },
            LayerCmd::SetShortNoteDuration(v) => {
                out.push(0xc9);
                out.push(v);
            },
            LayerCmd::DisablePortamento => out.push(0xc8),
            LayerCmd::Portamento(x, y, z) => {
                out.push(0xc7);
                out.push(x);
                out.push(y);
                out.push(z as u8);
            },
            LayerCmd::SetInstr(i) => {
                out.push(0xc6);
                out.push(i);
            },
            LayerCmd::SomethingOff => out.push(0xc5),
            LayerCmd::SomethingOn => out.push(0xc4),
            LayerCmd::SetShortNoteDefaultPlayPercentage(v) => {
                out.push(0xc3);
                push_var(&mut out, v);
            },
            LayerCmd::Transpose(t) => {
                out.push(0xc2);
                out.push(t);
            },
            LayerCmd::SetShortNoteVelocity(v) => {
                out.push(0xc1);
                out.push(v);
            },
            LayerCmd::Delay(v) => {
                out.push(0xc0);
                push_var(&mut out, v);
            },
            LayerCmd::Note0 { pitch, percentage, velocity, duration } => {
                out.push(pitch);
                push_var(&mut out, percentage);
                out.push(velocity);
                out.push(duration);
            },
            LayerCmd::Note1 { pitch, percentage, velocity } => {
                out.push(pitch + 0x40);
                push_var(&mut out, percentage);
                out.push(velocity);
            },
            LayerCmd::Note2 { pitch, velocity, duration } => {
                out.push(pitch + 0x80);
                out.push(velocity);
                out.push(duration);
            },
            LayerCmd::SmallNote0 { pitch, percentage } => {
                out.push(pitch);
                push_var(&mut out, percentage);
            },
            LayerCmd::SmallNote1 { pitch } => out.push(pitch + 0x40),
            LayerCmd::SmallNote2 { pitch } => out.push(pitch + 0x80),
        }
        assert(out@ =~= spec_encode_layer_cmd(*self));
        out
    }
}

/// Which layer-tier instructions the canonical encoder can represent:
/// operands must fit their byte form.
pub open spec fn layer_cmd_wf(c: LayerCmd) -> bool {
    match c {
        LayerCmd::SetShortNoteDurationFromTable(n) => n <= 0x0f,
        LayerCmd::SetShortNoteVelocityFromTable(n) => n <= 0x0f,
        LayerCmd::Portamento(_, _, z) => z <= 0xff,
        LayerCmd::SetShortNoteDefaultPlayPercentage(v) => v <= 0x7fff,
        LayerCmd::Delay(v) => v <= 0x7fff,
        LayerCmd::Note0 { pitch, percentage, .. } => pitch <= 0x3f && percentage <= 0x7fff,
        LayerCmd::Note1 { pitch, percentage, .. } => pitch <= 0x3f && percentage <= 0x7fff,
        LayerCmd::Note2 { pitch, .. } => pitch <= 0x3f,
        LayerCmd::SmallNote0 { pitch, percentage } => pitch <= 0x3f && percentage <= 0x7fff,
        LayerCmd::SmallNote1 { pitch } => pitch <= 0x3f,
        LayerCmd::SmallNote2 { pitch } => pitch <= 0x3f,
        _ => true,
    }
}

/// Whether the note encoding that `large` selects can carry `c`.
pub open spec fn layer_cmd_mode_ok(c: LayerCmd, large: bool) -> bool {
    match c {
        LayerCmd::Note0 { .. } => large,
        LayerCmd::Note1 { .. } => large,
        LayerCmd::Note2 { .. } => large,
        LayerCmd::SmallNote0 { .. } => !large,
        LayerCmd::SmallNote1 { .. } => !large,
        LayerCmd::SmallNote2 { .. } => !large,
        _ => true,
    }
}

/// Canonical byte form of a layer-tier instruction.
pub open spec fn spec_encode_layer_cmd(c: LayerCmd) -> Seq<u8> {
    match c {
        LayerCmd::End => seq![0xffu8],
        LayerCmd::Call(a) => seq![0xfcu8, (a / 0x100) as u8, (a % 0x100) as u8],
        LayerCmd::Jump(a) => seq![0xfbu8, (a / 0x100) as u8, (a % 0x100) as u8],
        LayerCmd::Loop(n) => seq![0xf8u8, n],
        LayerCmd::LoopEnd => seq![0xf7u8],
        LayerCmd::SetShortNoteDurationFromTable(n) => seq![0xe0u8 | n],
        LayerCmd::SetShortNoteVelocityFromTable(n) => seq![0xd0u8 | n],
        LayerCmd::SetPan(p) => seq![0xcau8, p],
        LayerCmd::SetShortNoteDuration(v) => seq![0xc9u8, v],
        LayerCmd::DisablePortamento => seq![0xc8u8],
        LayerCmd::Portamento(x, y, z) => seq![0xc7u8, x, y, z as u8],
        LayerCmd::SetInstr(i) => seq![0xc6u8, i],
        LayerCmd::SomethingOff => seq![0xc5u8],
        LayerCmd::SomethingOn => seq![0xc4u8],
        LayerCmd::SetShortNoteDefaultPlayPercentage(v) => seq![0xc3u8] + spec_encode_var(v),
        LayerCmd::Transpose(t) => seq![0xc2u8, t],
        LayerCmd::SetShortNoteVelocity(v) => seq![0xc1u8, v],
        LayerCmd::Delay(v) => seq![0xc0u8] + spec_encode_var(v),
        LayerCmd::Note0 { pitch, percentage, velocity, duration } => seq![pitch]
            + spec_encode_var(percentage) + seq![velocity, duration],
        LayerCmd::Note1 { pitch, percentage, velocity } => seq![(pitch + 0x40) as u8]
            + spec_encode_var(percentage) + seq![velocity],
        LayerCmd::Note2 { pitch, velocity, duration } => seq![
            (pitch + 0x80) as u8,
            velocity,
            duration,
        ],
        LayerCmd::SmallNote0 { pitch, percentage } => seq![pitch] + spec_encode_var(percentage),
        LayerCmd::SmallNote1 { pitch } => seq![(pitch + 0x40) as u8],
        LayerCmd::SmallNote2 { pitch } => seq![(pitch + 0x80) as u8],
    }
}

/// Decoding a canonically encoded layer-tier instruction, under a note
/// encoding that can carry it, yields the instruction back with every byte
/// of its encoding consumed.
#[verifier::rlimit(100)]
pub proof fn lemma_layer_cmd_roundtrip(c: LayerCmd, large: bool)
    requires
        layer_cmd_wf(c),
        layer_cmd_mode_ok(c, large),
    ensures
        spec_read_layer_cmd(spec_encode_layer_cmd(c), large) == Ok::<_, DecodeError>(
            (c, spec_encode_layer_cmd(c).len() as int),
        ),
{
    let d = spec_encode_layer_cmd(c);
    match c {
        LayerCmd::SetShortNoteDurationFromTable(n) => {
            assert(0xe0u8 & 0x0f == 0 && (0xe0u8 | 0x0f) == 0xef) by (bit_vector);
            lemma_nibble_or(0xe0, n);
        },
        LayerCmd::SetShortNoteVelocityFromTable(n) => {
            assert(0xd0u8 & 0x0f == 0 && (0xd0u8 | 0x0f) == 0xdf) by (bit_vector);
            lemma_nibble_or(0xd0, n);
        },
        LayerCmd::SetShortNoteDefaultPlayPercentage(v) => {
            assert(d.subrange(1, 1 + spec_encode_var(v).len() as int) =~= spec_encode_var(v));
            lemma_var_roundtrip_at(d, 1, v);
        },
        LayerCmd::Delay(v) => {
            assert(d.subrange(1, 1 + spec_encode_var(v).len() as int) =~= spec_encode_var(v));
            lemma_var_roundtrip_at(d, 1, v);
        },
        LayerCmd::Note0 { pitch, percentage, velocity, duration } => {
            assert(d[0] == pitch);
            assert(d.subrange(1, 1 + spec_encode_var(percentage).len() as int)
                =~= spec_encode_var(percentage));
            lemma_var_roundtrip_at(d, 1, percentage);
            let n = spec_encode_var(percentage).len() as int;
            assert(d[1 + n] == velocity);
            assert(d[2 + n] == duration);
        },
        LayerCmd::Note1 { pitch, percentage, velocity } => {
            assert(d[0] == (pitch + 0x40) as u8);
            assert(d.subrange(1, 1 + spec_encode_var(percentage).len() as int)
                =~= spec_encode_var(percentage));
            lemma_var_roundtrip_at(d, 1, percentage);
            let n = spec_encode_var(percentage).len() as int;
            assert(d[1 + n] == velocity);
        },
        LayerCmd::SmallNote0 { pitch, percentage } => {
            assert(d[0] == pitch);
            assert(d.subrange(1, 1 + spec_encode_var(percentage).len() as int)
                =~= spec_encode_var(percentage));
            lemma_var_roundtrip_at(d, 1, percentage);
        },
        _ => {},
    }
}

/// Bounds every decoded layer-tier instruction obeys: variable-length
/// operands fit in 15 bits and table indices in a nibble.
pub open spec fn layer_cmd_bounded(c: LayerCmd) -> bool {
    match c {
        LayerCmd::Delay(v) => v <= 0x7fff,
        LayerCmd::SetShortNoteDefaultPlayPercentage(v) => v <= 0x7fff,
        LayerCmd::Note0 { percentage, .. } => percentage <= 0x7fff,
        LayerCmd::Note1 { percentage, .. } => percentage <= 0x7fff,
        LayerCmd::SmallNote0 { percentage, .. } => percentage <= 0x7fff,
        LayerCmd::SetShortNoteDurationFromTable(n) => n <= 0x0f,
        LayerCmd::SetShortNoteVelocityFromTable(n) => n <= 0x0f,
        _ => true,
    }
}

/// Every decoded layer-tier instruction is within `layer_cmd_bounded`.
pub proof fn lemma_layer_read_bounded(d: Seq<u8>, large: bool)
    ensures
        spec_read_layer_cmd(d, large) matches Ok(r) ==> layer_cmd_bounded(r.0),
{
    crate::lemma_var_at_bound(d, 1);
    if d.len() >= 1 {
        let b = d[0];
        assert(b & 0x0f <= 0x0f) by (bit_vector);
    }
}

/// A canonically encoded variable-length operand standing at offset `i`
/// reads back as its value.
proof fn lemma_var_roundtrip_at(d: Seq<u8>, i: int, v: u16)
    requires
        v <= 0x7fff,
        0 <= i,
        i + spec_encode_var(v).len() <= d.len(),
        d.subrange(i, i + spec_encode_var(v).len() as int) == spec_encode_var(v),
    ensures
        spec_read_var_at(d, i) == Some((v, spec_encode_var(v).len() as int)),
{
    let e = spec_encode_var(v);
    assert(d[i] == e[0]);
    if v >= 0x80 {
        assert(d[i + 1] == e[1]);
        lemma_var_bytes(v);
    } else {
        let b: u8 = v as u8;
        assert(b & 0x80 == 0) by (bit_vector)
            requires
                b == v as u8,
                v < 0x80,
        ;
    }
}

} // verus!
