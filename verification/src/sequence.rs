//! The sequence-tier instruction set and its decoder and encoder.
//!
//! The opcode byte selects the variant; several opcodes carry a slot index in
//! their low nibble; 16-bit operands are big-endian; delays use the
//! variable-length operand form.

use vstd::prelude::*;

use crate::bytes::{i8_of_u8, read_u16_be, spec_i8_of_u8, spec_u16_be, spec_u8_of_i8, u8_of_i8};
use crate::{
    lemma_nibble_or, lemma_var_bytes, push_u16_be, push_var, read_var, spec_encode_var,
    spec_read_var_at, DecodeError,
};

verus! {

/// One instruction of the sequence (player) tier.
#[derive(Debug, Clone, Copy, PartialEq, Eq, Structural)]
pub enum SequenceCmd {
    /// End of script, loop or function.
    End,
    /// Delay for 1 tick.
    Delay1,
    /// Delay for X ticks.
    Delay(u16),
    /// Call a function.
    Call(u16),
    /// Jump to a point in the sequence script.
    Jump(u16),
    /// Jump if Q == 0, where Q is the script's signed condition register.
    Beqz(u16),
    /// Jump if Q < 0.
    Bltz(u16),
    /// Repeat until the loop-end marker for X iterations (256 if X = 0).
    Loop(u8),
    /// Loop end marker.
    LoopEnd,
    /// Jump if Q >= 0.
    Bgez(u16),
    /// Reserve X notes for exclusive use by this sequence.
    ReserveNotes(u8),
    /// Drop all earlier note reservations made by this sequence.
    UnReserveNotes,
    /// Set transposition in semitones.
    Transpose(i8),
    /// Change transposition by some delta.
    TransposeRel(i8),
    /// Set tempo in beats per minute.
    SetTempo(u8),
    /// Change tempo by some delta.
    AddTempo(i8),
    /// Set volume scale (0..=255, none to twice normal).
    SetVol(u8),
    /// Change volume scale by some delta.
    ChangeVol(i8),
    /// Instantiate channels selected by a bitmask, low bit first.
    InitChannels(u16),
    /// Drop channels selected by a bitmask, low bit first.
    DisableChannels(u16),
    /// Set the volume multiplier used while muted (0..=127).
    SetMuteScale(i8),
    /// Set the sequence to muted mode.
    Mute,
    /// Set mute behavior (bitmask of soften, stop-notes, stop-script).
    SetMuteBhv(u8),
    /// Set the velocity table for short notes (address of 16 bytes).
    SetShortNoteVelocityTable(u16),
    /// Set the duration table for short notes (address of 16 bytes).
    SetShortNoteDurationTable(u16),
    /// Set the note allocation policy (bitmask).
    SetNoteAllocationPolicy(u8),
    /// Set Q to a constant.
    SetVal(u8),
    /// Bit-and Q with a constant.
    BitAnd(u8),
    /// Subtract a constant from Q.
    Subtract(u8),
    /// Start channel N with a channel script at the given address.
    StartChannel(u8, u16),
    /// Set Q to the sequence's variation bit.
    GetVariation,
    /// Set the variation bit to Q.
    SetVariation,
    /// Subtract the variation bit from Q.
    SubVariation,
    /// Set Q to 1 or 0, depending on whether channel N has been disabled.
    TestChDisabled(u8),
}

/// What decoding the start of `d` as a sequence-tier instruction yields:
/// the instruction and the bytes consumed, or the decode fault.
pub open spec fn spec_read_seq_cmd(d: Seq<u8>) -> Result<(SequenceCmd, int), DecodeError> {
    if d.len() < 1 {
        Err(DecodeError::Truncated)
    } else {
        let op = d[0];
        if op == 0xff {
            Ok((SequenceCmd::End, 1))
        } else if op == 0xfe {
            Ok((SequenceCmd::Delay1, 1))
        } else if op == 0xfd {
            match spec_read_var_at(d, 1) {
                Some(r) => Ok((SequenceCmd::Delay(r.0), 1 + r.1)),
                None => Err(DecodeError::Truncated),
            }
        } else if op == 0xfc {
            if d.len() < 3 {
                Err(DecodeError::Truncated)
            } else {
                Ok((SequenceCmd::Call(spec_u16_be(d[1], d[2])), 3))
            }
        } else if op == 0xfb {
            if d.len() < 3 {
                Err(DecodeError::Truncated)
            } else {
                Ok((SequenceCmd::Jump(spec_u16_be(d[1], d[2])), 3))
            }
        } else if op == 0xfa {
            if d.len() < 3 {
                Err(DecodeError::Truncated)
            } else {
                Ok((SequenceCmd::Beqz(spec_u16_be(d[1], d[2])), 3))
            }
        } else if op == 0xf9 {
            if d.len() < 3 {
                Err(DecodeError::Truncated)
            } else {
                Ok((SequenceCmd::Bltz(spec_u16_be(d[1], d[2])), 3))
            }
        } else if op == 0xf8 {
            if d.len() < 2 {
                Err(DecodeError::Truncated)
            } else {
                Ok((SequenceCmd::Loop(d[1]), 2))
            }
        } else if op == 0xf7 {
            Ok((SequenceCmd::LoopEnd, 1))
        } else if op == 0xf5 {
            if d.len() < 3 {
                Err(DecodeError::Truncated)
            } else {
                Ok((SequenceCmd::Bgez(spec_u16_be(d[1], d[2])), 3))
            }
        } else if op == 0xf2 {
            if d.len() < 2 {
                Err(DecodeError::Truncated)
            } else {
                Ok((SequenceCmd::ReserveNotes(d[1]), 2))
            }
        } else if op == 0xf1 {
            Ok((SequenceCmd::UnReserveNotes, 1))
        } else if op == 0xdf {
            if d.len() < 2 {
                Err(DecodeError::Truncated)
            } else {
                Ok((SequenceCmd::Transpose(spec_i8_of_u8(d[1])), 2))
            }
        } else if op == 0xde {
            if d.len() < 2 {
                Err(DecodeError::Truncated)
            } else {
                Ok((SequenceCmd::TransposeRel(spec_i8_of_u8(d[1])), 2))
            }
        } else if op == 0xdd {
            if d.len() < 2 {
                Err(DecodeError::Truncated)
            } else {
                Ok((SequenceCmd::SetTempo(d[1]), 2))
            }
        } else if op == 0xdc {
            if d.len() < 2 {
                Err(DecodeError::Truncated)
            } else {
                Ok((SequenceCmd::AddTempo(spec_i8_of_u8(d[1])), 2))
            }
        } else if op == 0xdb {
            if d.len() < 2 {
                Err(DecodeError::Truncated)
            } else {
                Ok((SequenceCmd::SetVol(d[1]), 2))
            }
        } else if op == 0xda {
            if d.len() < 2 {
                Err(DecodeError::Truncated)
            } else {
                Ok((SequenceCmd::ChangeVol(spec_i8_of_u8(d[1])), 2))
            }
        } else if op == 0xd7 {
            if d.len() < 3 {
                Err(DecodeError::Truncated)
            } else {
                Ok((SequenceCmd::InitChannels(spec_u16_be(d[1], d[2])), 3))
            }
        } else if op == 0xd6 {
            if d.len() < 3 {
                Err(DecodeError::Truncated)
            } else {
                Ok((SequenceCmd::DisableChannels(spec_u16_be(d[1], d[2])), 3))
            }
        } else if op == 0xd5 {
            if d.len() < 2 {
                Err(DecodeError::Truncated)
            } else {
                Ok((SequenceCmd::SetMuteScale(spec_i8_of_u8(d[1])), 2))
            }
        } else if op == 0xd4 {
            Ok((SequenceCmd::Mute, 1))
        } else if op == 0xd3 {
            if d.len() < 2 {
                Err(DecodeError::Truncated)
            } else {
                Ok((SequenceCmd::SetMuteBhv(d[1]), 2))
            }
        } else if op == 0xd2 {
            if d.len() < 3 {
                Err(DecodeError::Truncated)
            } else {
                Ok((SequenceCmd::SetShortNoteVelocityTable(spec_u16_be(d[1], d[2])), 3))
            }
        } else if op == 0xd1 {
            if d.len() < 3 {
                Err(DecodeError::Truncated)
            } else {
                Ok((SequenceCmd::SetShortNoteDurationTable(spec_u16_be(d[1], d[2])), 3))
            }
        } else if op == 0xd0 {
            if d.len() < 2 {
                Err(DecodeError::Truncated)
            } else {
                Ok((SequenceCmd::SetNoteAllocationPolicy(d[1]), 2))
            }
        } else if op == 0xcc {
            if d.len() < 2 {
                Err(DecodeError::Truncated)
            } else {
                Ok((SequenceCmd::SetVal(d[1]), 2))
            }
        } else if op == 0xc9 {
            if d.len() < 2 {
                Err(DecodeError::Truncated)
            } else {
                Ok((SequenceCmd::BitAnd(d[1]), 2))
            }
        } else if op == 0xc8 {
            if d.len() < 2 {
                Err(DecodeError::Truncated)
            } else {
                Ok((SequenceCmd::Subtract(d[1]), 2))
            }
        } else if 0x90 <= op && op <= 0x9f {
            if d.len() < 3 {
                Err(DecodeError::Truncated)
            } else {
                Ok((SequenceCmd::StartChannel(op & 0x0f, spec_u16_be(d[1], d[2])), 3))
            }
        } else if 0x80 <= op && op <= 0x8f {
            Ok((SequenceCmd::GetVariation, 1))
        } else if 0x70 <= op && op <= 0x7f {
            Ok((SequenceCmd::SetVariation, 1))
        } else if 0x50 <= op && op <= 0x5f {
            Ok((SequenceCmd::SubVariation, 1))
        } else if op <= 0x0f {
            Ok((SequenceCmd::TestChDisabled(op & 0x0f), 1))
        } else {
            Err(DecodeError::UnknownOpcode(op))
        }
    }
}

impl SequenceCmd {
    /// Decodes the instruction at the start of `data`.
    /// Returns the instruction and the number of bytes consumed.
    pub fn read(data: &[u8]) -> (r: Result<(SequenceCmd, usize), DecodeError>)
        ensures
            match r {
                Ok(ok) => spec_read_seq_cmd(data@) == Ok::<_, DecodeError>((ok.0, ok.1 as int)),
                Err(e) => spec_read_seq_cmd(data@) == Err::<(SequenceCmd, int), _>(e),
            },
    {
        if data.len() < 1 {
            return Err(DecodeError::Truncated);
        }
        let op: u8 = data[0];
        match op {
            0xff => Ok((SequenceCmd::End, 1)),
            0xfe => Ok((SequenceCmd::Delay1, 1)),
            0xfd => {
                if data.len() < 2 || (data[1] & 0x80 != 0 && data.len() < 3) {
                    return Err(DecodeError::Truncated);
                }
                let (v, size) = read_var(&data[1..data.len()]);
                Ok((SequenceCmd::Delay(v), 1 + size))
            },
            0xfc => {
                if data.len() < 3 {
                    return Err(DecodeError::Truncated);
                }
                Ok((SequenceCmd::Call(read_u16_be(&data[1..data.len()])), 3))
            },
            0xfb => {
                if data.len() < 3 {
                    return Err(DecodeError::Truncated);
                }
                Ok((SequenceCmd::Jump(read_u16_be(&data[1..data.len()])), 3))
            },
            0xfa => {
                if data.len() < 3 {
                    return Err(DecodeError::Truncated);
                }
                Ok((SequenceCmd::Beqz(read_u16_be(&data[1..data.len()])), 3))
            },
            0xf9 => {
                if data.len() < 3 {
                    return Err(DecodeError::Truncated);
                }
                Ok((SequenceCmd::Bltz(read_u16_be(&data[1..data.len()])), 3))
            },
            0xf8 => {
                if data.len() < 2 {
                    return Err(DecodeError::Truncated);
                }
                Ok((SequenceCmd::Loop(data[1]), 2))
            },
            0xf7 => Ok((SequenceCmd::LoopEnd, 1)),
            0xf5 => {
                if data.len() < 3 {
                    return Err(DecodeError::Truncated);
                }
                Ok((SequenceCmd::Bgez(read_u16_be(&data[1..data.len()])), 3))
            },
            0xf2 => {
                if data.len() < 2 {
                    return Err(DecodeError::Truncated);
                }
                Ok((SequenceCmd::ReserveNotes(data[1]), 2))
            },
            0xf1 => Ok((SequenceCmd::UnReserveNotes, 1)),
            0xdf => {
                if data.len() < 2 {
                    return Err(DecodeError::Truncated);
                }
                Ok((SequenceCmd::Transpose(i8_of_u8(data[1])), 2))
            },
            0xde => {
                if data.len() < 2 {
                    return Err(DecodeError::Truncated);
                }
                Ok((SequenceCmd::TransposeRel(i8_of_u8(data[1])), 2))
            },
            0xdd => {
                if data.len() < 2 {
                    return Err(DecodeError::Truncated);
                }
                Ok((SequenceCmd::SetTempo(data[1]), 2))
            },
            0xdc => {
                if data.len() < 2 {
                    return Err(DecodeError::Truncated);
                }
                Ok((SequenceCmd::AddTempo(i8_of_u8(data[1])), 2))
            },
            0xdb => {
                if data.len() < 2 {
                    return Err(DecodeError::Truncated);
                }
                Ok((SequenceCmd::SetVol(data[1]), 2))
            },
            0xda => {
                if data.len() < 2 {
                    return Err(DecodeError::Truncated);
                }
                Ok((SequenceCmd::ChangeVol(i8_of_u8(data[1])), 2))
            },
            0xd7 => {
                if data.len() < 3 {
                    return Err(DecodeError::Truncated);
                }
                Ok((SequenceCmd::InitChannels(read_u16_be(&data[1..data.len()])), 3))
            },
            0xd6 => {
                if data.len() < 3 {
                    return Err(DecodeError::Truncated);
                }
                Ok((SequenceCmd::DisableChannels(read_u16_be(&data[1..data.len()])), 3))
            },
            0xd5 => {
                if data.len() < 2 {
                    return Err(DecodeError::Truncated);
                }
                Ok((SequenceCmd::SetMuteScale(i8_of_u8(data[1])), 2))
            },
            0xd4 => Ok((SequenceCmd::Mute, 1)),
            0xd3 => {
                if data.len() < 2 {
                    return Err(DecodeError::Truncated);
                }
                Ok((SequenceCmd::SetMuteBhv(data[1]), 2))
            },
            0xd2 => {
                if data.len() < 3 {
                    return Err(DecodeError::Truncated);
                }
                Ok((SequenceCmd::SetShortNoteVelocityTable(read_u16_be(&data[1..data.len()])), 3))
            },
            0xd1 => {
                if data.len() < 3 {
                    return Err(DecodeError::Truncated);
                }
                Ok((SequenceCmd::SetShortNoteDurationTable(read_u16_be(&data[1..data.len()])), 3))
            },
            0xd0 => {
                if data.len() < 2 {
                    return Err(DecodeError::Truncated);
                }
                Ok((SequenceCmd::SetNoteAllocationPolicy(data[1]), 2))
            },
            0xcc => {
                if data.len() < 2 {
                    return Err(DecodeError::Truncated);
                }
                Ok((SequenceCmd::SetVal(data[1]), 2))
            },
            0xc9 => {
                if data.len() < 2 {
                    return Err(DecodeError::Truncated);
                }
                Ok((SequenceCmd::BitAnd(data[1]), 2))
            },
            0xc8 => {
                if data.len() < 2 {
                    return Err(DecodeError::Truncated);
                }
                Ok((SequenceCmd::Subtract(data[1]), 2))
            },
            0x90..=0x9f => {
                if data.len() < 3 {
                    return Err(DecodeError::Truncated);
                }
                Ok((SequenceCmd::StartChannel(op & 0x0f, read_u16_be(&data[1..data.len()])), 3))
            },
            0x80..=0x8f => Ok((SequenceCmd::GetVariation, 1)),
            0x70..=0x7f => Ok((SequenceCmd::SetVariation, 1)),
            0x50..=0x5f => Ok((SequenceCmd::SubVariation, 1)),
            0x00..=0x0f => Ok((SequenceCmd::TestChDisabled(op & 0x0f), 1)),
            _ => Err(DecodeError::UnknownOpcode(op)),
        }
    }

    /// Whether this is the script-terminating instruction.
    pub fn is_end(&self) -> (r: bool)
        ensures
            r == (*self is End),
    {
        matches!(self, SequenceCmd::End)
    }

    /// Encodes the instruction in its canonical byte form.
    pub fn encode(&self) -> (r: Vec<u8>)
        requires
            seq_cmd_wf(*self),
        ensures
            r@ == spec_encode_seq_cmd(*self),
    {
        let mut out: Vec<u8> = Vec::new();
        match *self {
            SequenceCmd::End => out.push(0xff),
            SequenceCmd::Delay1 => out.push(0xfe),
            SequenceCmd::Delay(v) => {
                out.push(0xfd);
                push_var(&mut out, v);
            },
            SequenceCmd::Call(a) => {
                out.push(0xfc);
                push_u16_be(&mut out, a);
            },
            SequenceCmd::Jump(a) => {
                out.push(0xfb);
                push_u16_be(&mut out, a);
            },
            SequenceCmd::Beqz(a) => {
                out.push(0xfa);
                push_u16_be(&mut out, a);
            },
            SequenceCmd::Bltz(a) => {
                out.push(0xf9);
                push_u16_be(&mut out, a);
            },
            SequenceCmd::Loop(n) => {
                out.push(0xf8);
                out.push(n);
            },
            SequenceCmd::LoopEnd => out.push(0xf7),
            SequenceCmd::Bgez(a) => {
                out.push(0xf5);
                push_u16_be(&mut out, a);
            },
            SequenceCmd::ReserveNotes(n) => {
                out.push(0xf2);
                out.push(n);
            },
            SequenceCmd::UnReserveNotes => out.push(0xf1),
            SequenceCmd::Transpose(t) => {
                out.push(0xdf);
                out.push(u8_of_i8(t));
            },
            SequenceCmd::TransposeRel(t) => {
                out.push(0xde);
                out.push(u8_of_i8(t));
            },
            SequenceCmd::SetTempo(t) => {
                out.push(0xdd);
                out.push(t);
            },
            SequenceCmd::AddTempo(t) => {
                out.push(0xdc);
                out.push(u8_of_i8(t));
            },
            SequenceCmd::SetVol(v) => {
                out.push(0xdb);
                out.push(v);
            },
            SequenceCmd::ChangeVol(v) => {
                out.push(0xda);
                out.push(u8_of_i8(v));
            },
            SequenceCmd::InitChannels(m) => {
                out.push(0xd7);
                push_u16_be(&mut out, m);
            },
            SequenceCmd::DisableChannels(m) => {
                out.push(0xd6);
                push_u16_be(&mut out, m);
            },
            SequenceCmd::SetMuteScale(v) => {
                out.push(0xd5);
                out.push(u8_of_i8(v));
            },
            SequenceCmd::Mute => out.push(0xd4),
            SequenceCmd::SetMuteBhv(b) => {
                out.push(0xd3);
                out.push(b);
            },
            SequenceCmd::SetShortNoteVelocityTable(a) => {
                out.push(0xd2);
                push_u16_be(&mut out, a);
            },
            SequenceCmd::SetShortNoteDurationTable(a) => {
                out.push(0xd1);
                push_u16_be(&mut out, a);
            },
            SequenceCmd::SetNoteAllocationPolicy(p) => {
                out.push(0xd0);
                out.push(p);
            },
            SequenceCmd::SetVal(v) => {
                out.push(0xcc);
                out.push(v);
            },
            SequenceCmd::BitAnd(v) => {
                out.push(0xc9);
                out.push(v);
            },
            SequenceCmd::Subtract(v) => {
                out.push(0xc8);
                out.push(v);
            },
            SequenceCmd::StartChannel(i, a) => {
                out.push(0x90 | i);
                push_u16_be(&mut out, a);
            },
            SequenceCmd::GetVariation => out.push(0x80),
            SequenceCmd::SetVariation => out.push(0x70),
            SequenceCmd::SubVariation => out.push(0x50),
            SequenceCmd::TestChDisabled(i) => out.push(i),
        }
        assert(out@ =~= spec_encode_seq_cmd(*self));
        out
    }
}

/// Which sequence-tier instructions the canonical encoder can represent:
/// operands must fit their byte form.
pub open spec fn seq_cmd_wf(c: SequenceCmd) -> bool {
    match c {
        SequenceCmd::Delay(v) => v <= 0x7fff,
        SequenceCmd::StartChannel(i, _) => i <= 0x0f,
        SequenceCmd::TestChDisabled(i) => i <= 0x0f,
        _ => true,
    }
}

/// Canonical byte form of a sequence-tier instruction.
pub open spec fn spec_encode_seq_cmd(c: SequenceCmd) -> Seq<u8> {
    match c {
        SequenceCmd::End => seq![0xffu8],
        SequenceCmd::Delay1 => seq![0xfeu8],
        SequenceCmd::Delay(v) => seq![0xfdu8] + spec_encode_var(v),
        SequenceCmd::Call(a) => seq![0xfcu8, (a / 0x100) as u8, (a % 0x100) as u8],
        SequenceCmd::Jump(a) => seq![0xfbu8, (a / 0x100) as u8, (a % 0x100) as u8],
        SequenceCmd::Beqz(a) => seq![0xfau8, (a / 0x100) as u8, (a % 0x100) as u8],
        SequenceCmd::Bltz(a) => seq![0xf9u8, (a / 0x100) as u8, (a % 0x100) as u8],
        SequenceCmd::Loop(n) => seq![0xf8u8, n],
        SequenceCmd::LoopEnd => seq![0xf7u8],
        SequenceCmd::Bgez(a) => seq![0xf5u8, (a / 0x100) as u8, (a % 0x100) as u8],
        SequenceCmd::ReserveNotes(n) => seq![0xf2u8, n],
        SequenceCmd::UnReserveNotes => seq![0xf1u8],
        SequenceCmd::Transpose(t) => seq![0xdfu8, spec_u8_of_i8(t)],
        SequenceCmd::TransposeRel(t) => seq![0xdeu8, spec_u8_of_i8(t)],
        SequenceCmd::SetTempo(t) => seq![0xddu8, t],
        SequenceCmd::AddTempo(t) => seq![0xdcu8, spec_u8_of_i8(t)],
        SequenceCmd::SetVol(v) => seq![0xdbu8, v],
        SequenceCmd::ChangeVol(v) => seq![0xdau8, spec_u8_of_i8(v)],
        SequenceCmd::InitChannels(m) => seq![0xd7u8, (m / 0x100) as u8, (m % 0x100) as u8],
        SequenceCmd::DisableChannels(m) => seq![0xd6u8, (m / 0x100) as u8, (m % 0x100) as u8],
        SequenceCmd::SetMuteScale(v) => seq![0xd5u8, spec_u8_of_i8(v)],
        SequenceCmd::Mute => seq![0xd4u8],
        SequenceCmd::SetMuteBhv(b) => seq![0xd3u8, b],
        SequenceCmd::SetShortNoteVelocityTable(a) => seq![
            0xd2u8,
            (a / 0x100) as u8,
            (a % 0x100) as u8,
        ],
        SequenceCmd::SetShortNoteDurationTable(a) => seq![
            0xd1u8,
            (a / 0x100) as u8,
            (a % 0x100) as u8,
        ],
        SequenceCmd::SetNoteAllocationPolicy(p) => seq![0xd0u8, p],
        SequenceCmd::SetVal(v) => seq![0xccu8, v],
        SequenceCmd::BitAnd(v) => seq![0xc9u8, v],
        SequenceCmd::Subtract(v) => seq![0xc8u8, v],
        SequenceCmd::StartChannel(i, a) => seq![0x90u8 | i, (a / 0x100) as u8, (a % 0x100) as u8],
        SequenceCmd::GetVariation => seq![0x80u8],
        SequenceCmd::SetVariation => seq![0x70u8],
        SequenceCmd::SubVariation => seq![0x50u8],
        SequenceCmd::TestChDisabled(i) => seq![i],
    }
}

/// Bounds every decoded sequence-tier instruction obeys: slot indices
/// taken from an opcode's low nibble fit in it.
pub open spec fn seq_cmd_bounded(c: SequenceCmd) -> bool {
    match c {
        SequenceCmd::StartChannel(i, _) => i <= 0x0f,
        SequenceCmd::TestChDisabled(i) => i <= 0x0f,
        _ => true,
    }
}

/// Every decoded sequence-tier instruction is within `seq_cmd_bounded`.
pub proof fn lemma_seq_read_bounded(d: Seq<u8>)
    ensures
        spec_read_seq_cmd(d) matches Ok(r) ==> seq_cmd_bounded(r.0),
{
    if d.len() >= 1 {
        let b = d[0];
        assert(b & 0x0f <= 0x0f) by (bit_vector);
    }
}

/// Decoding a canonically encoded sequence-tier instruction yields the
/// instruction back, with every byte of its encoding consumed.
#[verifier::rlimit(60)]
pub proof fn lemma_seq_cmd_roundtrip(c: SequenceCmd)
    requires
        seq_cmd_wf(c),
    ensures
        spec_read_seq_cmd(spec_encode_seq_cmd(c)) == Ok::<_, DecodeError>(
            (c, spec_encode_seq_cmd(c).len() as int),
        ),
{
    let d = spec_encode_seq_cmd(c);
    match c {
        SequenceCmd::Delay(v) => {
            assert(d[0] == 0xfd);
            assert(d.len() == 1 + spec_encode_var(v).len());
            if v >= 0x80 {
                lemma_var_bytes(v);
                assert(d[1] == (v / 0x100) as u8 | 0x80);
                assert(d[2] == (v % 0x100) as u8);
                assert(spec_read_var_at(d, 1) == Some((v, 2int)));
            } else {
                let b: u8 = v as u8;
                assert(b & 0x80 == 0) by (bit_vector)
                    requires
                        b == v as u8,
                        v < 0x80,
                ;
                assert(d[1] == b);
            }
            assert(spec_read_seq_cmd(d) == Ok::<_, DecodeError>((c, d.len() as int)));
        },
        SequenceCmd::StartChannel(i, a) => {
            assert(0x90u8 & 0x0f == 0 && (0x90u8 | 0x0f) == 0x9f) by (bit_vector);
            lemma_nibble_or(0x90, i);
            assert(spec_read_seq_cmd(d) == Ok::<_, DecodeError>((c, d.len() as int)));
        },
        SequenceCmd::TestChDisabled(i) => {
            assert(0x00u8 & 0x0f == 0) by (bit_vector);
            lemma_nibble_or(0x00, i);
            assert((0x00u8 | i) == i) by (bit_vector);
            assert(spec_read_seq_cmd(d) == Ok::<_, DecodeError>((c, d.len() as int)));
        },
        _ => {},
    }
}

} // verus!
