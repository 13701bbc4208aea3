//! The channel-tier instruction set and its decoder and encoder.
//!
//! Two decoder quirks are kept as the driver has them: the vibrato-delay
//! instruction reads its operand byte but consumes only the opcode byte, and
//! the frequency-scale instruction consumes four bytes while its operand
//! occupies two (the encoder emits a padding byte for it).

use vstd::prelude::*;

use crate::bytes::{i8_of_u8, read_u16_be, spec_i8_of_u8, spec_u16_be, spec_u8_of_i8, u8_of_i8};
use crate::{
    lemma_nibble_or, lemma_var_bytes, push_u16_be, push_var, read_var, spec_encode_var,
    spec_read_var_at, DecodeError,
};

verus! {

/// One instruction of the channel tier.
#[derive(Debug, Clone, Copy, PartialEq, Eq, Structural)]
pub enum ChannelCmd {
    /// End of script, loop or function.
    End,
    /// Delay for 1 tick.
    Delay1,
    /// Delay for X ticks.
    Delay(u16),
    /// Call a function.
    Call(u16),
    /// Jump to a point in the sequence script.
    Jump(u16),
    /// Jump if Q == 0, where Q is the script's signed condition register.
    Beqz(u16),
    /// Jump if Q < 0.
    Bltz(u16),
    /// Repeat until the loop-end marker for X iterations (256 if X = 0).
    Loop(u8),
    /// Loop end marker.
    LoopEnd,
    /// Decrease the loop/function stack depth by 1.
    Break,
    /// Jump if Q >= 0.
    Bgez(u16),
    /// Infinite delay.
    Hang,
    /// Reserve X notes for exclusive use by this channel.
    ReserveNotes(u8),
    /// Drop all earlier note reservations made by this channel.
    UnReserveNotes,
    /// If Q != -1, call the position dyntable[Q].
    DynCall,
    /// Set the delay until vibrato starts for each note.
    SetVibratoDelay(u8),
    /// Set vibrato extent to run linearly from X to Y over a span given by Z.
    SetVibratoExtentLinear(u8, u8, u8),
    /// Set vibrato rate to run linearly from X to Y over a span given by Z.
    SetVibratoRateLinear(u8, u8, u8),
    /// Set the scale factor for volume (0..=255, none to twice normal).
    SetVolScale(u8),
    /// Set the second volume scale factor (0..=255, none to twice normal).
    SetVol(u8),
    /// Pitch bend using a raw frequency multiplier X / 2^15.
    FreqScale(u16),
    /// Set the pan for this channel (0..=128).
    SetPan(u8),
    /// Set the weight of channel pan against note pan (0..=128 maps to 0..=1).
    SetPanChanWeight(u8),
    /// Set transposition in semitones.
    Transpose(i8),
    /// Set the ADSR envelope (address in the sequence data).
    SetEnvelope(u16),
    /// Set the ADSR decay/release rate.
    SetDecayRelease(u8),
    /// Set vibrato extent.
    SetVibratoExtent(u8),
    /// Set vibrato rate.
    SetVibratoRate(u8),
    /// Meant to set the updates per frame; does nothing.
    SetUpdatesPerFrame(u8),
    /// Set the amount of reverb.
    SetReverb(u8),
    /// Pitch bend by at most one octave in either direction (-127..=127).
    PitchBend(i8),
    /// Set the ADSR sustain volume.
    SetSustain(u8),
    /// Set the note allocation policy for the channel (bitmask).
    SetNoteAllocationPolicy(u8),
    /// Enable (1) or disable (0) pan/volume effects for stereo or headsets.
    StereoHeadsetEffects(u8),
    /// Set Q to a constant.
    SetVal(u8),
    /// Set Q to sequenceData[X + Q].
    ReadSeq(u16),
    /// Set mute behavior for this channel.
    SetMuteBhv(u8),
    /// Bit-and Q with a constant.
    BitAnd(u8),
    /// Subtract a constant from Q.
    Subtract(u8),
    /// Overwrite the byte at the given position of the sequence data by Q + X.
    WriteSeq(u8, u16),
    /// Switch to the X'th instrument bank, counted from the end.
    SetBank(u8),
    /// If Q != -1, point dyntable at position dyntable[Q].
    DynSetDynTable,
    /// Use the "large notes" encoding for this channel's layers.
    LargeNotesOn,
    /// Use the "small notes" encoding for this channel's layers.
    LargeNotesOff,
    /// Point dyntable at a u16 array in the sequence data.
    SetDynTable(u16),
    /// Set the instrument within the bank.
    SetInstr(u8),
    /// If Q != -1, start layer N with the layer script at dyntable[Q].
    DynSetLayer(u8),
    /// Stop layer N.
    FreeLayer(u8),
    /// Start layer N with the layer script at address X.
    SetLayer(u8, u16),
    /// Set Q to IO[N]; if N < 4, IO[N] is then set to -1.
    IoReadVal(u8),
    /// Set IO[N] to Q.
    IoWriteVal(u8),
    /// Set the priority of later notes of this channel to N.
    SetNotePriority(u8),
    /// Decrease Q by IO[N].
    IoReadValSub(u8),
    /// Set Q to channel N's IO[X].
    IoReadVal2(u8, u8),
    /// Set channel N's IO[X] to Q.
    IoWriteVal2(u8, u8),
    /// Disable channel N of the parent sequence.
    DisableChannel(u8),
    /// Start channel N of the parent sequence at address X.
    StartChannel(u8, u16),
    /// Set Q to 1 or 0, depending on whether layer N has been disabled.
    TestLayerFinished(u8),
}

/// What decoding the start of `d` as a channel-tier instruction yields:
/// the instruction and the bytes consumed, or the decode fault.
pub open spec fn spec_read_chan_cmd(d: Seq<u8>) -> Result<(ChannelCmd, int), DecodeError> {
    if d.len() < 1 {
        Err(DecodeError::Truncated)
    } else if d[0] >= 0xf0 {
        spec_read_chan_ctl(d)
    } else if d[0] >= 0xc1 {
        spec_read_chan_params(d)
    } else {
        spec_read_chan_lower(d)
    }
}

/// The channel-tier control-flow instructions (opcode byte `0xf0` and above).
pub open spec fn spec_read_chan_ctl(d: Seq<u8>) -> Result<(ChannelCmd, int), DecodeError>
    recommends
        d.len() >= 1,
{
    {
        let op = d[0];
        if op == 0xff {
            Ok((ChannelCmd::End, 1))
        } else if op == 0xfe {
            Ok((ChannelCmd::Delay1, 1))
        } else if op == 0xfd {
            match spec_read_var_at(d, 1) {
                Some(r) => Ok((ChannelCmd::Delay(r.0), 1 + r.1)),
                None => Err(DecodeError::Truncated),
            }
        } else if op == 0xfc {
            if d.len() < 3 {
                Err(DecodeError::Truncated)
            } else {
                Ok((ChannelCmd::Call(spec_u16_be(d[1], d[2])), 3))
            }
        } else if op == 0xfb {
            if d.len() < 3 {
                Err(DecodeError::Truncated)
            } else {
                Ok((ChannelCmd::Jump(spec_u16_be(d[1], d[2])), 3))
            }
        } else if op == 0xfa {
            if d.len() < 3 {
                Err(DecodeError::Truncated)
            } else {
                Ok((ChannelCmd::Beqz(spec_u16_be(d[1], d[2])), 3))
            }
        } else if op == 0xf9 {
            if d.len() < 3 {
                Err(DecodeError::Truncated)
            } else {
                Ok((ChannelCmd::Bltz(spec_u16_be(d[1], d[2])), 3))
            }
        } else if op == 0xf8 {
            if d.len() < 2 {
                Err(DecodeError::Truncated)
            } else {
                Ok((ChannelCmd::Loop(d[1]), 2))
            }
        } else if op == 0xf7 {
            Ok((ChannelCmd::LoopEnd, 1))
        } else if op == 0xf6 {
            Ok((ChannelCmd::Break, 1))
        } else if op == 0xf5 {
            if d.len() < 3 {
                Err(DecodeError::Truncated)
            } else {
                Ok((ChannelCmd::Bgez(spec_u16_be(d[1], d[2])), 3))
            }
        } else if op == 0xf3 {
            Ok((ChannelCmd::Hang, 1))
        } else if op == 0xf2 {
            if d.len() < 2 {
                Err(DecodeError::Truncated)
            } else {
                Ok((ChannelCmd::ReserveNotes(d[1]), 2))
            }
        } else if op == 0xf1 {
            Ok((ChannelCmd::UnReserveNotes, 1))
        } else {
            Err(DecodeError::UnknownOpcode(op))
        }
    }
}

/// The channel-tier parameter instructions (opcode bytes `0xc1` to `0xef`).
pub open spec fn spec_read_chan_params(d: Seq<u8>) -> Result<(ChannelCmd, int), DecodeError>
    recommends
        d.len() >= 1,
{
    if d[0] >= 0xd5 {
        spec_read_chan_params_hi(d)
    } else {
        spec_read_chan_params_lo(d)
    }
}

/// The channel-tier parameter instructions with opcode bytes `0xd5` to `0xef`.
pub open spec fn spec_read_chan_params_hi(d: Seq<u8>) -> Result<(ChannelCmd, int), DecodeError>
    recommends
        d.len() >= 1,
{
    {
        let op = d[0];
        if op == 0xe4 {
            Ok((ChannelCmd::DynCall, 1))
        } else if op == 0xe3 {
            if d.len() < 2 {
                Err(DecodeError::Truncated)
            } else {
                Ok((ChannelCmd::SetVibratoDelay(d[1]), 1))
            }
        } else if op == 0xe2 {
            if d.len() < 4 {
                Err(DecodeError::Truncated)
            } else {
                Ok((ChannelCmd::SetVibratoExtentLinear(d[1], d[2], d[3]), 4))
            }
        } else if op == 0xe1 {
            if d.len() < 4 {
                Err(DecodeError::Truncated)
            } else {
                Ok((ChannelCmd::SetVibratoRateLinear(d[1], d[2], d[3]), 4))
            }
        } else if op == 0xe0 {
            if d.len() < 2 {
                Err(DecodeError::Truncated)
            } else {
                Ok((ChannelCmd::SetVolScale(d[1]), 2))
            }
        } else if op == 0xdf {
            if d.len() < 2 {
                Err(DecodeError::Truncated)
            } else {
                Ok((ChannelCmd::SetVol(d[1]), 2))
            }
        } else if op == 0xde {
            if d.len() < 3 {
                Err(DecodeError::Truncated)
            } else {
                Ok((ChannelCmd::FreqScale(spec_u16_be(d[1], d[2])), 4))
            }
        } else if op == 0xdd {
            if d.len() < 2 {
                Err(DecodeError::Truncated)
            } else {
                Ok((ChannelCmd::SetPan(d[1]), 2))
            }
        } else if op == 0xdc {
            if d.len() < 2 {
                Err(DecodeError::Truncated)
            } else {
                Ok((ChannelCmd::SetPanChanWeight(d[1]), 2))
            }
        } else if op == 0xdb {
            if d.len() < 2 {
                Err(DecodeError::Truncated)
            } else {
                Ok((ChannelCmd::Transpose(spec_i8_of_u8(d[1])), 2))
            }
        } else if op == 0xda {
            if d.len() < 3 {
                Err(DecodeError::Truncated)
            } else {
                Ok((ChannelCmd::SetEnvelope(spec_u16_be(d[1], d[2])), 3))
            }
        } else if op == 0xd9 {
            if d.len() < 2 {
                Err(DecodeError::Truncated)
            } else {
                Ok((ChannelCmd::SetDecayRelease(d[1]), 2))
            }
        } else if op == 0xd8 {
            if d.len() < 2 {
                Err(DecodeError::Truncated)
            } else {
                Ok((ChannelCmd::SetVibratoExtent(d[1]), 2))
            }
        } else if op == 0xd7 {
            if d.len() < 2 {
                Err(DecodeError::Truncated)
            } else {
                Ok((ChannelCmd::SetVibratoRate(d[1]), 2))
            }
        } else if op == 0xd6 {
            if d.len() < 2 {
                Err(DecodeError::Truncated)
            } else {
                Ok((ChannelCmd::SetUpdatesPerFrame(d[1]), 2))
            }
        } else {
            Err(DecodeError::UnknownOpcode(op))
        }
    }
}

/// The channel-tier parameter instructions with opcode bytes `0xc1` to `0xd4`.
pub open spec fn spec_read_chan_params_lo(d: Seq<u8>) -> Result<(ChannelCmd, int), DecodeError>
    recommends
        d.len() >= 1,
{
    {
        let op = d[0];
        if op == 0xd4 {
            if d.len() < 2 {
                Err(DecodeError::Truncated)
            } else {
                Ok((ChannelCmd::SetReverb(d[1]), 2))
            }
        } else if op == 0xd3 {
            if d.len() < 2 {
                Err(DecodeError::Truncated)
            } else {
                Ok((ChannelCmd::PitchBend(spec_i8_of_u8(d[1])), 2))
            }
        } else if op == 0xd2 {
            if d.len() < 2 {
                Err(DecodeError::Truncated)
            } else {
                Ok((ChannelCmd::SetSustain(d[1]), 2))
            }
        } else if op == 0xd1 {
            if d.len() < 2 {
                Err(DecodeError::Truncated)
            } else {
                Ok((ChannelCmd::SetNoteAllocationPolicy(d[1]), 2))
            }
        } else if op == 0xd0 {
            if d.len() < 2 {
                Err(DecodeError::Truncated)
            } else {
                Ok((ChannelCmd::StereoHeadsetEffects(d[1]), 2))
            }
        } else if op == 0xcc {
            if d.len() < 2 {
                Err(DecodeError::Truncated)
            } else {
                Ok((ChannelCmd::SetVal(d[1]), 2))
            }
        } else if op == 0xcb {
            if d.len() < 3 {
                Err(DecodeError::Truncated)
            } else {
                Ok((ChannelCmd::ReadSeq(spec_u16_be(d[1], d[2])), 3))
            }
        } else if op == 0xca {
            if d.len() < 2 {
                Err(DecodeError::Truncated)
            } else {
                Ok((ChannelCmd::SetMuteBhv(d[1]), 2))
            }
        } else if op == 0xc9 {
            if d.len() < 2 {
                Err(DecodeError::Truncated)
            } else {
                Ok((ChannelCmd::BitAnd(d[1]), 2))
            }
        } else if op == 0xc8 {
            if d.len() < 2 {
                Err(DecodeError::Truncated)
            } else {
                Ok((ChannelCmd::Subtract(d[1]), 2))
            }
        } else if op == 0xc7 {
            if d.len() < 4 {
                Err(DecodeError::Truncated)
            } else {
                Ok((ChannelCmd::WriteSeq(d[1], spec_u16_be(d[2], d[3])), 4))
            }
        } else if op == 0xc6 {
            if d.len() < 2 {
                Err(DecodeError::Truncated)
            } else {
                Ok((ChannelCmd::SetBank(d[1]), 2))
            }
        } else if op == 0xc5 {
            Ok((ChannelCmd::DynSetDynTable, 1))
        } else if op == 0xc4 {
            Ok((ChannelCmd::LargeNotesOn, 1))
        } else if op == 0xc3 {
            Ok((ChannelCmd::LargeNotesOff, 1))
        } else if op == 0xc2 {
            if d.len() < 3 {
                Err(DecodeError::Truncated)
            } else {
                Ok((ChannelCmd::SetDynTable(spec_u16_be(d[1], d[2])), 3))
            }
        } else if op == 0xc1 {
            if d.len() < 2 {
                Err(DecodeError::Truncated)
            } else {
                Ok((ChannelCmd::SetInstr(d[1]), 2))
            }
        } else {
            Err(DecodeError::UnknownOpcode(op))
        }
    }
}

/// The channel-tier instructions whose opcode byte is below `0xc1`.
pub open spec fn spec_read_chan_lower(d: Seq<u8>) -> Result<(ChannelCmd, int), DecodeError>
    recommends
        d.len() >= 1,
{
    {
        let op = d[0];
        if 0xb0 <= op && op <= 0xbf {
            Ok((ChannelCmd::DynSetLayer(op & 0x0f), 1))
        } else if 0xa0 <= op && op <= 0xaf {
            Ok((ChannelCmd::FreeLayer(op & 0x0f), 1))
        } else if 0x90 <= op && op <= 0x9f {
            if d.len() < 3 {
                Err(DecodeError::Truncated)
            } else {
                Ok((ChannelCmd::SetLayer(op & 0x0f, spec_u16_be(d[1], d[2])), 3))
            }
        } else if 0x80 <= op && op <= 0x8f {
            Ok((ChannelCmd::IoReadVal(op & 0x0f), 1))
        } else if 0x70 <= op && op <= 0x7f {
            Ok((ChannelCmd::IoWriteVal(op & 0x0f), 1))
        } else if 0x60 <= op && op <= 0x6f {
            Ok((ChannelCmd::SetNotePriority(op & 0x0f), 1))
        } else if 0x50 <= op && op <= 0x5f {
            Ok((ChannelCmd::IoReadValSub(op & 0x0f), 1))
        } else if 0x40 <= op && op <= 0x4f {
            if d.len() < 2 {
                Err(DecodeError::Truncated)
            } else {
                Ok((ChannelCmd::IoReadVal2(op & 0x0f, d[1]), 2))
            }
        } else if 0x30 <= op && op <= 0x3f {
            if d.len() < 2 {
                Err(DecodeError::Truncated)
            } else {
                Ok((ChannelCmd::IoWriteVal2(op & 0x0f, d[1]), 2))
            }
        } else if 0x20 <= op && op <= 0x2f {
            Ok((ChannelCmd::DisableChannel(op & 0x0f), 1))
        } else if 0x10 <= op && op <= 0x1f {
            if d.len() < 3 {
                Err(DecodeError::Truncated)
            } else {
                Ok((ChannelCmd::StartChannel(op & 0x0f, spec_u16_be(d[1], d[2])), 3))
            }
        } else if op <= 0x0f {
            Ok((ChannelCmd::TestLayerFinished(op & 0x0f), 1))
        } else {
            Err(DecodeError::UnknownOpcode(op))
        }
    }
}

impl ChannelCmd {
    /// Decodes the instruction at the start of `data`.
    /// Returns the instruction and the number of bytes consumed.
    pub fn read(data: &[u8]) -> (r: Result<(ChannelCmd, usize), DecodeError>)
        ensures
            match r {
                Ok(ok) => spec_read_chan_cmd(data@) == Ok::<_, DecodeError>((ok.0, ok.1 as int)),
                Err(e) => spec_read_chan_cmd(data@) == Err::<(ChannelCmd, int), _>(e),
            },
    {
        if data.len() < 1 {
            return Err(DecodeError::Truncated);
        }
        if data[0] >= 0xf0 {
            Self::read_ctl(data)
        } else if data[0] >= 0xc1 {
            Self::read_params(data)
        } else {
            Self::read_lower(data)
        }
    }

    /// Decodes the control-flow instructions (opcode byte `0xf0` and above).
    #[verifier::rlimit(50)]
    fn read_ctl(data: &[u8]) -> (r: Result<(ChannelCmd, usize), DecodeError>)
        requires
            data@.len() >= 1,
            data@[0] >= 0xf0,
        ensures
            match r {
                Ok(ok) => spec_read_chan_ctl(data@) == Ok::<_, DecodeError>((ok.0, ok.1 as int)),
                Err(e) => spec_read_chan_ctl(data@) == Err::<(ChannelCmd, int), _>(e),
            },
    {
        let op: u8 = data[0];
        match op {
            0xff => Ok((ChannelCmd::End, 1)),
            0xfe => Ok((ChannelCmd::Delay1, 1)),
            0xfd => {
                if data.len() < 2 || (data[1] & 0x80 != 0 && data.len() < 3) {
                    return Err(DecodeError::Truncated);
                }
                let (v, size) = read_var(&data[1..data.len()]);
                Ok((ChannelCmd::Delay(v), 1 + size))
            },
            0xfc => {
                if data.len() < 3 {
                    return Err(DecodeError::Truncated);
                }
                Ok((ChannelCmd::Call(read_u16_be(&data[1..data.len()])), 3))
            },
            0xfb => {
                if data.len() < 3 {
                    return Err(DecodeError::Truncated);
                }
                Ok((ChannelCmd::Jump(read_u16_be(&data[1..data.len()])), 3))
            },
            0xfa => {
                if data.len() < 3 {
                    return Err(DecodeError::Truncated);
                }
                Ok((ChannelCmd::Beqz(read_u16_be(&data[1..data.len()])), 3))
            },
            0xf9 => {
                if data.len() < 3 {
                    return Err(DecodeError::Truncated);
                }
                Ok((ChannelCmd::Bltz(read_u16_be(&data[1..data.len()])), 3))
            },
            0xf8 => {
                if data.len() < 2 {
                    return Err(DecodeError::Truncated);
                }
                Ok((ChannelCmd::Loop(data[1]), 2))
            },
            0xf7 => Ok((ChannelCmd::LoopEnd, 1)),
            0xf6 => Ok((ChannelCmd::Break, 1)),
            0xf5 => {
                if data.len() < 3 {
                    return Err(DecodeError::Truncated);
                }
                Ok((ChannelCmd::Bgez(read_u16_be(&data[1..data.len()])), 3))
            },
            0xf3 => Ok((ChannelCmd::Hang, 1)),
            0xf2 => {
                if data.len() < 2 {
                    return Err(DecodeError::Truncated);
                }
                Ok((ChannelCmd::ReserveNotes(data[1]), 2))
            },
            0xf1 => Ok((ChannelCmd::UnReserveNotes, 1)),
            _ => Err(DecodeError::UnknownOpcode(op)),
        }
    }

    /// Decodes the parameter instructions (opcode bytes `0xc1` to `0xef`).
    fn read_params(data: &[u8]) -> (r: Result<(ChannelCmd, usize), DecodeError>)
        requires
            data@.len() >= 1,
            0xc1 <= data@[0] < 0xf0,
        ensures
            match r {
                Ok(ok) => spec_read_chan_params(data@) == Ok::<_, DecodeError>(
                    (ok.0, ok.1 as int),
                ),
                Err(e) => spec_read_chan_params(data@) == Err::<(ChannelCmd, int), _>(e),
            },
    {
        if data[0] >= 0xd5 {
            Self::read_params_hi(data)
        } else {
            Self::read_params_lo(data)
        }
    }

    /// Decodes the parameter instructions with opcode bytes `0xd5` to `0xef`.
    #[verifier::rlimit(50)]
    fn read_params_hi(data: &[u8]) -> (r: Result<(ChannelCmd, usize), DecodeError>)
        requires
            data@.len() >= 1,
            0xd5 <= data@[0] < 0xf0,
        ensures
            match r {
                Ok(ok) => spec_read_chan_params_hi(data@) == Ok::<_, DecodeError>(
                    (ok.0, ok.1 as int),
                ),
                Err(e) => spec_read_chan_params_hi(data@) == Err::<(ChannelCmd, int), _>(e),
            },
    {
        let op: u8 = data[0];
        match op {
            0xe4 => Ok((ChannelCmd::DynCall, 1)),
            0xe3 => {
                if data.len() < 2 {
                    return Err(DecodeError::Truncated);
                }
                Ok((ChannelCmd::SetVibratoDelay(data[1]), 1))
            },
            0xe2 => {
                if data.len() < 4 {
                    return Err(DecodeError::Truncated);
                }
                Ok((ChannelCmd::SetVibratoExtentLinear(data[1], data[2], data[3]), 4))
            },
            0xe1 => {
                if data.len() < 4 {
                    return Err(DecodeError::Truncated);
                }
                Ok((ChannelCmd::SetVibratoRateLinear(data[1], data[2], data[3]), 4))
            },
            0xe0 => {
                if data.len() < 2 {
                    return Err(DecodeError::Truncated);
                }
                Ok((ChannelCmd::SetVolScale(data[1]), 2))
            },
            0xdf => {
                if data.len() < 2 {
                    return Err(DecodeError::Truncated);
                }
                Ok((ChannelCmd::SetVol(data[1]), 2))
            },
            0xde => {
                if data.len() < 3 {
                    return Err(DecodeError::Truncated);
                }
                Ok((ChannelCmd::FreqScale(read_u16_be(&data[1..data.len()])), 4))
            },
            0xdd => {
                if data.len() < 2 {
                    return Err(DecodeError::Truncated);
                }
                Ok((ChannelCmd::SetPan(data[1]), 2))
            },
            0xdc => {
                if data.len() < 2 {
                    return Err(DecodeError::Truncated);
                }
                Ok((ChannelCmd::SetPanChanWeight(data[1]), 2))
            },
            0xdb => {
                if data.len() < 2 {
                    return Err(DecodeError::Truncated);
                }
                Ok((ChannelCmd::Transpose(i8_of_u8(data[1])), 2))
            },
            0xda => {
                if data.len() < 3 {
                    return Err(DecodeError::Truncated);
                }
                Ok((ChannelCmd::SetEnvelope(read_u16_be(&data[1..data.len()])), 3))
            },
            0xd9 => {
                if data.len() < 2 {
                    return Err(DecodeError::Truncated);
                }
                Ok((ChannelCmd::SetDecayRelease(data[1]), 2))
            },
            0xd8 => {
                if data.len() < 2 {
                    return Err(DecodeError::Truncated);
                }
                Ok((ChannelCmd::SetVibratoExtent(data[1]), 2))
            },
            0xd7 => {
                if data.len() < 2 {
                    return Err(DecodeError::Truncated);
                }
                Ok((ChannelCmd::SetVibratoRate(data[1]), 2))
            },
            0xd6 => {
                if data.len() < 2 {
                    return Err(DecodeError::Truncated);
                }
                Ok((ChannelCmd::SetUpdatesPerFrame(data[1]), 2))
            },
            _ => Err(DecodeError::UnknownOpcode(op)),
        }
    }

    /// Decodes the parameter instructions with opcode bytes `0xc1` to `0xd4`.
    #[verifier::rlimit(50)]
    fn read_params_lo(data: &[u8]) -> (r: Result<(ChannelCmd, usize), DecodeError>)
        requires
            data@.len() >= 1,
            0xc1 <= data@[0] < 0xd5,
        ensures
            match r {
                Ok(ok) => spec_read_chan_params_lo(data@) == Ok::<_, DecodeError>(
                    (ok.0, ok.1 as int),
                ),
                Err(e) => spec_read_chan_params_lo(data@) == Err::<(ChannelCmd, int), _>(e),
            },
    {
        let op: u8 = data[0];
        match op {
            0xd4 => {
                if data.len() < 2 {
                    return Err(DecodeError::Truncated);
                }
                Ok((ChannelCmd::SetReverb(data[1]), 2))
            },
            0xd3 => {
                if data.len() < 2 {
                    return Err(DecodeError::Truncated);
                }
                Ok((ChannelCmd::PitchBend(i8_of_u8(data[1])), 2))
            },
            0xd2 => {
                if data.len() < 2 {
                    return Err(DecodeError::Truncated);
                }
                Ok((ChannelCmd::SetSustain(data[1]), 2))
            },
            0xd1 => {
                if data.len() < 2 {
                    return Err(DecodeError::Truncated);
                }
                Ok((ChannelCmd::SetNoteAllocationPolicy(data[1]), 2))
            },
            0xd0 => {
                if data.len() < 2 {
                    return Err(DecodeError::Truncated);
                }
                Ok((ChannelCmd::StereoHeadsetEffects(data[1]), 2))
            },
            0xcc => {
                if data.len() < 2 {
                    return Err(DecodeError::Truncated);
                }
                Ok((ChannelCmd::SetVal(data[1]), 2))
            },
            0xcb => {
                if data.len() < 3 {
                    return Err(DecodeError::Truncated);
                }
                Ok((ChannelCmd::ReadSeq(read_u16_be(&data[1..data.len()])), 3))
            },
            0xca => {
                if data.len() < 2 {
                    return Err(DecodeError::Truncated);
                }
                Ok((ChannelCmd::SetMuteBhv(data[1]), 2))
            },
            0xc9 => {
                if data.len() < 2 {
                    return Err(DecodeError::Truncated);
                }
                Ok((ChannelCmd::BitAnd(data[1]), 2))
            },
            0xc8 => {
                if data.len() < 2 {
                    return Err(DecodeError::Truncated);
                }
                Ok((ChannelCmd::Subtract(data[1]), 2))
            },
            0xc7 => {
                if data.len() < 4 {
                    return Err(DecodeError::Truncated);
                }
                Ok((ChannelCmd::WriteSeq(data[1], read_u16_be(&data[2..data.len()])), 4))
            },
            0xc6 => {
                if data.len() < 2 {
                    return Err(DecodeError::Truncated);
                }
                Ok((ChannelCmd::SetBank(data[1]), 2))
            },
            0xc5 => Ok((ChannelCmd::DynSetDynTable, 1)),
            0xc4 => Ok((ChannelCmd::LargeNotesOn, 1)),
            0xc3 => Ok((ChannelCmd::LargeNotesOff, 1)),
            0xc2 => {
                if data.len() < 3 {
                    return Err(DecodeError::Truncated);
                }
                Ok((ChannelCmd::SetDynTable(read_u16_be(&data[1..data.len()])), 3))
            },
            0xc1 => {
                if data.len() < 2 {
                    return Err(DecodeError::Truncated);
                }
                Ok((ChannelCmd::SetInstr(data[1]), 2))
            },
            _ => Err(DecodeError::UnknownOpcode(op)),
        }
    }

    /// Decodes the instructions whose opcode byte is below `0xc1`.
    #[verifier::rlimit(100)]
    fn read_lower(data: &[u8]) -> (r: Result<(ChannelCmd, usize), DecodeError>)
        requires
            data@.len() >= 1,
            data@[0] < 0xc1,
        ensures
            match r {
                Ok(ok) => spec_read_chan_lower(data@) == Ok::<_, DecodeError>((ok.0, ok.1 as int)),
                Err(e) => spec_read_chan_lower(data@) == Err::<(ChannelCmd, int), _>(e),
            },
    {
        let op: u8 = data[0];
        match op {
            0xb0..=0xbf => Ok((ChannelCmd::DynSetLayer(op & 0x0f), 1)),
            0xa0..=0xaf => Ok((ChannelCmd::FreeLayer(op & 0x0f), 1)),
            0x90..=0x9f => {
                if data.len() < 3 {
                    return Err(DecodeError::Truncated);
                }
                Ok((ChannelCmd::SetLayer(op & 0x0f, read_u16_be(&data[1..data.len()])), 3))
            },
            0x80..=0x8f => Ok((ChannelCmd::IoReadVal(op & 0x0f), 1)),
            0x70..=0x7f => Ok((ChannelCmd::IoWriteVal(op & 0x0f), 1)),
            0x60..=0x6f => Ok((ChannelCmd::SetNotePriority(op & 0x0f), 1)),
            0x50..=0x5f => Ok((ChannelCmd::IoReadValSub(op & 0x0f), 1)),
            0x40..=0x4f => {
                if data.len() < 2 {
                    return Err(DecodeError::Truncated);
                }
                Ok((ChannelCmd::IoReadVal2(op & 0x0f, data[1]), 2))
            },
            0x30..=0x3f => {
                if data.len() < 2 {
                    return Err(DecodeError::Truncated);
                }
                Ok((ChannelCmd::IoWriteVal2(op & 0x0f, data[1]), 2))
            },
            0x20..=0x2f => Ok((ChannelCmd::DisableChannel(op & 0x0f), 1)),
            0x10..=0x1f => {
                if data.len() < 3 {
                    return Err(DecodeError::Truncated);
                }
                Ok((ChannelCmd::StartChannel(op & 0x0f, read_u16_be(&data[1..data.len()])), 3))
            },
            0x00..=0x0f => Ok((ChannelCmd::TestLayerFinished(op & 0x0f), 1)),
            _ => Err(DecodeError::UnknownOpcode(op)),
        }
    }

    /// Whether this is the script-terminating instruction.
    pub fn is_end(&self) -> (r: bool)
        ensures
            r == (*self is End),
    {
        if let ChannelCmd::End = self {
            true
        } else {
            false
        }
    }

    /// Encodes the instruction in its canonical byte form.
    #[verifier::rlimit(100)]
    pub fn encode(&self) -> (r: Vec<u8>)
        requires
            chan_cmd_wf(*self),
        ensures
            r@ == spec_encode_chan_cmd(*self),
    {
        let mut out: Vec<u8> = Vec::new();
        match *self {
            ChannelCmd::End => out.push(0xff),
            ChannelCmd::Delay1 => out.push(0xfe),
            ChannelCmd::Delay(v) => {
                out.push(0xfd);
                push_var(&mut out, v);
            },
            ChannelCmd::Call(a) => {
                out.push(0xfc);
                push_u16_be(&mut out, a);
            },
            ChannelCmd::Jump(a) => {
                out.push(0xfb);
                push_u16_be(&mut out, a);
            },
            ChannelCmd::Beqz(a) => {
                out.push(0xfa);
                push_u16_be(&mut out, a);
            },
            ChannelCmd::Bltz(a) => {
                out.push(0xf9);
                push_u16_be(&mut out, a);
            },
            ChannelCmd::Loop(n) => {
                out.push(0xf8);
                out.push(n);
            },
            ChannelCmd::LoopEnd => out.push(0xf7),
            ChannelCmd::Break => out.push(0xf6),
            ChannelCmd::Bgez(a) => {
                out.push(0xf5);
                push_u16_be(&mut out, a);
            },
            ChannelCmd::Hang => out.push(0xf3),
            ChannelCmd::ReserveNotes(n) => {
                out.push(0xf2);
                out.push(n);
            },
            ChannelCmd::UnReserveNotes => out.push(0xf1),
            ChannelCmd::DynCall => out.push(0xe4),
            ChannelCmd::SetVibratoDelay(x) => {
                out.push(0xe3);
                out.push(x);
            },
            ChannelCmd::SetVibratoExtentLinear(x, y, z) => {
                out.push(0xe2);
                out.push(x);
                out.push(y);
                out.push(z);
            },
            ChannelCmd::SetVibratoRateLinear(x, y, z) => {
                out.push(0xe1);
                out.push(x);
                out.push(y);
                out.push(z);
            },
            ChannelCmd::SetVolScale(v) => {
                out.push(0xe0);
                out.push(v);
            },
            ChannelCmd::SetVol(v) => {
                out.push(0xdf);
                out.push(v);
            },
            ChannelCmd::FreqScale(v) => {
                out.push(0xde);
                push_u16_be(&mut out, v);
                out.push(0);
            },
            ChannelCmd::SetPan(p) => {
                out.push(0xdd);
                out.push(p);
            },
            ChannelCmd::SetPanChanWeight(w) => {
                out.push(0xdc);
                out.push(w);
            },
            ChannelCmd::Transpose(t) => {
                out.push(0xdb);
                out.push(u8_of_i8(t));
            },
            ChannelCmd::SetEnvelope(a) => {
                out.push(0xda);
                push_u16_be(&mut out, a);
            },
            ChannelCmd::SetDecayRelease(v) => {
                out.push(0xd9);
                out.push(v);
            },
            ChannelCmd::SetVibratoExtent(v) => {
                out.push(0xd8);
                out.push(v);
            },
            ChannelCmd::SetVibratoRate(v) => {
                out.push(0xd7);
                out.push(v);
            },
            ChannelCmd::SetUpdatesPerFrame(v) => {
                out.push(0xd6);
                out.push(v);
            },
            ChannelCmd::SetReverb(v) => {
                out.push(0xd4);
                out.push(v);
            },
            ChannelCmd::PitchBend(v) => {
                out.push(0xd3);
                out.push(u8_of_i8(v));
            },
            ChannelCmd::SetSustain(v) => {
                out.push(0xd2);
                out.push(v);
            },
            ChannelCmd::SetNoteAllocationPolicy(p) => {
                out.push(0xd1);
                out.push(p);
            },
            ChannelCmd::StereoHeadsetEffects(v) => {
                out.push(0xd0);
                out.push(v);
            },
            ChannelCmd::SetVal(v) => {
                out.push(0xcc);
                out.push(v);
            },
            ChannelCmd::ReadSeq(a) => {
                out.push(0xcb);
                push_u16_be(&mut out, a);
            },
            ChannelCmd::SetMuteBhv(b) => {
                out.push(0xca);
                out.push(b);
            },
            ChannelCmd::BitAnd(v) => {
                out.push(0xc9);
                out.push(v);
            },
            ChannelCmd::Subtract(v) => {
                out.push(0xc8);
                out.push(v);
            },
            ChannelCmd::WriteSeq(x, a) => {
                out.push(0xc7);
                out.push(x);
                push_u16_be(&mut out, a);
            },
            ChannelCmd::SetBank(b) => {
                out.push(0xc6);
                out.push(b);
            },
            ChannelCmd::DynSetDynTable => out.push(0xc5),
            ChannelCmd::LargeNotesOn => out.push(0xc4),
            ChannelCmd::LargeNotesOff => out.push(0xc3),
            ChannelCmd::SetDynTable(a) => {
                out.push(0xc2);
                push_u16_be(&mut out, a);
            },
            ChannelCmd::SetInstr(i) => {
                out.push(0xc1);
                out.push(i);
            },
            ChannelCmd::DynSetLayer(n) => out.push(0xb0 | n),
            ChannelCmd::FreeLayer(n) => out.push(0xa0 | n),
            ChannelCmd::SetLayer(n, a) => {
                out.push(0x90 | n);
                push_u16_be(&mut out, a);
            },
            ChannelCmd::IoReadVal(n) => out.push(0x80 | n),
            ChannelCmd::IoWriteVal(n) => out.push(0x70 | n),
            ChannelCmd::SetNotePriority(n) => out.push(0x60 | n),
            ChannelCmd::IoReadValSub(n) => out.push(0x50 | n),
            ChannelCmd::IoReadVal2(n, x) => {
                out.push(0x40 | n);
                out.push(x);
            },
            ChannelCmd::IoWriteVal2(n, x) => {
                out.push(0x30 | n);
                out.push(x);
            },
            ChannelCmd::DisableChannel(n) => out.push(0x20 | n),
            ChannelCmd::StartChannel(n, a) => {
                out.push(0x10 | n);
                push_u16_be(&mut out, a);
            },
            ChannelCmd::TestLayerFinished(n) => out.push(n),
        }
        assert(out@ =~= spec_encode_chan_cmd(*self));
        out
    }
}

/// Which channel-tier instructions the canonical encoder can represent:
/// operands must fit their byte form.
pub open spec fn chan_cmd_wf(c: ChannelCmd) -> bool {
    match c {
        ChannelCmd::Delay(v) => v <= 0x7fff,
        ChannelCmd::DynSetLayer(n) => n <= 0x0f,
        ChannelCmd::FreeLayer(n) => n <= 0x0f,
        ChannelCmd::SetLayer(n, _) => n <= 0x0f,
        ChannelCmd::IoReadVal(n) => n <= 0x0f,
        ChannelCmd::IoWriteVal(n) => n <= 0x0f,
        ChannelCmd::SetNotePriority(n) => n <= 0x0f,
        ChannelCmd::IoReadValSub(n) => n <= 0x0f,
        ChannelCmd::IoReadVal2(n, _) => n <= 0x0f,
        ChannelCmd::IoWriteVal2(n, _) => n <= 0x0f,
        ChannelCmd::DisableChannel(n) => n <= 0x0f,
        ChannelCmd::StartChannel(n, _) => n <= 0x0f,
        ChannelCmd::TestLayerFinished(n) => n <= 0x0f,
        _ => true,
    }
}

/// Canonical byte form of a channel-tier instruction. The frequency-scale
/// instruction carries a padding byte, since its decoding consumes four.
pub open spec fn spec_encode_chan_cmd(c: ChannelCmd) -> Seq<u8> {
    match c {
        ChannelCmd::End => seq![0xffu8],
        ChannelCmd::Delay1 => seq![0xfeu8],
        ChannelCmd::Delay(v) => seq![0xfdu8] + spec_encode_var(v),
        ChannelCmd::Call(a) => seq![0xfcu8, (a / 0x100) as u8, (a % 0x100) as u8],
        ChannelCmd::Jump(a) => seq![0xfbu8, (a / 0x100) as u8, (a % 0x100) as u8],
        ChannelCmd::Beqz(a) => seq![0xfau8, (a / 0x100) as u8, (a % 0x100) as u8],
        ChannelCmd::Bltz(a) => seq![0xf9u8, (a / 0x100) as u8, (a % 0x100) as u8],
        ChannelCmd::Loop(n) => seq![0xf8u8, n],
        ChannelCmd::LoopEnd => seq![0xf7u8],
        ChannelCmd::Break => seq![0xf6u8],
        ChannelCmd::Bgez(a) => seq![0xf5u8, (a / 0x100) as u8, (a % 0x100) as u8],
        ChannelCmd::Hang => seq![0xf3u8],
        ChannelCmd::ReserveNotes(n) => seq![0xf2u8, n],
        ChannelCmd::UnReserveNotes => seq![0xf1u8],
        ChannelCmd::DynCall => seq![0xe4u8],
        ChannelCmd::SetVibratoDelay(x) => seq![0xe3u8, x],
        ChannelCmd::SetVibratoExtentLinear(x, y, z) => seq![0xe2u8, x, y, z],
        ChannelCmd::SetVibratoRateLinear(x, y, z) => seq![0xe1u8, x, y, z],
        ChannelCmd::SetVolScale(v) => seq![0xe0u8, v],
        ChannelCmd::SetVol(v) => seq![0xdfu8, v],
        ChannelCmd::FreqScale(v) => seq![0xdeu8, (v / 0x100) as u8, (v % 0x100) as u8, 0u8],
        ChannelCmd::SetPan(p) => seq![0xddu8, p],
        ChannelCmd::SetPanChanWeight(w) => seq![0xdcu8, w],
        ChannelCmd::Transpose(t) => seq![0xdbu8, spec_u8_of_i8(t)],
        ChannelCmd::SetEnvelope(a) => seq![0xdau8, (a / 0x100) as u8, (a % 0x100) as u8],
        ChannelCmd::SetDecayRelease(v) => seq![0xd9u8, v],
        ChannelCmd::SetVibratoExtent(v) => seq![0xd8u8, v],
        ChannelCmd::SetVibratoRate(v) => seq![0xd7u8, v],
        ChannelCmd::SetUpdatesPerFrame(v) => seq![0xd6u8, v],
        ChannelCmd::SetReverb(v) => seq![0xd4u8, v],
        ChannelCmd::PitchBend(v) => seq![0xd3u8, spec_u8_of_i8(v)],
        ChannelCmd::SetSustain(v) => seq![0xd2u8, v],
        ChannelCmd::SetNoteAllocationPolicy(p) => seq![0xd1u8, p],
        ChannelCmd::StereoHeadsetEffects(v) => seq![0xd0u8, v],
        ChannelCmd::SetVal(v) => seq![0xccu8, v],
        ChannelCmd::ReadSeq(a) => seq![0xcbu8, (a / 0x100) as u8, (a % 0x100) as u8],
        ChannelCmd::SetMuteBhv(b) => seq![0xcau8, b],
        ChannelCmd::BitAnd(v) => seq![0xc9u8, v],
        ChannelCmd::Subtract(v) => seq![0xc8u8, v],
        ChannelCmd::WriteSeq(x, a) => seq![0xc7u8, x, (a / 0x100) as u8, (a % 0x100) as u8],
        ChannelCmd::SetBank(b) => seq![0xc6u8, b],
        ChannelCmd::DynSetDynTable => seq![0xc5u8],
        ChannelCmd::LargeNotesOn => seq![0xc4u8],
        ChannelCmd::LargeNotesOff => seq![0xc3u8],
        ChannelCmd::SetDynTable(a) => seq![0xc2u8, (a / 0x100) as u8, (a % 0x100) as u8],
        ChannelCmd::SetInstr(i) => seq![0xc1u8, i],
        ChannelCmd::DynSetLayer(n) => seq![0xb0u8 | n],
        ChannelCmd::FreeLayer(n) => seq![0xa0u8 | n],
        ChannelCmd::SetLayer(n, a) => seq![0x90u8 | n, (a / 0x100) as u8, (a % 0x100) as u8],
        ChannelCmd::IoReadVal(n) => seq![0x80u8 | n],
        ChannelCmd::IoWriteVal(n) => seq![0x70u8 | n],
        ChannelCmd::SetNotePriority(n) => seq![0x60u8 | n],
        ChannelCmd::IoReadValSub(n) => seq![0x50u8 | n],
        ChannelCmd::IoReadVal2(n, x) => seq![0x40u8 | n, x],
        ChannelCmd::IoWriteVal2(n, x) => seq![0x30u8 | n, x],
        ChannelCmd::DisableChannel(n) => seq![0x20u8 | n],
        ChannelCmd::StartChannel(n, a) => seq![0x10u8 | n, (a / 0x100) as u8, (a % 0x100) as u8],
        ChannelCmd::TestLayerFinished(n) => seq![n],
    }
}

/// How many bytes decoding the canonical form of `c` consumes. The
/// vibrato-delay quirk consumes only the opcode byte.
pub open spec fn chan_cmd_read_len(c: ChannelCmd) -> int {
    if c is SetVibratoDelay {
        1
    } else {
        spec_encode_chan_cmd(c).len() as int
    }
}

/// Decoding a canonically encoded channel-tier instruction yields the
/// instruction back, consuming its bytes as `chan_cmd_read_len` says.
#[verifier::rlimit(100)]
pub proof fn lemma_chan_cmd_roundtrip(c: ChannelCmd)
    requires
        chan_cmd_wf(c),
    ensures
        spec_read_chan_cmd(spec_encode_chan_cmd(c)) == Ok::<_, DecodeError>(
            (c, chan_cmd_read_len(c)),
        ),
{
    let d = spec_encode_chan_cmd(c);
    match c {
        ChannelCmd::Delay(v) => {
            assert(d[0] == 0xfd);
            assert(d.len() == 1 + spec_encode_var(v).len());
            if v >= 0x80 {
                lemma_var_bytes(v);
                assert(d[1] == (v / 0x100) as u8 | 0x80);
                assert(d[2] == (v % 0x100) as u8);
                assert(spec_read_var_at(d, 1) == Some((v, 2int)));
            } else {
                let b: u8 = v as u8;
                assert(b & 0x80 == 0) by (bit_vector)
                    requires
                        b == v as u8,
                        v < 0x80,
                ;
                assert(d[1] == b);
            }
        },
        ChannelCmd::DynSetLayer(n) => {
            assert(0xb0u8 & 0x0f == 0 && (0xb0u8 | 0x0f) == 0xbf) by (bit_vector);
            lemma_nibble_or(0xb0, n);
        },
        ChannelCmd::FreeLayer(n) => {
            assert(0xa0u8 & 0x0f == 0 && (0xa0u8 | 0x0f) == 0xaf) by (bit_vector);
            lemma_nibble_or(0xa0, n);
        },
        ChannelCmd::SetLayer(n, a) => {
            assert(0x90u8 & 0x0f == 0 && (0x90u8 | 0x0f) == 0x9f) by (bit_vector);
            lemma_nibble_or(0x90, n);
        },
        ChannelCmd::IoReadVal(n) => {
            assert(0x80u8 & 0x0f == 0 && (0x80u8 | 0x0f) == 0x8f) by (bit_vector);
            lemma_nibble_or(0x80, n);
        },
        ChannelCmd::IoWriteVal(n) => {
            assert(0x70u8 & 0x0f == 0 && (0x70u8 | 0x0f) == 0x7f) by (bit_vector);
            lemma_nibble_or(0x70, n);
        },
        ChannelCmd::SetNotePriority(n) => {
            assert(0x60u8 & 0x0f == 0 && (0x60u8 | 0x0f) == 0x6f) by (bit_vector);
            lemma_nibble_or(0x60, n);
        },
        ChannelCmd::IoReadValSub(n) => {
            assert(0x50u8 & 0x0f == 0 && (0x50u8 | 0x0f) == 0x5f) by (bit_vector);
            lemma_nibble_or(0x50, n);
        },
        ChannelCmd::IoReadVal2(n, x) => {
            assert(0x40u8 & 0x0f == 0 && (0x40u8 | 0x0f) == 0x4f) by (bit_vector);
            lemma_nibble_or(0x40, n);
        },
        ChannelCmd::IoWriteVal2(n, x) => {
            assert(0x30u8 & 0x0f == 0 && (0x30u8 | 0x0f) == 0x3f) by (bit_vector);
            lemma_nibble_or(0x30, n);
        },
        ChannelCmd::DisableChannel(n) => {
            assert(0x20u8 & 0x0f == 0 && (0x20u8 | 0x0f) == 0x2f) by (bit_vector);
            lemma_nibble_or(0x20, n);
        },
        ChannelCmd::StartChannel(n, a) => {
            assert(0x10u8 & 0x0f == 0 && (0x10u8 | 0x0f) == 0x1f) by (bit_vector);
            lemma_nibble_or(0x10, n);
        },
        ChannelCmd::TestLayerFinished(n) => {
            assert(0x00u8 & 0x0f == 0) by (bit_vector);
            lemma_nibble_or(0x00, n);
            assert((0x00u8 | n) == n) by (bit_vector);
        },
        _ => {},
    }
}

} // verus!
