//! The individual chunk parsers: common, sound data, markers, instrument.

use vstd::prelude::*;

use crate::aiff::error::AiffError;
use crate::aiff::types::{read_pstring, spec_read_pstring};
use crate::bytes::{
    read_i16_be, read_u16_be, read_u32_be, read_u64_be, spec_i16_of_u16, spec_u16_be, spec_u32_be,
    spec_u64_be,
};

verus! {

/// An 80-bit extended-precision number as its raw fields: the sign and
/// exponent word, and the mantissa. The host converts it to its own
/// floating-point type; the reader only carries it.
#[derive(Debug, Clone, Copy, PartialEq, Eq, Structural)]
pub struct Extended80 {
    /// Sign bit and 15-bit biased exponent.
    pub sign_and_exponent: u16,
    /// 64-bit mantissa with an explicit integer bit.
    pub mantissa: u64,
}

/// The common chunk: channel count, frame count, sample width, and the
/// sample rate in its raw 80-bit form.
#[derive(Debug, Clone, Copy, PartialEq, Eq, Structural)]
pub struct CommonChunk {
    /// Number of interleaved channels.
    pub num_channels: u16,
    /// Number of sample frames.
    pub num_sample_frames: u32,
    /// Bits per sample (1..=32).
    pub sample_size: u16,
    /// Sample rate, in the container's raw 80-bit form.
    pub sample_rate: Extended80,
}

/// What parsing a common chunk yields: exactly 18 bytes, read big-endian.
pub open spec fn spec_read_common(d: Seq<u8>) -> Result<CommonChunk, AiffError> {
    if d.len() != 18 {
        Err(AiffError::InvalidFormat)
    } else {
        Ok(
            CommonChunk {
                num_channels: spec_u16_be(d[0], d[1]),
                num_sample_frames: spec_u32_be(d[2], d[3], d[4], d[5]),
                sample_size: spec_u16_be(d[6], d[7]),
                sample_rate: Extended80 {
                    sign_and_exponent: spec_u16_be(d[8], d[9]),
                    mantissa: spec_u64_be(d.subrange(10, 18)),
                },
            },
        )
    }
}

impl CommonChunk {
    /// Parses a common chunk from its contents.
    pub fn read(data: &[u8]) -> (r: Result<CommonChunk, AiffError>)
        ensures
            match r {
                Ok(c) => spec_read_common(data@) == Ok::<_, AiffError>(c),
                Err(e) => spec_read_common(data@) == Err::<CommonChunk, _>(e),
            },
    {
        if data.len() != 18 {
            return Err(AiffError::InvalidFormat);
        }
        let r = CommonChunk {
            num_channels: read_u16_be(data),
            num_sample_frames: read_u32_be(&data[2..data.len()]),
            sample_size: read_u16_be(&data[6..data.len()]),
            sample_rate: Extended80 {
                sign_and_exponent: read_u16_be(&data[8..data.len()]),
                mantissa: read_u64_be(&data[10..data.len()]),
            },
        };
        proof {
            assert(data@.subrange(10, 18) =~= data@.subrange(10, data@.len() as int).subrange(
                0,
                8,
            ));
        }
        Ok(r)
    }
}

/// Mathematical image of a sound-data chunk: its sample bytes.
pub struct SoundDataChunk<'a> {
    data: &'a [u8],
}

impl<'a> View for SoundDataChunk<'a> {
    type V = Seq<u8>;

    closed spec fn view(&self) -> Seq<u8> {
        self.data@
    }
}

/// What parsing a sound-data chunk yields: the bytes past the eight-byte
/// header, whose offset and block size must both be zero.
pub open spec fn spec_read_sound_data(d: Seq<u8>) -> Result<Seq<u8>, AiffError> {
    if d.len() < 8 {
        Err(AiffError::InvalidFormat)
    } else if spec_u32_be(d[0], d[1], d[2], d[3]) != 0 {
        Err(AiffError::InvalidFormat)
    } else if spec_u32_be(d[4], d[5], d[6], d[7]) != 0 {
        Err(AiffError::InvalidFormat)
    } else {
        Ok(d.subrange(8, d.len() as int))
    }
}

impl<'a> SoundDataChunk<'a> {
    /// Parses a sound-data chunk from its contents. A nonzero offset or
    /// block size is rejected rather than interpreted.
    pub fn read(data: &'a [u8]) -> (r: Result<SoundDataChunk<'a>, AiffError>)
        ensures
            match r {
                Ok(s) => spec_read_sound_data(data@) == Ok::<_, AiffError>(s@),
                Err(e) => spec_read_sound_data(data@) == Err::<Seq<u8>, _>(e),
            },
    {
        if data.len() < 8 {
            return Err(AiffError::InvalidFormat);
        }
        let offset: u32 = read_u32_be(data);
        if offset != 0 {
            return Err(AiffError::InvalidFormat);
        }
        let block_size: u32 = read_u32_be(&data[4..data.len()]);
        if block_size != 0 {
            return Err(AiffError::InvalidFormat);
        }
        Ok(SoundDataChunk { data: &data[8..data.len()] })
    }

    /// The raw sample bytes.
    pub fn raw_data(&self) -> (r: &'a [u8])
        ensures
            r@ == self@,
    {
        self.data
    }
}

/// Mathematical image of a marker.
pub struct MarkerV {
    pub id: u16,
    pub position: u32,
    pub name: Seq<char>,
}

/// One marker: a numbered position in the sample data with a name.
pub struct Marker {
    /// The marker's number, as loop descriptors refer to it.
    pub id: u16,
    /// Position in sample frames.
    pub position: u32,
    /// The marker's name.
    pub name: String,
}

impl View for Marker {
    type V = MarkerV;

    open spec fn view(&self) -> MarkerV {
        MarkerV { id: self.id, position: self.position, name: self.name@ }
    }
}

/// What parsing one marker from the start of `d` yields: the marker and
/// the bytes consumed.
pub open spec fn spec_read_marker(d: Seq<u8>) -> Result<(MarkerV, int), AiffError> {
    if d.len() < 6 {
        Err(AiffError::InvalidFormat)
    } else {
        match spec_read_pstring(d.subrange(6, d.len() as int)) {
            Err(e) => Err(e),
            Ok(s) => Ok(
                (
                    MarkerV {
                        id: spec_u16_be(d[0], d[1]),
                        position: spec_u32_be(d[2], d[3], d[4], d[5]),
                        name: s.0,
                    },
                    6 + s.1,
                ),
            ),
        }
    }
}

impl Marker {
    /// Parses one marker from the start of `data`.
    /// Returns the marker and the number of bytes consumed.
    pub fn read(data: &[u8]) -> (r: Result<(Marker, usize), AiffError>)
        ensures
            match r {
                Ok(ok) => spec_read_marker(data@) == Ok::<_, AiffError>((ok.0@, ok.1 as int)),
                Err(e) => spec_read_marker(data@) == Err::<(MarkerV, int), _>(e),
            },
    {
        if data.len() < 6 {
            return Err(AiffError::InvalidFormat);
        }
        let id: u16 = read_u16_be(data);
        let position: u32 = read_u32_be(&data[2..data.len()]);
        let (name, n) = match read_pstring(&data[6..data.len()]) {
            Ok(ok) => ok,
            Err(e) => {
                return Err(e);
            },
        };
        Ok((Marker { id, position, name }, 6 + n))
    }
}

/// The marker chunk: a counted list of markers.
pub struct MarkerChunk {
    /// The markers, in order of appearance.
    pub markers: Vec<Marker>,
}

impl View for MarkerChunk {
    type V = Seq<MarkerV>;

    open spec fn view(&self) -> Seq<MarkerV> {
        Seq::new(self.markers@.len(), |i: int| self.markers@[i]@)
    }
}

/// What parsing `n` markers from `d` yields: the markers, in order.
pub open spec fn spec_read_markers(d: Seq<u8>, n: int) -> Result<Seq<MarkerV>, AiffError>
    decreases n,
{
    if n <= 0 {
        Ok(Seq::empty())
    } else {
        match spec_read_marker(d) {
            Err(e) => Err(e),
            Ok(m) => match spec_read_markers(d.subrange(m.1, d.len() as int), n - 1) {
                Err(e) => Err(e),
                Ok(tail) => Ok(seq![m.0] + tail),
            },
        }
    }
}

/// What parsing a marker chunk yields: its counted list of markers.
pub open spec fn spec_read_marker_chunk(d: Seq<u8>) -> Result<Seq<MarkerV>, AiffError> {
    if d.len() < 2 {
        Err(AiffError::InvalidFormat)
    } else {
        spec_read_markers(d.subrange(2, d.len() as int), spec_u16_be(d[0], d[1]) as int)
    }
}

impl MarkerChunk {
    /// Parses a marker chunk from its contents.
    pub fn read(data: &[u8]) -> (r: Result<MarkerChunk, AiffError>)
        ensures
            match r {
                Ok(m) => spec_read_marker_chunk(data@) == Ok::<_, AiffError>(m@),
                Err(e) => spec_read_marker_chunk(data@) == Err::<Seq<MarkerV>, _>(e),
            },
    {
        if data.len() < 2 {
            return Err(AiffError::InvalidFormat);
        }
        let num_markers: u16 = read_u16_be(data);
        let mut markers: Vec<Marker> = Vec::new();
        let mut rest: &[u8] = &data[2..data.len()];
        let mut left: u16 = num_markers;
        let ghost d0 = rest@;
        loop
            invariant_except_break
                left <= num_markers,
                spec_read_markers(d0, num_markers as int) == (match spec_read_markers(
                    rest@,
                    left as int,
                ) {
                    Err(e) => Err(e),
                    Ok(tail) => Ok(Seq::new(markers@.len(), |i: int| markers@[i]@) + tail),
                }),
            invariant
                spec_read_marker_chunk(data@) == spec_read_markers(d0, num_markers as int),
            ensures
                spec_read_markers(d0, num_markers as int) == Ok::<Seq<MarkerV>, AiffError>(
                    Seq::new(markers@.len(), |i: int| markers@[i]@),
                ),
            decreases left,
        {
            if left == 0 {
                proof {
                    assert(Seq::new(markers@.len(), |i: int| markers@[i]@) + Seq::empty() =~= Seq::new(
                        markers@.len(),
                        |i: int| markers@[i]@,
                    ));
                }
                break;
            }
            let (m, n) = match Marker::read(rest) {
                Ok(ok) => ok,
                Err(e) => {
                    return Err(e);
                },
            };
            let ghost pre = Seq::new(markers@.len(), |i: int| markers@[i]@);
            let ghost mv = m@;
            markers.push(m);
            proof {
                assert(Seq::new(markers@.len(), |i: int| markers@[i]@) =~= pre + seq![mv]);
                assert forall|t: Seq<MarkerV>| (pre + seq![mv]) + t =~= pre + (seq![mv] + t) by {}
            }
            rest = &rest[n..rest.len()];
            left = left - 1;
        }
        Ok(MarkerChunk { markers })
    }
}

/// How a sampled sound plays through a loop.
#[derive(Debug, Clone, Copy, PartialEq, Eq, Structural)]
pub enum PlayMode {
    /// Play straight through.
    NoLooping,
    /// Repeat from the loop start.
    ForwardLooping,
    /// Alternate forward and backward.
    ForwardBackwardLooping,
}

impl PlayMode {
    /// Decodes a play mode from its numeric form.
    pub fn try_from(value: u16) -> (r: Result<PlayMode, AiffError>)
        ensures
            match r {
                Ok(m) => (value == 0 && m is NoLooping) || (value == 1 && m is ForwardLooping) || (
                value == 2 && m is ForwardBackwardLooping),
                Err(e) => value > 2 && e == AiffError::InvalidPlayMode(value),
            },
    {
        match value {
            0 => Ok(PlayMode::NoLooping),
            1 => Ok(PlayMode::ForwardLooping),
            2 => Ok(PlayMode::ForwardBackwardLooping),
            _ => Err(AiffError::InvalidPlayMode(value)),
        }
    }
}

/// A loop descriptor: a play mode and two marker numbers.
#[derive(Debug, Clone, Copy, PartialEq, Eq, Structural)]
pub struct Loop {
    /// How the loop plays.
    pub play_mode: PlayMode,
    /// Marker number where the loop begins.
    pub begin_loop: u16,
    /// Marker number where the loop ends.
    pub end_loop: u16,
}

/// What parsing a loop descriptor from the start of `d` yields.
pub open spec fn spec_read_loop(d: Seq<u8>) -> Result<Loop, AiffError> {
    if d.len() < 6 {
        Err(AiffError::InvalidFormat)
    } else {
        let mode = spec_u16_be(d[0], d[1]);
        if mode > 2 {
            Err(AiffError::InvalidPlayMode(mode))
        } else {
            Ok(
                Loop {
                    play_mode: if mode == 0 {
                        PlayMode::NoLooping
                    } else if mode == 1 {
                        PlayMode::ForwardLooping
                    } else {
                        PlayMode::ForwardBackwardLooping
                    },
                    begin_loop: spec_u16_be(d[2], d[3]),
                    end_loop: spec_u16_be(d[4], d[5]),
                },
            )
        }
    }
}

impl Loop {
    /// Parses a loop descriptor from the first six bytes of `data`.
    pub fn read(data: &[u8]) -> (r: Result<Loop, AiffError>)
        ensures
            match r {
                Ok(l) => spec_read_loop(data@) == Ok::<_, AiffError>(l),
                Err(e) => spec_read_loop(data@) == Err::<Loop, _>(e),
            },
    {
        if data.len() < 6 {
            return Err(AiffError::InvalidFormat);
        }
        let play_mode = match PlayMode::try_from(read_u16_be(data)) {
            Ok(m) => m,
            Err(e) => {
                return Err(e);
            },
        };
        Ok(
            Loop {
                play_mode,
                begin_loop: read_u16_be(&data[2..data.len()]),
                end_loop: read_u16_be(&data[4..data.len()]),
            },
        )
    }
}

/// The instrument chunk: pitch and velocity ranges, gain, and the sustain
/// and release loops.
#[derive(Debug, Clone, Copy, PartialEq, Eq, Structural)]
pub struct InstrumentChunk {
    pub base_note: i8,
    pub detune: i8,
    pub low_note: i8,
    pub high_note: i8,
    pub low_velocity: i8,
    pub high_velocity: i8,
    pub gain: i16,
    pub sustain_loop: Loop,
    pub release_loop: Loop,
}

/// What parsing an instrument chunk yields: at least twenty bytes with two
/// loop descriptors at their fixed offsets.
pub open spec fn spec_read_instrument(d: Seq<u8>) -> Result<InstrumentChunk, AiffError> {
    if d.len() < 20 {
        Err(AiffError::InvalidFormat)
    } else {
        match spec_read_loop(d.subrange(8, 14)) {
            Err(e) => Err(e),
            Ok(sustain_loop) => match spec_read_loop(d.subrange(14, 20)) {
                Err(e) => Err(e),
                Ok(release_loop) => Ok(
                    InstrumentChunk {
                        base_note: crate::bytes::spec_i8_of_u8(d[0]),
                        detune: crate::bytes::spec_i8_of_u8(d[1]),
                        low_note: crate::bytes::spec_i8_of_u8(d[2]),
                        high_note: crate::bytes::spec_i8_of_u8(d[3]),
                        low_velocity: crate::bytes::spec_i8_of_u8(d[4]),
                        high_velocity: crate::bytes::spec_i8_of_u8(d[5]),
                        gain: (spec_i16_of_u16(spec_u16_be(d[6], d[7]))) as i16,
                        sustain_loop,
                        release_loop,
                    },
                ),
            },
        }
    }
}

impl InstrumentChunk {
    /// Parses an instrument chunk from its contents.
    pub fn read(data: &[u8]) -> (r: Result<InstrumentChunk, AiffError>)
        ensures
            match r {
                Ok(c) => spec_read_instrument(data@) == Ok::<_, AiffError>(c),
                Err(e) => spec_read_instrument(data@) == Err::<InstrumentChunk, _>(e),
            },
    {
        if data.len() < 20 {
            return Err(AiffError::InvalidFormat);
        }
        proof {
            assert(data@.subrange(8, 14) =~= data@.subrange(8, data@.len() as int).subrange(0, 6));
            assert(data@.subrange(14, 20) =~= data@.subrange(14, data@.len() as int).subrange(
                0,
                6,
            ));
        }
        let sustain_loop = match Loop::read(&data[8..data.len()]) {
            Ok(l) => l,
            Err(e) => {
                proof {
                    lemma_loop_read_prefix(data@.subrange(8, data@.len() as int), 6);
                }
                return Err(e);
            },
        };
        let release_loop = match Loop::read(&data[14..data.len()]) {
            Ok(l) => l,
            Err(e) => {
                proof {
                    lemma_loop_read_prefix(data@.subrange(14, data@.len() as int), 6);
                }
                return Err(e);
            },
        };
        proof {
            lemma_loop_read_prefix(data@.subrange(8, data@.len() as int), 6);
            lemma_loop_read_prefix(data@.subrange(14, data@.len() as int), 6);
        }
        Ok(
            InstrumentChunk {
                base_note: crate::bytes::i8_of_u8(data[0]),
                detune: crate::bytes::i8_of_u8(data[1]),
                low_note: crate::bytes::i8_of_u8(data[2]),
                high_note: crate::bytes::i8_of_u8(data[3]),
                low_velocity: crate::bytes::i8_of_u8(data[4]),
                high_velocity: crate::bytes::i8_of_u8(data[5]),
                gain: read_i16_be(&data[6..data.len()]),
                sustain_loop,
                release_loop,
            },
        )
    }
}

/// A loop descriptor reads the same from a buffer and from its six-byte
/// prefix.
proof fn lemma_loop_read_prefix(d: Seq<u8>, n: int)
    requires
        n == 6,
        d.len() >= 6,
    ensures
        spec_read_loop(d) == spec_read_loop(d.subrange(0, 6)),
{
    assert(d.subrange(0, 6)[0] == d[0]);
    assert(d.subrange(0, 6)[1] == d[1]);
    assert(d.subrange(0, 6)[2] == d[2]);
    assert(d.subrange(0, 6)[3] == d[3]);
    assert(d.subrange(0, 6)[4] == d[4]);
    assert(d.subrange(0, 6)[5] == d[5]);
}

} // verus!
