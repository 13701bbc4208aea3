//! Reading of the chunked interchange audio container: the chunk walk, the
//! common and sound-data chunks the samples come from, and the marker and
//! instrument chunks that describe loop points.

use vstd::prelude::*;

pub mod chunks;
pub mod error;
pub mod types;

pub use error::AiffError;

use crate::bytes::{read_u32_be, spec_u32_be};
use chunks::{CommonChunk, SoundDataChunk};
use types::{spec_read_chunk, ID};

verus! {

/// Configuration of the container reader: which chunks beyond the two
/// required ones are kept.
#[derive(Debug, Clone, Copy, PartialEq, Eq, Structural)]
pub struct AiffReader {
    /// Whether chunks other than the common and sound-data chunks are
    /// collected.
    pub read_other: bool,
}

impl Default for AiffReader {
    /// The default configuration keeps only the required chunks.
    fn default() -> (r: AiffReader)
        ensures
            r.read_other == false,
    {
        AiffReader { read_other: false }
    }
}

impl AiffReader {
    /// Reads a container according to this configuration.
    pub fn read<'a>(&self, data: &'a [u8]) -> (r: Result<Aiff<'a>, AiffError>)
        ensures
            match r {
                Ok(a) => spec_read_aiff(data@, self.read_other) == Ok::<AiffV, AiffError>(a@),
                Err(e) => spec_read_aiff(data@, self.read_other) == Err::<AiffV, AiffError>(e),
            },
    {
        Aiff::read(data, self)
    }
}

/// Mathematical image of a read container.
pub struct AiffV {
    /// The common chunk (it holds only plain values).
    pub comm: CommonChunk,
    /// Bytes of the sound-data chunk, past its header.
    pub ssnd: Seq<u8>,
    /// The other chunks kept, in order of appearance: identifier bytes and
    /// contents.
    pub other_chunks: Seq<(Seq<u8>, Seq<u8>)>,
}

/// A read container: its common chunk, its sound data, and whatever other
/// chunks the configuration kept, in order of appearance.
pub struct Aiff<'a> {
    /// The common chunk.
    pub comm: CommonChunk,
    /// The sound-data chunk.
    pub ssnd: SoundDataChunk<'a>,
    /// The other chunks kept, in order of appearance.
    pub other_chunks: Vec<(ID, &'a [u8])>,
}

impl<'a> View for Aiff<'a> {
    type V = AiffV;

    open spec fn view(&self) -> AiffV {
        AiffV {
            comm: self.comm,
            ssnd: self.ssnd@,
            other_chunks: Seq::new(
                self.other_chunks@.len(),
                |i: int| (self.other_chunks@[i].0@, self.other_chunks@[i].1@),
            ),
        }
    }
}

/// The partial state of the chunk walk: what has been found so far.
pub struct ScanV {
    pub comm: Option<CommonChunk>,
    pub ssnd: Option<Seq<u8>>,
    pub other_chunks: Seq<(Seq<u8>, Seq<u8>)>,
}

/// Walks the chunks of `d`, folding each into the scan state: the common
/// and sound-data chunks are parsed, and any other chunk is kept when
/// `read_other` asks for it. The last seen chunk of a kind wins.
pub open spec fn spec_scan_chunks(d: Seq<u8>, read_other: bool, acc: ScanV) -> Result<
    ScanV,
    AiffError,
>
    decreases d.len(),
{
    if d.len() == 0 {
        Ok(acc)
    } else {
        match spec_read_chunk(d) {
            Err(e) => Err(e),
            Ok(c) => {
                let (id, chunk, rest) = c;
                if id == seq![0x43u8, 0x4f, 0x4d, 0x4d] {
                    match chunks::spec_read_common(chunk) {
                        Err(e) => Err(e),
                        Ok(comm) => spec_scan_chunks(
                            rest,
                            read_other,
                            ScanV { comm: Some(comm), ..acc },
                        ),
                    }
                } else if id == seq![0x53u8, 0x53, 0x4e, 0x44] {
                    match chunks::spec_read_sound_data(chunk) {
                        Err(e) => Err(e),
                        Ok(ssnd) => spec_scan_chunks(
                            rest,
                            read_other,
                            ScanV { ssnd: Some(ssnd), ..acc },
                        ),
                    }
                } else if read_other {
                    spec_scan_chunks(
                        rest,
                        read_other,
                        ScanV { other_chunks: acc.other_chunks.push((id, chunk)), ..acc },
                    )
                } else {
                    spec_scan_chunks(rest, read_other, acc)
                }
            },
        }
    }
}

/// The container a finished chunk walk yields: both required chunks must
/// have appeared.
pub open spec fn spec_aiff_from_scan(scan: Result<ScanV, AiffError>) -> Result<AiffV, AiffError> {
    match scan {
        Err(e) => Err(e),
        Ok(sc) => match sc.comm {
            None => Err(AiffError::MissingComm),
            Some(comm) => match sc.ssnd {
                None => Err(AiffError::MissingSsnd),
                Some(ssnd) => Ok(AiffV { comm, ssnd, other_chunks: sc.other_chunks }),
            },
        },
    }
}

/// What reading a whole container yields: the form header is checked, the
/// chunks are walked, and both required chunks must have appeared.
pub open spec fn spec_read_aiff(d: Seq<u8>, read_other: bool) -> Result<AiffV, AiffError> {
    match spec_read_chunk(d) {
        Err(e) => Err(e),
        Ok(c) => {
            let (form_id, form_data, _) = c;
            if form_id != seq![0x46u8, 0x4f, 0x52, 0x4d] {
                Err(AiffError::InvalidFormat)
            } else if form_data.len() < 4 {
                Err(AiffError::InvalidFormat)
            } else if form_data.subrange(0, 4) != seq![0x41u8, 0x49, 0x46, 0x46] {
                Err(AiffError::InvalidFormType)
            } else {
                spec_aiff_from_scan(
                    spec_scan_chunks(
                        form_data.subrange(4, form_data.len() as int),
                        read_other,
                        ScanV { comm: None, ssnd: None, other_chunks: Seq::empty() },
                    ),
                )
            }
        },
    }
}

impl<'a> Aiff<'a> {
    /// Reads a container: the form header, then every chunk, requiring the
    /// common and sound-data chunks.
    pub fn read(data: &'a [u8], config: &AiffReader) -> (r: Result<Self, AiffError>)
        ensures
            match r {
                Ok(a) => spec_read_aiff(data@, config.read_other) == Ok::<AiffV, AiffError>(a@),
                Err(e) => spec_read_aiff(data@, config.read_other) == Err::<AiffV, AiffError>(e),
            },
    {
        let (form_id, form_data, _) = match types::read_chunk(data) {
            Ok(c) => c,
            Err(e) => {
                return Err(e);
            },
        };
        if !form_id.is_id(0x46, 0x4f, 0x52, 0x4d) {
            return Err(AiffError::InvalidFormat);
        }
        if form_data.len() < 4 {
            return Err(AiffError::InvalidFormat);
        }
        if !(form_data[0] == 0x41 && form_data[1] == 0x49 && form_data[2] == 0x46 && form_data[3]
            == 0x46) {
            proof {
                assert(form_data@.subrange(0, 4) != seq![0x41u8, 0x49, 0x46, 0x46]) by {
                    if form_data@.subrange(0, 4) == seq![0x41u8, 0x49, 0x46, 0x46] {
                        assert(form_data@.subrange(0, 4)[0] == 0x41);
                        assert(form_data@.subrange(0, 4)[1] == 0x49);
                        assert(form_data@.subrange(0, 4)[2] == 0x46);
                        assert(form_data@.subrange(0, 4)[3] == 0x46);
                    }
                }
            }
            return Err(AiffError::InvalidFormType);
        }
        proof {
            assert(form_data@.subrange(0, 4) =~= seq![0x41u8, 0x49, 0x46, 0x46]);
        }
        let mut rest: &[u8] = &form_data[4..form_data.len()];
        let mut comm: Option<CommonChunk> = None;
        let mut ssnd: Option<SoundDataChunk<'a>> = None;
        let mut other_chunks: Vec<(ID, &'a [u8])> = Vec::new();
        let ghost d0 = rest@;
        proof {
            assert(Seq::new(
                other_chunks@.len(),
                |i: int| (other_chunks@[i].0@, other_chunks@[i].1@),
            ) =~= Seq::<(Seq<u8>, Seq<u8>)>::empty());
            assert(spec_read_aiff(data@, config.read_other) == spec_aiff_from_scan(
                spec_scan_chunks(
                    d0,
                    config.read_other,
                    ScanV { comm: None, ssnd: None, other_chunks: Seq::empty() },
                ),
            ));
        }
        loop
            invariant_except_break
                spec_scan_chunks(
                    d0,
                    config.read_other,
                    ScanV { comm: None, ssnd: None, other_chunks: Seq::empty() },
                ) == spec_scan_chunks(
                    rest@,
                    config.read_other,
                    ScanV {
                        comm: match comm {
                            None => None,
                            Some(c) => Some(c),
                        },
                        ssnd: match ssnd {
                            None => None,
                            Some(s) => Some(s@),
                        },
                        other_chunks: Seq::new(
                            other_chunks@.len(),
                            |i: int| (other_chunks@[i].0@, other_chunks@[i].1@),
                        ),
                    },
                ),
            invariant
                spec_read_aiff(data@, config.read_other) == spec_aiff_from_scan(
                    spec_scan_chunks(
                        d0,
                        config.read_other,
                        ScanV { comm: None, ssnd: None, other_chunks: Seq::empty() },
                    ),
                ),
            ensures
                ({
                    let scanned = spec_scan_chunks(
                        d0,
                        config.read_other,
                        ScanV { comm: None, ssnd: None, other_chunks: Seq::empty() },
                    );
                    scanned == Ok::<ScanV, AiffError>(
                        ScanV {
                            comm: match comm {
                                None => None,
                                Some(c) => Some(c),
                            },
                            ssnd: match ssnd {
                                None => None,
                                Some(s) => Some(s@),
                            },
                            other_chunks: Seq::new(
                                other_chunks@.len(),
                                |i: int| (other_chunks@[i].0@, other_chunks@[i].1@),
                            ),
                        },
                    )
                }),
            decreases rest@.len(),
        {
            if rest.len() == 0 {
                break;
            }
            let (chunk_id, chunk_data, next) = match types::read_chunk(rest) {
                Ok(c) => c,
                Err(e) => {
                    return Err(e);
                },
            };
            if chunk_id.is_id(0x43, 0x4f, 0x4d, 0x4d) {
                match CommonChunk::read(chunk_data) {
                    Ok(c) => {
                        comm = Some(c);
                    },
                    Err(e) => {
                        return Err(e);
                    },
                }
            } else if chunk_id.is_id(0x53, 0x53, 0x4e, 0x44) {
                match SoundDataChunk::read(chunk_data) {
                    Ok(s) => {
                        ssnd = Some(s);
                    },
                    Err(e) => {
                        return Err(e);
                    },
                }
            } else if config.read_other {
                let ghost pre = Seq::new(
                    other_chunks@.len(),
                    |i: int| (other_chunks@[i].0@, other_chunks@[i].1@),
                );
                other_chunks.push((chunk_id, chunk_data));
                proof {
                    assert(Seq::new(
                        other_chunks@.len(),
                        |i: int| (other_chunks@[i].0@, other_chunks@[i].1@),
                    ) =~= pre.push((chunk_id@, chunk_data@)));
                }
            }
            rest = next;
        }
        let comm = match comm {
            Some(c) => c,
            None => {
                return Err(AiffError::MissingComm);
            },
        };
        let ssnd = match ssnd {
            Some(s) => s,
            None => {
                return Err(AiffError::MissingSsnd);
            },
        };
        let r = Aiff { comm, ssnd, other_chunks };
        Ok(r)
    }

    /// An iterator-like cursor over the samples of the sound data.
    pub fn samples(&self) -> (r: Samples<'a>)
        ensures
            r@.data == self@.ssnd,
            r@.remaining_sample_frames == self.comm.num_sample_frames,
            r@.sample_size == self.comm.sample_size,
    {
        Samples {
            data: self.ssnd.raw_data(),
            remaining_sample_frames: self.comm.num_sample_frames,
            sample_size: self.comm.sample_size,
        }
    }
}

/// Mathematical image of a sample cursor.
pub struct SamplesV {
    pub data: Seq<u8>,
    pub remaining_sample_frames: u32,
    pub sample_size: u16,
}

/// A cursor over the signed samples held by a sound-data chunk.
pub struct Samples<'a> {
    data: &'a [u8],
    remaining_sample_frames: u32,
    sample_size: u16,
}

impl<'a> View for Samples<'a> {
    type V = SamplesV;

    closed spec fn view(&self) -> SamplesV {
        SamplesV {
            data: self.data@,
            remaining_sample_frames: self.remaining_sample_frames,
            sample_size: self.sample_size,
        }
    }
}

/// Two to the `k`.
pub open spec fn spec_pow2(k: nat) -> int
    decreases k,
{
    if k == 0 {
        1
    } else {
        2 * spec_pow2((k - 1) as nat)
    }
}

/// How many bytes one sample of `size` bits occupies.
pub open spec fn spec_bytes_per_sample(size: u16) -> int {
    (size + 7) / 8
}

/// The signed value of one sample: its bytes read big-endian and
/// sign-extended, then scaled down by the unused low bits of the last
/// byte (an arithmetic shift, here a flooring division).
pub open spec fn spec_sample_value(d: Seq<u8>, size: u16) -> int
    recommends
        1 <= size <= 32,
        d.len() >= spec_bytes_per_sample(size),
{
    let n = spec_bytes_per_sample(size);
    let raw = if n == 1 {
        crate::bytes::spec_i8_of_u8(d[0]) as int
    } else if n == 2 {
        crate::bytes::spec_i16_of_u16(crate::bytes::spec_u16_be(d[0], d[1]))
    } else if n == 3 {
        crate::bytes::spec_i32_of_u32(spec_u32_be(0, d[0], d[1], d[2]))
    } else {
        crate::bytes::spec_i32_of_u32(spec_u32_be(d[0], d[1], d[2], d[3]))
    };
    raw / spec_pow2((8 * n - size) as nat)
}

impl<'a> Samples<'a> {
    /// The next sample, or nothing once the frames or the bytes run out.
    /// Consumes one sample's bytes and one remaining frame.
    pub fn next(&mut self) -> (r: Option<i32>)
        requires
            1 <= old(self)@.sample_size <= 32,
        ensures
            ({
                let n = spec_bytes_per_sample(old(self)@.sample_size);
                if old(self)@.data.len() < n || old(self)@.remaining_sample_frames == 0 {
                    r is None && final(self)@ == old(self)@
                } else {
                    &&& r == Some::<i32>(
                        spec_sample_value(old(self)@.data, old(self)@.sample_size) as i32,
                    )
                    &&& final(self)@.data == old(self)@.data.subrange(
                        n,
                        old(self)@.data.len() as int,
                    )
                    &&& final(self)@.remaining_sample_frames == old(
                        self,
                    )@.remaining_sample_frames - 1
                    &&& final(self)@.sample_size == old(self)@.sample_size
                }
            }),
    {
        let size: u16 = self.sample_size;
        let bytes_per_sample: u16 = (size + 7) / 8;
        if self.data.len() < bytes_per_sample as usize || self.remaining_sample_frames == 0 {
            return None;
        }
        self.remaining_sample_frames = self.remaining_sample_frames - 1;
        let raw: i32 = if bytes_per_sample == 1 {
            crate::bytes::i8_of_u8(self.data[0]) as i32
        } else if bytes_per_sample == 2 {
            crate::bytes::read_i16_be(self.data) as i32
        } else if bytes_per_sample == 3 {
            let v: u32 = (self.data[0] as u32) * 0x10000 + (self.data[1] as u32) * 0x100 + (
            self.data[2] as u32);
            proof {
                assert(v == spec_u32_be(0, self@.data[0], self@.data[1], self@.data[2]));
            }
            i32_of_u32(v)
        } else {
            i32_of_u32(crate::bytes::read_u32_be(self.data))
        };
        let shift: u16 = 8 * bytes_per_sample - size;
        assert(shift <= 7);
        let value: i32 = floor_div_pow2(raw, shift);
        let d = self.data;
        self.data = &d[bytes_per_sample as usize..d.len()];
        Some(value)
    }
}

/// Reinterprets a 32-bit word as a signed value, in two's complement.
pub fn i32_of_u32(v: u32) -> (r: i32)
    ensures
        r as int == crate::bytes::spec_i32_of_u32(v),
{
    if v < 0x80000000 {
        v as i32
    } else {
        (((v as i64) - 0x100000000) as i32)
    }
}

/// Two to the `k`, for the small shifts a sample uses.
fn pow2_i32(k: u16) -> (r: i32)
    requires
        k <= 7,
    ensures
        r == spec_pow2(k as nat),
        1 <= r <= 128,
{
    proof {
        reveal_with_fuel(spec_pow2, 9);
    }
    match k {
        0 => 1,
        1 => 2,
        2 => 4,
        3 => 8,
        4 => 16,
        5 => 32,
        6 => 64,
        _ => 128,
    }
}

/// Flooring division by a small power of two: the arithmetic shift right.
fn floor_div_pow2(v: i32, k: u16) -> (r: i32)
    requires
        k <= 7,
    ensures
        r == v as int / spec_pow2(k as nat),
{
    let d: i32 = pow2_i32(k);
    if d == 1 {
        return v;
    }
    let du: u32 = d as u32;
    if v >= 0 {
        let q: u32 = (v as u32) / du;
        let rem: u32 = (v as u32) % du;
        proof {
            vstd::arithmetic::div_mod::lemma_fundamental_div_mod(v as u32 as int, du as int);
            assert(q as int <= 0x40000000) by (nonlinear_arith)
                requires
                    v as u32 as int == du as int * (q as int) + rem as int,
                    rem >= 0,
                    du >= 2,
                    q >= 0,
                    v as u32 as int <= 0x7fffffff,
            ;
            vstd::arithmetic::div_mod::lemma_fundamental_div_mod_converse_div(
                v as int,
                du as int,
                q as int,
                rem as int,
            );
        }
        q as i32
    } else {
        let m: u32 = (-(v as i64)) as u32;
        let q: u32 = m / du;
        let rem: u32 = m % du;
        let qi: i64 = if rem == 0 {
            -(q as i64)
        } else {
            -(q as i64) - 1
        };
        proof {
            vstd::arithmetic::div_mod::lemma_fundamental_div_mod(m as int, du as int);
            assert(q as int <= 0x40000000) by (nonlinear_arith)
                requires
                    m as int == du as int * (q as int) + rem as int,
                    rem >= 0,
                    du >= 2,
                    q >= 0,
                    m as int <= 0x80000000,
            ;
            if rem == 0 {
                assert(v as int == qi as int * du as int + 0) by (nonlinear_arith)
                    requires
                        v as int == -(m as int),
                        m as int == du as int * (q as int) + rem as int,
                        rem == 0,
                        qi == -(q as int),
                ;
                vstd::arithmetic::div_mod::lemma_fundamental_div_mod_converse_div(
                    v as int,
                    du as int,
                    qi as int,
                    0,
                );
            } else {
                assert(v as int == qi as int * du as int + (du - rem)) by (nonlinear_arith)
                    requires
                        v as int == -(m as int),
                        m as int == du as int * (q as int) + rem as int,
                        qi == -(q as int) - 1,
                ;
                vstd::arithmetic::div_mod::lemma_fundamental_div_mod_converse_div(
                    v as int,
                    du as int,
                    qi as int,
                    du as int - rem as int,
                );
            }
        }
        qi as i32
    }
}

} // verus!
