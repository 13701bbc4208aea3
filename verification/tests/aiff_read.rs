//! Reading the chunked audio container: identifiers, chunk walking, the
//! common and sound-data chunks, markers, loops, and sample extraction.

use m64::aiff::chunks::{
    CommonChunk, InstrumentChunk, Loop, MarkerChunk, PlayMode, SoundDataChunk,
};
use m64::aiff::types::{read_chunk, read_pstring, ID};
use m64::aiff::{Aiff, AiffError, AiffReader};

fn chunk(id: &[u8; 4], body: &[u8]) -> Vec<u8> {
    let mut v = Vec::new();
    v.extend_from_slice(id);
    v.extend_from_slice(&(body.len() as u32).to_be_bytes());
    v.extend_from_slice(body);
    if body.len() % 2 == 1 {
        v.push(0);
    }
    v
}

fn comm_body(channels: u16, frames: u32, size: u16) -> Vec<u8> {
    let mut v = Vec::new();
    v.extend_from_slice(&channels.to_be_bytes());
    v.extend_from_slice(&frames.to_be_bytes());
    v.extend_from_slice(&size.to_be_bytes());
    v.extend_from_slice(&0x400eu16.to_be_bytes());
    v.extend_from_slice(&0xfa00_0000_0000_0000u64.to_be_bytes());
    v
}

fn aiff_file(chunks: &[Vec<u8>]) -> Vec<u8> {
    let mut body = Vec::new();
    body.extend_from_slice(b"AIFF");
    for c in chunks {
        body.extend_from_slice(c);
    }
    chunk(b"FORM", &body)
}

#[test]
fn id_validation() {
    assert!(ID::try_from(b"COMM").is_ok());
    assert!(ID::try_from(b"AB  ").is_ok());
    assert_eq!(ID::try_from(b"A B!"), Err(AiffError::InvalidFormat));
    assert_eq!(ID::try_from(&[1, 2, 3, 4]), Err(AiffError::InvalidFormat));
    let id = ID::try_from(b"SSND").unwrap();
    assert_eq!(id.data(), b"SSND");
}

#[test]
fn chunk_walk_skips_odd_padding() {
    let mut data = Vec::new();
    data.extend_from_slice(&chunk(b"ABCD", &[1, 2, 3]));
    data.extend_from_slice(&chunk(b"WXYZ", &[9]));
    let (id, body, rest) = read_chunk(&data).unwrap();
    assert_eq!(id.data(), b"ABCD");
    assert_eq!(body, &[1, 2, 3]);
    let (id2, body2, rest2) = read_chunk(rest).unwrap();
    assert_eq!(id2.data(), b"WXYZ");
    assert_eq!(body2, &[9]);
    assert!(rest2.len() < 2);
    assert_eq!(read_chunk(&[1, 2, 3]), Err(AiffError::InvalidFormat));
}

#[test]
fn pstring_reads_with_padding() {
    // An odd-length name needs no pad: 1 length byte + 3 bytes.
    let (s, n) = read_pstring(&[3, b'a', b'b', b'c']).unwrap();
    assert_eq!(s, "abc");
    assert_eq!(n, 4);
    // An even-length name is followed by a pad byte.
    let (s, n) = read_pstring(&[2, b'h', b'i', 0]).unwrap();
    assert_eq!(s, "hi");
    assert_eq!(n, 4);
    assert_eq!(read_pstring(&[5, b'x']), Err(AiffError::InvalidFormat));
}

#[test]
fn common_chunk_parses_exactly() {
    let body = comm_body(1, 2, 16);
    let c = CommonChunk::read(&body).unwrap();
    assert_eq!(c.num_channels, 1);
    assert_eq!(c.num_sample_frames, 2);
    assert_eq!(c.sample_size, 16);
    assert_eq!(c.sample_rate.sign_and_exponent, 0x400e);
    assert_eq!(c.sample_rate.mantissa, 0xfa00_0000_0000_0000);
    assert_eq!(CommonChunk::read(&body[..17]), Err(AiffError::InvalidFormat));
}

#[test]
fn sound_data_requires_zero_offset() {
    let mut body = vec![0u8; 8];
    body.extend_from_slice(&[5, 6, 7]);
    let s = SoundDataChunk::read(&body).unwrap();
    assert_eq!(s.raw_data(), &[5, 6, 7]);
    let mut bad = vec![0u8; 8];
    bad[3] = 1;
    assert_eq!(
        SoundDataChunk::read(&bad).map(|s| s.raw_data().to_vec()),
        Err(AiffError::InvalidFormat)
    );
}

#[test]
fn whole_container_roundtrip() {
    let file = aiff_file(&[
        chunk(b"COMM", &comm_body(1, 2, 16)),
        chunk(b"SSND", &{
            let mut b = vec![0u8; 8];
            b.extend_from_slice(&[0x12, 0x34, 0xff, 0x9c]);
            b
        }),
        chunk(b"OTHR", &[7, 7]),
    ]);
    let reader = AiffReader { read_other: true };
    let a = reader.read(&file).unwrap();
    assert_eq!(a.comm.num_sample_frames, 2);
    assert_eq!(a.other_chunks.len(), 1);
    assert_eq!(a.other_chunks[0].0.data(), b"OTHR");
    assert_eq!(a.other_chunks[0].1, &[7, 7]);

    let mut samples = a.samples();
    assert_eq!(samples.next(), Some(0x1234));
    assert_eq!(samples.next(), Some(-100));
    assert_eq!(samples.next(), None);

    // Without read_other the extra chunk is dropped.
    let reader = AiffReader { read_other: false };
    let a = reader.read(&file).unwrap();
    assert_eq!(a.other_chunks.len(), 0);
}

#[test]
fn samples_scale_down_by_unused_bits() {
    // A 4-bit sample in one byte: 0x8f reads as -113, floored to -8.
    let file = aiff_file(&[
        chunk(b"COMM", &comm_body(1, 1, 4)),
        chunk(b"SSND", &{
            let mut b = vec![0u8; 8];
            b.push(0x8f);
            b
        }),
    ]);
    let a = Aiff::read(&file, &AiffReader { read_other: false }).unwrap();
    let mut samples = a.samples();
    assert_eq!(samples.next(), Some(-8));
    assert_eq!(samples.next(), None);
}

#[test]
fn container_errors() {
    assert_eq!(
        Aiff::read(&[], &AiffReader { read_other: false }).err(),
        Some(AiffError::InvalidFormat)
    );
    let not_aiff = chunk(b"FORM", b"WAVE");
    assert_eq!(
        Aiff::read(&not_aiff, &AiffReader { read_other: false }).err(),
        Some(AiffError::InvalidFormType)
    );
    let no_ssnd = aiff_file(&[chunk(b"COMM", &comm_body(1, 0, 16))]);
    assert_eq!(
        Aiff::read(&no_ssnd, &AiffReader { read_other: false }).err(),
        Some(AiffError::MissingSsnd)
    );
    let no_comm = aiff_file(&[chunk(b"SSND", &[0u8; 8])]);
    assert_eq!(
        Aiff::read(&no_comm, &AiffReader { read_other: false }).err(),
        Some(AiffError::MissingComm)
    );
}

#[test]
fn marker_chunk_parses_names() {
    let mut body = Vec::new();
    body.extend_from_slice(&1u16.to_be_bytes());
    body.extend_from_slice(&7u16.to_be_bytes());
    body.extend_from_slice(&0x40u32.to_be_bytes());
    body.extend_from_slice(&[3, b'a', b'b', b'c']);
    let m = MarkerChunk::read(&body).unwrap();
    assert_eq!(m.markers.len(), 1);
    assert_eq!(m.markers[0].id, 7);
    assert_eq!(m.markers[0].position, 0x40);
    assert_eq!(m.markers[0].name, "abc");
}

#[test]
fn play_modes_and_loops() {
    assert_eq!(PlayMode::try_from(0), Ok(PlayMode::NoLooping));
    assert_eq!(PlayMode::try_from(1), Ok(PlayMode::ForwardLooping));
    assert_eq!(PlayMode::try_from(2), Ok(PlayMode::ForwardBackwardLooping));
    assert_eq!(PlayMode::try_from(3), Err(AiffError::InvalidPlayMode(3)));

    let l = Loop::read(&[0, 1, 0, 2, 0, 3]).unwrap();
    assert_eq!(l.play_mode, PlayMode::ForwardLooping);
    assert_eq!(l.begin_loop, 2);
    assert_eq!(l.end_loop, 3);
    assert_eq!(Loop::read(&[0, 5, 0, 0, 0, 0]), Err(AiffError::InvalidPlayMode(5)));
}

#[test]
fn instrument_chunk_parses() {
    let mut body = vec![60u8, 0, 48, 72, 1, 127];
    body.extend_from_slice(&(-10i16).to_be_bytes());
    body.extend_from_slice(&[0, 1, 0, 1, 0, 2]);
    body.extend_from_slice(&[0, 0, 0, 0, 0, 0]);
    let c = InstrumentChunk::read(&body).unwrap();
    assert_eq!(c.base_note, 60);
    assert_eq!(c.high_note, 72);
    assert_eq!(c.gain, -10);
    assert_eq!(c.sustain_loop.play_mode, PlayMode::ForwardLooping);
    assert_eq!(c.sustain_loop.begin_loop, 1);
    assert_eq!(c.sustain_loop.end_loop, 2);
    assert_eq!(c.release_loop.play_mode, PlayMode::NoLooping);
}
