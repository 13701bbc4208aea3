//! Decoder and encoder behavior: every instruction variant of all three
//! tiers survives an encode-decode round trip, and malformed input comes
//! back as an error value.

use m64::channel::ChannelCmd;
use m64::layer::LayerCmd;
use m64::sequence::SequenceCmd;
use m64::DecodeError;

fn seq_roundtrip(cmd: SequenceCmd) {
    let bytes = cmd.encode();
    let (decoded, n) = SequenceCmd::read(&bytes).expect("canonical form decodes");
    assert_eq!(decoded, cmd);
    assert_eq!(n, bytes.len());
}

#[test]
fn sequence_cmds_roundtrip() {
    let cmds = vec![
        SequenceCmd::End,
        SequenceCmd::Delay1,
        SequenceCmd::Delay(0),
        SequenceCmd::Delay(0x7f),
        SequenceCmd::Delay(0x80),
        SequenceCmd::Delay(0x7fff),
        SequenceCmd::Call(0x1234),
        SequenceCmd::Jump(0xffff),
        SequenceCmd::Beqz(0),
        SequenceCmd::Bltz(0x8000),
        SequenceCmd::Loop(0),
        SequenceCmd::LoopEnd,
        SequenceCmd::Bgez(7),
        SequenceCmd::ReserveNotes(3),
        SequenceCmd::UnReserveNotes,
        SequenceCmd::Transpose(-12),
        SequenceCmd::TransposeRel(5),
        SequenceCmd::SetTempo(120),
        SequenceCmd::AddTempo(-5),
        SequenceCmd::SetVol(127),
        SequenceCmd::ChangeVol(-1),
        SequenceCmd::InitChannels(0x8001),
        SequenceCmd::DisableChannels(0x00ff),
        SequenceCmd::SetMuteScale(64),
        SequenceCmd::Mute,
        SequenceCmd::SetMuteBhv(0xe0),
        SequenceCmd::SetShortNoteVelocityTable(0x1000),
        SequenceCmd::SetShortNoteDurationTable(0x1001),
        SequenceCmd::SetNoteAllocationPolicy(2),
        SequenceCmd::SetVal(0x42),
        SequenceCmd::BitAnd(0x0f),
        SequenceCmd::Subtract(1),
        SequenceCmd::StartChannel(0, 0x100),
        SequenceCmd::StartChannel(15, 0xfffe),
        SequenceCmd::GetVariation,
        SequenceCmd::SetVariation,
        SequenceCmd::SubVariation,
        SequenceCmd::TestChDisabled(9),
    ];
    for cmd in cmds {
        seq_roundtrip(cmd);
    }
}

fn chan_roundtrip(cmd: ChannelCmd) {
    let bytes = cmd.encode();
    let (decoded, n) = ChannelCmd::read(&bytes).expect("canonical form decodes");
    assert_eq!(decoded, cmd);
    // The vibrato-delay instruction reads its operand but consumes one
    // byte; everything else consumes its whole encoding.
    if let ChannelCmd::SetVibratoDelay(_) = cmd {
        assert_eq!(n, 1);
    } else {
        assert_eq!(n, bytes.len());
    }
}

#[test]
fn channel_cmds_roundtrip() {
    let cmds = vec![
        ChannelCmd::End,
        ChannelCmd::Delay1,
        ChannelCmd::Delay(0x2bc),
        ChannelCmd::Call(0xabcd),
        ChannelCmd::Jump(1),
        ChannelCmd::Beqz(2),
        ChannelCmd::Bltz(3),
        ChannelCmd::Loop(255),
        ChannelCmd::LoopEnd,
        ChannelCmd::Break,
        ChannelCmd::Bgez(4),
        ChannelCmd::Hang,
        ChannelCmd::ReserveNotes(8),
        ChannelCmd::UnReserveNotes,
        ChannelCmd::DynCall,
        ChannelCmd::SetVibratoDelay(9),
        ChannelCmd::SetVibratoExtentLinear(1, 2, 3),
        ChannelCmd::SetVibratoRateLinear(4, 5, 6),
        ChannelCmd::SetVolScale(200),
        ChannelCmd::SetVol(127),
        ChannelCmd::FreqScale(0x8000),
        ChannelCmd::SetPan(64),
        ChannelCmd::SetPanChanWeight(128),
        ChannelCmd::Transpose(-7),
        ChannelCmd::SetEnvelope(0x400),
        ChannelCmd::SetDecayRelease(10),
        ChannelCmd::SetVibratoExtent(11),
        ChannelCmd::SetVibratoRate(12),
        ChannelCmd::SetUpdatesPerFrame(4),
        ChannelCmd::SetReverb(40),
        ChannelCmd::PitchBend(-127),
        ChannelCmd::SetSustain(90),
        ChannelCmd::SetNoteAllocationPolicy(1),
        ChannelCmd::StereoHeadsetEffects(1),
        ChannelCmd::SetVal(0xff),
        ChannelCmd::ReadSeq(0x123),
        ChannelCmd::SetMuteBhv(0x40),
        ChannelCmd::BitAnd(0x3c),
        ChannelCmd::Subtract(0x80),
        ChannelCmd::WriteSeq(7, 0x321),
        ChannelCmd::SetBank(1),
        ChannelCmd::DynSetDynTable,
        ChannelCmd::LargeNotesOn,
        ChannelCmd::LargeNotesOff,
        ChannelCmd::SetDynTable(0x777),
        ChannelCmd::SetInstr(33),
        ChannelCmd::DynSetLayer(2),
        ChannelCmd::FreeLayer(3),
        ChannelCmd::SetLayer(1, 0x222),
        ChannelCmd::IoReadVal(5),
        ChannelCmd::IoWriteVal(6),
        ChannelCmd::SetNotePriority(4),
        ChannelCmd::IoReadValSub(7),
        ChannelCmd::IoReadVal2(8, 2),
        ChannelCmd::IoWriteVal2(9, 3),
        ChannelCmd::DisableChannel(10),
        ChannelCmd::StartChannel(11, 0x888),
        ChannelCmd::TestLayerFinished(0),
    ];
    for cmd in cmds {
        chan_roundtrip(cmd);
    }
}

fn layer_roundtrip(cmd: LayerCmd, large: bool) {
    let bytes = cmd.encode();
    let (decoded, n) = LayerCmd::read(&bytes, large).expect("canonical form decodes");
    assert_eq!(decoded, cmd);
    assert_eq!(n, bytes.len());
}

#[test]
fn layer_cmds_roundtrip() {
    let both = vec![
        LayerCmd::End,
        LayerCmd::Call(0x999),
        LayerCmd::Jump(0x1000),
        LayerCmd::Loop(0),
        LayerCmd::LoopEnd,
        LayerCmd::SetShortNoteDurationFromTable(15),
        LayerCmd::SetShortNoteVelocityFromTable(0),
        LayerCmd::SetPan(128),
        LayerCmd::SetShortNoteDuration(0x80),
        LayerCmd::DisablePortamento,
        LayerCmd::Portamento(0x85, 40, 200),
        LayerCmd::SetInstr(3),
        LayerCmd::SomethingOff,
        LayerCmd::SomethingOn,
        LayerCmd::SetShortNoteDefaultPlayPercentage(0x100),
        LayerCmd::Transpose(12),
        LayerCmd::SetShortNoteVelocity(100),
        LayerCmd::Delay(0x7fff),
    ];
    for cmd in both {
        layer_roundtrip(cmd, true);
        layer_roundtrip(cmd, false);
    }
    let large = vec![
        LayerCmd::Note0 { pitch: 0, percentage: 128, velocity: 100, duration: 0x80 },
        LayerCmd::Note0 { pitch: 0x3f, percentage: 0x7f, velocity: 1, duration: 2 },
        LayerCmd::Note1 { pitch: 40, percentage: 0x7fff, velocity: 127 },
        LayerCmd::Note2 { pitch: 63, velocity: 90, duration: 0x40 },
    ];
    for cmd in large {
        layer_roundtrip(cmd, true);
    }
    let small = vec![
        LayerCmd::SmallNote0 { pitch: 5, percentage: 300 },
        LayerCmd::SmallNote1 { pitch: 0 },
        LayerCmd::SmallNote2 { pitch: 0x3f },
    ];
    for cmd in small {
        layer_roundtrip(cmd, false);
    }
}

#[test]
fn unknown_opcodes_are_errors() {
    assert_eq!(
        SequenceCmd::read(&[0x40]),
        Err(DecodeError::UnknownOpcode(0x40))
    );
    assert_eq!(
        ChannelCmd::read(&[0xf4]),
        Err(DecodeError::UnknownOpcode(0xf4))
    );
    assert_eq!(
        LayerCmd::read(&[0xfe], true),
        Err(DecodeError::UnknownOpcode(0xfe))
    );
}

#[test]
fn truncated_operands_are_errors() {
    assert_eq!(SequenceCmd::read(&[]), Err(DecodeError::Truncated));
    assert_eq!(SequenceCmd::read(&[0xfc, 0x12]), Err(DecodeError::Truncated));
    assert_eq!(SequenceCmd::read(&[0xfd]), Err(DecodeError::Truncated));
    assert_eq!(SequenceCmd::read(&[0xfd, 0x80]), Err(DecodeError::Truncated));
    assert_eq!(ChannelCmd::read(&[0xe2, 1, 2]), Err(DecodeError::Truncated));
    assert_eq!(LayerCmd::read(&[0x00, 0x80], true), Err(DecodeError::Truncated));
}

#[test]
fn variable_length_operand_boundary() {
    // A one-byte operand holds values through 0x7f; 0x80 takes two bytes.
    let (cmd, n) = SequenceCmd::read(&[0xfd, 0x7f]).unwrap();
    assert_eq!(cmd, SequenceCmd::Delay(0x7f));
    assert_eq!(n, 2);
    let (cmd, n) = SequenceCmd::read(&[0xfd, 0x80, 0x80]).unwrap();
    assert_eq!(cmd, SequenceCmd::Delay(0x80));
    assert_eq!(n, 3);
    let (cmd, n) = SequenceCmd::read(&[0xfd, 0xff, 0xff]).unwrap();
    assert_eq!(cmd, SequenceCmd::Delay(0x7fff));
    assert_eq!(n, 3);
}

#[test]
fn is_end_only_on_end() {
    assert!(SequenceCmd::End.is_end());
    assert!(!SequenceCmd::Delay1.is_end());
    assert!(ChannelCmd::End.is_end());
    assert!(!ChannelCmd::Hang.is_end());
    assert!(LayerCmd::End.is_end());
    assert!(!LayerCmd::LoopEnd.is_end());
}

#[test]
fn big_endian_operands_decode_exactly() {
    // Exercises the byte-order wrapper: a swapped operand must differ.
    let (cmd, _) = SequenceCmd::read(&[0xfc, 0x12, 0x34]).unwrap();
    assert_eq!(cmd, SequenceCmd::Call(0x1234));
    let (cmd, _) = SequenceCmd::read(&[0xfc, 0x34, 0x12]).unwrap();
    assert_eq!(cmd, SequenceCmd::Call(0x3412));
}
