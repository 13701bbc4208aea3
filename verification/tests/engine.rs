//! Behavior of the three-tier interpreter: tempo gating, delays, loops,
//! the call stack, channel and layer lifecycle, the condition register,
//! and fault isolation.

use m64::state::channel::SequenceChannel;
use m64::state::layer::SequenceLayer;
use m64::state::player::SequencePlayer;
use m64::state::{FaultKind, TEMPO_INTERNAL_TO_EXTERNAL};

/// Runs one tick with the accumulator primed so the script phase fires.
fn script_tick(p: &mut SequencePlayer, data: &[u8]) {
    p.tempo_acc = TEMPO_INTERNAL_TO_EXTERNAL - 1;
    p.process(data);
}

#[test]
fn process_after_finished_is_frozen() {
    let mut p = SequencePlayer::new();
    let data = [0xffu8];
    script_tick(&mut p, &data);
    assert!(p.finished);
    let pc = p.script_state.pc;
    let acc = p.tempo_acc;
    let delay = p.delay;
    for _ in 0..3 {
        p.process(&data);
    }
    assert!(p.finished);
    assert_eq!(p.script_state.pc, pc);
    assert_eq!(p.tempo_acc, acc);
    assert_eq!(p.delay, delay);
}

#[test]
fn loop_of_zero_iterates_256_times() {
    // Loop(0); Delay1; LoopEnd; End — the body runs once per tick.
    let data = [0xf8u8, 0x00, 0xfe, 0xf7, 0xff];
    let mut c = SequenceChannel::new();
    c.enabled = true;
    let p = SequencePlayer::new();
    let mut body_runs = 0u32;
    while !c.finished {
        c.process(&p, &data);
        if !c.finished {
            body_runs += 1;
        }
        assert!(body_runs <= 300, "loop failed to terminate");
    }
    // The body's delay ran once per iteration: exactly 256 iterations.
    assert_eq!(body_runs, 256);
    assert!(c.fault.is_none());
}

#[test]
fn five_nested_calls_overflow_the_stack() {
    let data = [
        0xfcu8, 0x00, 0x03, // 0: call 3
        0xfc, 0x00, 0x06, // 3: call 6
        0xfc, 0x00, 0x09, // 6: call 9
        0xfc, 0x00, 0x0c, // 9: call 12
        0xfc, 0x00, 0x0f, // 12: call 15 — the fifth, one too many
        0xff,
    ];
    let mut c = SequenceChannel::new();
    c.enabled = true;
    let p = SequencePlayer::new();
    c.process(&p, &data);
    assert!(!c.enabled);
    assert!(c.finished);
    let fault = c.fault.expect("stack overflow is recorded");
    assert_eq!(fault.kind, FaultKind::StackOverflow);
    assert_eq!(fault.pc, 12);
    // The stack was not corrupted: depth stays at its capacity.
    assert_eq!(c.script_state.depth, 4);
}

#[test]
fn init_channels_keeps_running_channel() {
    let data = [
        0xd7u8, 0x00, 0x01, // 0: init channels, bit 0
        0x90, 0x00, 0x0c, // 3: start channel 0 at 12
        0xd7, 0x00, 0x01, // 6: init channels again, same bit
        0xfd, 0x05, // 9: delay 5
        0xff, // 11: end
        0xfe, // 12: channel script: delay 1
        0xff, // 13: channel script: end
    ];
    let mut p = SequencePlayer::new();
    script_tick(&mut p, &data);
    let c = p.channels[0].as_ref().expect("channel 0 was created");
    // The second init-channels did not discard the started channel: its
    // script ran this tick and sits past the delay-1 instruction.
    assert!(c.enabled);
    assert_eq!(c.script_state.pc, 13);
}

#[test]
fn disable_channels_empties_slot() {
    let data = [
        0xd7u8, 0x00, 0x03, // init channels 0 and 1
        0xd6, 0x00, 0x02, // disable channel 1
        0xfd, 0x05, // delay 5
        0xff,
    ];
    let mut p = SequencePlayer::new();
    script_tick(&mut p, &data);
    assert!(p.channels[0].is_some());
    assert!(p.channels[1].is_none());
}

#[test]
fn tempo_gating_runs_script_every_second_tick() {
    // With the tempo at half the threshold, the accumulator crosses every
    // second tick: five quiescent script ticks, then termination.
    let data = [0xfdu8, 0x05, 0xff];
    let mut p = SequencePlayer::new();
    p.tempo = TEMPO_INTERNAL_TO_EXTERNAL / 2;
    let mut finished_at = 0u32;
    for tick in 1..=20u32 {
        p.process(&data);
        if p.finished {
            finished_at = tick;
            break;
        }
        // Odd ticks never run the script: the delay is untouched.
        if tick % 2 == 1 {
            assert_eq!(p.delay, if tick == 1 { 0 } else { (5 - tick / 2) as u16 + 1 });
        }
    }
    // Tick 2 sets the delay; ticks 4, 6, 8, 10 count it down; tick 12 ends.
    assert_eq!(finished_at, 12);
}

#[test]
fn second_set_layer_replaces_first() {
    let data = [
        0x90u8, 0x00, 0x10, // 0: set layer 0 at 0x10
        0xfe, // 3: delay 1
        0x90, 0x00, 0x13, // 4: set layer 0 at 0x13
        0xfe, // 7: delay 1
        0xff, // 8: end
        0, 0, 0, 0, 0, 0, 0, // padding to 0x10
        0xc0, 0x20, // 0x10: layer: delay 32
        0xff, // 0x12: layer: end
        0xc0, 0x30, // 0x13: layer: delay 48
        0xff, // 0x15: layer: end
    ];
    let mut c = SequenceChannel::new();
    c.enabled = true;
    let p = SequencePlayer::new();
    c.process(&p, &data);
    assert_eq!(c.layers[0].as_ref().unwrap().delay, 0x20);
    c.process(&p, &data);
    // Exactly one layer sits in slot 0 and it is the second one.
    let l = c.layers[0].as_ref().expect("slot 0 occupied");
    assert_eq!(l.delay, 0x30);
    assert_eq!(l.script_state.pc, 0x15);
    assert!(c.layers[1].is_none());
    assert!(c.layers[2].is_none());
    assert!(c.layers[3].is_none());
}

#[test]
fn note_trigger_duration_formula() {
    // duration = 0x80 * 128 / 256 = 64 and delay = 128, truncating.
    let data = [
        0x10u8, // note 0, pitch 0x10
        0x80, 0x80, // percentage 128 (two-byte form)
        0x0a, // velocity 10
        0x80, // duration 0x80
        0xff,
    ];
    let mut c = SequenceChannel::new();
    c.enabled = true;
    c.large_notes = true;
    let mut l = SequenceLayer::new(0, &c);
    l.process(&c, &data);
    assert_eq!(l.duration, 64);
    assert_eq!(l.delay, 128);
    assert_eq!(l.pitch, Some(0x10));
    assert_eq!(l.velocity_square, 100);
    assert_eq!(l.play_percentage, Some(128));
    assert!(!l.stop_something);
}

#[test]
fn note_decay_clears_pitch_at_duration() {
    // A note with percentage 4, duration operand 0x80: sounded part is 2
    // ticks, then the pitch clears while the countdown keeps running.
    let data = [0x05u8, 0x04, 0x0a, 0x80, 0xff];
    let mut c = SequenceChannel::new();
    c.enabled = true;
    c.large_notes = true;
    let mut l = SequenceLayer::new(0, &c);
    l.process(&c, &data);
    assert_eq!(l.delay, 4);
    assert_eq!(l.duration, 2);
    assert_eq!(l.pitch, Some(5));
    l.process(&c, &data);
    // delay 3 > duration 2: still sounding.
    assert_eq!(l.pitch, Some(5));
    assert!(!l.stop_something);
    l.process(&c, &data);
    // delay fell to 2 <= duration: decay begins, pitch clears.
    assert_eq!(l.pitch, None);
    assert!(l.stop_something);
}

#[test]
fn condition_register_wiring() {
    // SetVal 3; Subtract 3; Beqz taken — the delay instruction is skipped
    // and the script ends in one tick.
    let data = [
        0xccu8, 0x03, // 0: q = 3
        0xc8, 0x03, // 2: q -= 3
        0xfa, 0x00, 0x08, // 4: branch to 8 if q == 0
        0xfe, // 7: delay 1 (skipped)
        0xff, // 8: end
    ];
    let mut p = SequencePlayer::new();
    script_tick(&mut p, &data);
    assert!(p.finished);
    assert_eq!(p.delay, 0);
    assert!(p.fault.is_none());
}

#[test]
fn branch_before_set_is_a_fault() {
    let data = [0xfau8, 0x00, 0x00];
    let mut p = SequencePlayer::new();
    script_tick(&mut p, &data);
    assert!(p.finished);
    let fault = p.fault.expect("condition fault recorded");
    assert_eq!(fault.kind, FaultKind::ConditionUnset);
    assert_eq!(fault.pc, 0);
}

#[test]
fn note_repeat_without_percentage_is_a_fault() {
    // A repeat-encoding note before any percentage was stored.
    let data = [0x90u8, 0x0a, 0x40, 0xff];
    let mut c = SequenceChannel::new();
    c.enabled = true;
    c.large_notes = true;
    let mut l = SequenceLayer::new(0, &c);
    l.process(&c, &data);
    assert!(!l.enabled);
    assert_eq!(l.fault.unwrap().kind, FaultKind::ValueUnset);
}

#[test]
fn channel_fault_does_not_stop_player() {
    let data = [
        0xd7u8, 0x00, 0x01, // init channel 0
        0x90, 0x00, 0x09, // start channel 0 at 9
        0xfd, 0x10, // delay 16
        0xff, // 8: end
        0xf4, // 9: channel script: unknown opcode
    ];
    let mut p = SequencePlayer::new();
    script_tick(&mut p, &data);
    assert!(!p.finished);
    assert!(p.fault.is_none());
    let c = p.channels[0].as_ref().unwrap();
    assert!(!c.enabled);
    assert!(c.finished);
    assert_eq!(c.fault.unwrap().kind, FaultKind::UnknownOpcode(0xf4));
}

#[test]
fn channel_io_array_wiring() {
    let data = [
        0xccu8, 0x05, // 0: q = 5
        0x72, // 2: io[2] = q
        0x75, // 3: io[5] = q
        0x82, // 4: q = io[2]; io[2] = -1 (scratch slots clear on read)
        0x85, // 5: q = io[5]; io[5] stays
        0xfe, // 6: delay 1
        0xff,
    ];
    let mut c = SequenceChannel::new();
    c.enabled = true;
    let p = SequencePlayer::new();
    c.process(&p, &data);
    assert_eq!(c.sound_script_io[2], -1);
    assert_eq!(c.sound_script_io[5], 5);
    assert_eq!(c.script_state.q, Some(5));
}

#[test]
fn runaway_script_trips_the_watchdog() {
    // A jump to itself never yields; the tier faults instead of spinning.
    let data = [0xfbu8, 0x00, 0x00];
    let mut p = SequencePlayer::new();
    script_tick(&mut p, &data);
    assert!(p.finished);
    assert_eq!(p.fault.unwrap().kind, FaultKind::StepLimit);
}

#[test]
fn muted_player_pauses_scripts_but_notes_decay() {
    let data = [
        0xd7u8, 0x00, 0x01, // init channel 0
        0x90, 0x00, 0x09, // start channel 0 at 9
        0xfd, 0x10, // delay 16
        0xff, // 8: end
        0x90, 0x00, 0x0d, // 9: channel: set layer 0 at 13
        0xfe, // 12: channel: delay 1
        0xc0, 0x7f, // 13: layer: delay 127
        0xff, // 15: layer: end
    ];
    let mut p = SequencePlayer::new();
    script_tick(&mut p, &data);
    assert_eq!(p.channels[0].as_ref().unwrap().layers[0].as_ref().unwrap().delay, 127);
    let pc_before = p.script_state.pc;
    let ch_pc_before = p.channels[0].as_ref().unwrap().script_state.pc;
    p.muted = true;
    p.process(&data);
    // Both scripts are paused, but the layer's countdown still runs.
    assert_eq!(p.script_state.pc, pc_before);
    let c = p.channels[0].as_ref().unwrap();
    assert_eq!(c.script_state.pc, ch_pc_before);
    assert_eq!(c.layers[0].as_ref().unwrap().delay, 126);
}

#[test]
fn player_transposition_and_volume() {
    let data = [
        0xdfu8, 0xf4, // transpose -12
        0xde, 0x05, // transpose by +5
        0xdb, 0x7f, // volume 127
        0xdd, 0x78, // tempo 120
        0xfe, 0xff,
    ];
    let mut p = SequencePlayer::new();
    script_tick(&mut p, &data);
    assert_eq!(p.transposition, -7);
    assert_eq!(p.volume, 127);
    assert_eq!(p.tempo, 120 * 48);
}

#[test]
fn channel_parameters_update() {
    let data = [
        0xddu8, 0x40, // pan 64
        0xd4, 0x28, // reverb 40
        0x64, // note priority 4
        0xdb, 0x0c, // transpose 12
        0xde, 0x40, 0x00, 0x00, // freq scale 0x4000 (and a padding byte)
        0xc4, // large notes on
        0xfe, 0xff,
    ];
    let mut c = SequenceChannel::new();
    c.enabled = true;
    let p = SequencePlayer::new();
    c.process(&p, &data);
    assert_eq!(c.pan, 64);
    assert_eq!(c.reverb, 40);
    assert_eq!(c.note_priority, 4);
    assert_eq!(c.transposition, 12);
    assert_eq!(c.freq_scale, 0x4000);
    assert!(c.large_notes);
}

#[test]
fn small_notes_use_short_settings() {
    let data = [
        0xc1u8, 0x50, // short velocity 0x50
        0xc9, 0x40, // short duration 0x40
        0x05, 0x20, // small note 0: pitch 5, percentage 0x20
        0xff,
    ];
    let mut c = SequenceChannel::new();
    c.enabled = true;
    c.large_notes = false;
    let mut l = SequenceLayer::new(0, &c);
    l.process(&c, &data);
    assert_eq!(l.pitch, Some(5));
    assert_eq!(l.velocity_square, 0x50 * 0x50);
    assert_eq!(l.note_duration, 0x40);
    assert_eq!(l.delay, 0x20);
    // duration = 0x40 * 0x20 / 256 = 8.
    assert_eq!(l.duration, 8);
}

#[test]
fn short_note_tables_hold_documented_defaults() {
    // Entry 0 of each default table, picked up by a from-table setting.
    let data = [
        0xd0u8, // velocity from table entry 0
        0xe0, // duration from table entry 0
        0x45, // small note 1, pitch 5 — but no default percentage: fault
        0xff,
    ];
    let mut c = SequenceChannel::new();
    c.enabled = true;
    c.large_notes = false;
    let mut l = SequenceLayer::new(0, &c);
    l.process(&c, &data);
    assert_eq!(l.short_velocity, 12);
    assert_eq!(l.short_duration, 229);
    assert_eq!(l.fault.unwrap().kind, FaultKind::ValueUnset);
}
