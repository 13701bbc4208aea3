//! The channel tier: the mid-tier interpreter. A channel owns four note
//! layers, drives them once per tick, and executes its own script between
//! delays: setting channel parameters, writing the condition register and
//! its eight-byte I/O array, and creating or freeing layers.

use vstd::prelude::*;
use vstd::pervasive::VecAdditionalExecFns;

use crate::channel::{spec_read_chan_cmd, ChannelCmd};
use crate::state::layer::{
    layer_wf, spec_layer_new, spec_layer_tick, LayerV, SequenceLayer,
};
use crate::state::player::SequencePlayer;
use crate::state::{
    fault_of_decode, script_wf, spec_fault_of_decode, spec_op_break, spec_op_call, spec_op_end,
    spec_op_loop, spec_op_loop_end, spec_script_new, BranchCond, Fault, FaultKind, MuteBehavior,
    ScriptState, ScriptStateV, Step, LAYERS_MAX, NOTE_PRIORITY_DEFAULT, STEP_LIMIT,
};
use crate::bytes::{i8_of_u8, spec_i8_of_u8, spec_u8_of_i8, u8_of_i8};

verus! {

/// Mathematical image of a channel.
pub struct ChannelV {
    pub enabled: bool,
    pub finished: bool,
    pub stop_script: bool,
    pub has_instrument: bool,
    pub stereo_headset_effects: bool,
    pub large_notes: bool,
    pub reverb: u8,
    pub note_priority: u8,
    pub vibrato_rate_start: u16,
    pub vibrato_extent_start: u16,
    pub vibrato_rate_target: u16,
    pub vibrato_extent_target: u16,
    pub vibrato_rate_change_delay: u16,
    pub vibrato_extent_change_delay: u16,
    pub vibrato_delay: u16,
    pub delay: u16,
    pub transposition: i16,
    pub volume_scale: u8,
    pub volume: u8,
    pub pan: u8,
    pub pan_channel_weight: u8,
    pub freq_scale: u16,
    pub layers: Seq<Option<LayerV>>,
    pub io: Seq<i8>,
    pub script: ScriptStateV,
    pub fault: Option<Fault>,
}

/// One sequence channel. Volumes and pans are kept as the raw operand
/// values: 127 is unit volume, pan runs 0..=128 with 64 centered, the
/// pan weight runs 0..=128 for 0..=1, and the frequency scale is a
/// multiplier of `0x8000`ths.
pub struct SequenceChannel {
    /// Whether the channel runs; set by the player's start instruction.
    pub enabled: bool,
    /// Set when the channel's script ends or faults.
    pub finished: bool,
    /// When set, the script pauses but the layers keep decaying.
    pub stop_script: bool,
    /// Whether an instrument has been assigned.
    pub has_instrument: bool,
    /// Whether stereo/headset pan and volume effects apply.
    pub stereo_headset_effects: bool,
    /// Which note encoding the channel's layers use.
    pub large_notes: bool,
    /// Reverb (dry/wet) amount.
    pub reverb: u8,
    /// Priority of this channel's notes when voices run out.
    pub note_priority: u8,
    /// Vibrato rate at the start of its ramp.
    pub vibrato_rate_start: u16,
    /// Vibrato extent at the start of its ramp.
    pub vibrato_extent_start: u16,
    /// Vibrato rate the ramp approaches.
    pub vibrato_rate_target: u16,
    /// Vibrato extent the ramp approaches.
    pub vibrato_extent_target: u16,
    /// Ticks over which the vibrato rate ramps.
    pub vibrato_rate_change_delay: u16,
    /// Ticks over which the vibrato extent ramps.
    pub vibrato_extent_change_delay: u16,
    /// Ticks before vibrato starts on each note.
    pub vibrato_delay: u16,
    /// Ticks until the channel's script resumes.
    pub delay: u16,
    /// Transposition in semitones.
    pub transposition: i16,
    /// Second volume scale factor (raw operand, 127 is unit).
    pub volume_scale: u8,
    /// Volume (raw operand, 127 is unit).
    pub volume: u8,
    /// Pan (0..=128).
    pub pan: u8,
    /// Weight of channel pan against note pan (0..=128 for 0..=1).
    pub pan_channel_weight: u8,
    /// Frequency multiplier in `0x8000`ths (0x8000 is unit).
    pub freq_scale: u16,
    /// The four layer slots.
    pub layers: Vec<Option<SequenceLayer>>,
    /// Eight scratch bytes exchanged between game logic and the script.
    pub sound_script_io: [i8; 8],
    /// The channel's script cursor.
    pub script_state: ScriptState,
    /// Diagnostic record of the fault that disabled the channel, if one did.
    pub fault: Option<Fault>,
}

impl View for SequenceChannel {
    type V = ChannelV;

    open spec fn view(&self) -> ChannelV {
        ChannelV {
            enabled: self.enabled,
            finished: self.finished,
            stop_script: self.stop_script,
            has_instrument: self.has_instrument,
            stereo_headset_effects: self.stereo_headset_effects,
            large_notes: self.large_notes,
            reverb: self.reverb,
            note_priority: self.note_priority,
            vibrato_rate_start: self.vibrato_rate_start,
            vibrato_extent_start: self.vibrato_extent_start,
            vibrato_rate_target: self.vibrato_rate_target,
            vibrato_extent_target: self.vibrato_extent_target,
            vibrato_rate_change_delay: self.vibrato_rate_change_delay,
            vibrato_extent_change_delay: self.vibrato_extent_change_delay,
            vibrato_delay: self.vibrato_delay,
            delay: self.delay,
            transposition: self.transposition,
            volume_scale: self.volume_scale,
            volume: self.volume,
            pan: self.pan,
            pan_channel_weight: self.pan_channel_weight,
            freq_scale: self.freq_scale,
            layers: Seq::new(
                self.layers@.len(),
                |j: int|
                    match self.layers@[j] {
                        Some(l) => Some(l@),
                        None => None,
                    },
            ),
            io: self.sound_script_io@,
            script: self.script_state@,
            fault: self.fault,
        }
    }
}

/// Whether a channel image is well formed: a well-formed cursor, four
/// layer slots each holding a well-formed layer, and eight I/O bytes.
pub open spec fn channel_wf(c: ChannelV) -> bool {
    &&& script_wf(c.script)
    &&& c.layers.len() == LAYERS_MAX
    &&& (forall|j: int|
        0 <= j < c.layers.len() ==> (#[trigger] c.layers[j] matches Some(l) ==> layer_wf(l)))
    &&& c.io.len() == 8
}

/// The channel an init-channels instruction creates: disabled, with unit
/// volumes, centered pan, default vibrato, and empty layer slots.
pub open spec fn spec_channel_new() -> ChannelV {
    ChannelV {
        enabled: false,
        finished: false,
        stop_script: false,
        has_instrument: false,
        stereo_headset_effects: false,
        large_notes: false,
        reverb: 0,
        note_priority: NOTE_PRIORITY_DEFAULT,
        vibrato_rate_start: 0x800,
        vibrato_extent_start: 0,
        vibrato_rate_target: 0x800,
        vibrato_extent_target: 0,
        vibrato_rate_change_delay: 0,
        vibrato_extent_change_delay: 0,
        vibrato_delay: 0,
        delay: 0,
        transposition: 0,
        volume_scale: 127,
        volume: 127,
        pan: 64,
        pan_channel_weight: 128,
        freq_scale: 0x8000,
        layers: Seq::new(LAYERS_MAX as nat, |j: int| None),
        io: Seq::new(8, |i: int| -1i8),
        script: spec_script_new(0),
        fault: None,
    }
}

/// The channel after a fault: disabled and finished, with the diagnostic
/// recorded.
pub open spec fn spec_channel_fault(c: ChannelV, pc: u16, kind: FaultKind) -> ChannelV {
    ChannelV { enabled: false, finished: true, fault: Some(Fault { pc, kind }), ..c }
}

/// A signed byte minus a signed byte, wrapping as the hardware register
/// does.
pub open spec fn spec_i8_wrapping_sub(a: i8, b: i8) -> i8 {
    let d = a as int - b as int;
    if d < -128 {
        (d + 256) as i8
    } else if d > 127 {
        (d - 256) as i8
    } else {
        d as i8
    }
}

/// The channel after one instruction, the cursor already past it. `pc0` is
/// the instruction's own offset, for diagnostics. Instructions whose
/// effects lie beyond this driver (dyntable indirection, ADSR, bank
/// switching, writes to the shared buffer, sibling-channel access) fault
/// the channel rather than guess.
pub open spec fn spec_channel_apply(
    c: ChannelV,
    cmd: ChannelCmd,
    pc0: u16,
    data: Seq<u8>,
) -> Step<ChannelV>
    recommends
        channel_wf(c),
{
    match cmd {
        ChannelCmd::End => match spec_op_end(c.script) {
            None => Step::Stop(ChannelV { enabled: false, finished: true, ..c }),
            Some(s) => Step::Next(ChannelV { script: s, ..c }),
        },
        ChannelCmd::Delay1 => Step::Stop(c),
        ChannelCmd::Delay(v) => Step::Stop(ChannelV { delay: v, ..c }),
        ChannelCmd::Call(addr) => match spec_op_call(c.script, addr) {
            Ok(s) => Step::Next(ChannelV { script: s, ..c }),
            Err(k) => Step::Stop(spec_channel_fault(c, pc0, k)),
        },
        ChannelCmd::Jump(addr) => Step::Next(
            ChannelV { script: ScriptStateV { pc: addr, ..c.script }, ..c },
        ),
        ChannelCmd::Beqz(addr) => match crate::state::spec_op_branch(
            c.script,
            addr,
            BranchCond::Eq0,
        ) {
            Ok(s) => Step::Next(ChannelV { script: s, ..c }),
            Err(k) => Step::Stop(spec_channel_fault(c, pc0, k)),
        },
        ChannelCmd::Bltz(addr) => match crate::state::spec_op_branch(
            c.script,
            addr,
            BranchCond::Lt0,
        ) {
            Ok(s) => Step::Next(ChannelV { script: s, ..c }),
            Err(k) => Step::Stop(spec_channel_fault(c, pc0, k)),
        },
        ChannelCmd::Bgez(addr) => match crate::state::spec_op_branch(
            c.script,
            addr,
            BranchCond::Ge0,
        ) {
            Ok(s) => Step::Next(ChannelV { script: s, ..c }),
            Err(k) => Step::Stop(spec_channel_fault(c, pc0, k)),
        },
        ChannelCmd::Loop(n) => match spec_op_loop(c.script, n) {
            Ok(s) => Step::Next(ChannelV { script: s, ..c }),
            Err(k) => Step::Stop(spec_channel_fault(c, pc0, k)),
        },
        ChannelCmd::LoopEnd => match spec_op_loop_end(c.script) {
            Ok(s) => Step::Next(ChannelV { script: s, ..c }),
            Err(k) => Step::Stop(spec_channel_fault(c, pc0, k)),
        },
        ChannelCmd::Break => match spec_op_break(c.script) {
            Ok(s) => Step::Next(ChannelV { script: s, ..c }),
            Err(k) => Step::Stop(spec_channel_fault(c, pc0, k)),
        },
        ChannelCmd::Hang => Step::Stop(spec_channel_fault(c, pc0, FaultKind::UnsupportedCmd)),
        // The note pool is managed outside this interpreter.
        ChannelCmd::ReserveNotes(_) => Step::Next(c),
        ChannelCmd::UnReserveNotes => Step::Next(c),
        ChannelCmd::SetVibratoDelay(x) => Step::Next(ChannelV { vibrato_delay: x as u16, ..c }),
        ChannelCmd::SetVibratoExtentLinear(x, y, z) => Step::Next(
            ChannelV {
                vibrato_extent_start: x as u16,
                vibrato_extent_target: y as u16,
                vibrato_extent_change_delay: z as u16,
                ..c
            },
        ),
        ChannelCmd::SetVibratoRateLinear(x, y, z) => Step::Next(
            ChannelV {
                vibrato_rate_start: x as u16,
                vibrato_rate_target: y as u16,
                vibrato_rate_change_delay: z as u16,
                ..c
            },
        ),
        ChannelCmd::SetVibratoExtent(x) => Step::Next(
            ChannelV {
                vibrato_extent_start: x as u16,
                vibrato_extent_target: x as u16,
                vibrato_extent_change_delay: 0,
                ..c
            },
        ),
        ChannelCmd::SetVibratoRate(x) => Step::Next(
            ChannelV {
                vibrato_rate_start: x as u16,
                vibrato_rate_target: x as u16,
                vibrato_rate_change_delay: 0,
                ..c
            },
        ),
        ChannelCmd::SetVolScale(v) => Step::Next(ChannelV { volume_scale: v, ..c }),
        ChannelCmd::SetVol(v) => Step::Next(ChannelV { volume: v, ..c }),
        ChannelCmd::FreqScale(v) => Step::Next(ChannelV { freq_scale: v, ..c }),
        ChannelCmd::SetPan(p) => Step::Next(ChannelV { pan: p, ..c }),
        ChannelCmd::SetPanChanWeight(w) => Step::Next(ChannelV { pan_channel_weight: w, ..c }),
        ChannelCmd::Transpose(t) => Step::Next(ChannelV { transposition: t as i16, ..c }),
        ChannelCmd::SetDecayRelease(_) => Step::Stop(
            spec_channel_fault(c, pc0, FaultKind::UnsupportedCmd),
        ),
        ChannelCmd::SetEnvelope(_) => Step::Stop(
            spec_channel_fault(c, pc0, FaultKind::UnsupportedCmd),
        ),
        ChannelCmd::SetSustain(_) => Step::Stop(
            spec_channel_fault(c, pc0, FaultKind::UnsupportedCmd),
        ),
        // Documented as having no effect.
        ChannelCmd::SetUpdatesPerFrame(_) => Step::Next(c),
        ChannelCmd::SetReverb(v) => Step::Next(ChannelV { reverb: v, ..c }),
        ChannelCmd::PitchBend(_) => Step::Stop(
            spec_channel_fault(c, pc0, FaultKind::UnsupportedCmd),
        ),
        ChannelCmd::SetNoteAllocationPolicy(_) => Step::Stop(
            spec_channel_fault(c, pc0, FaultKind::UnsupportedCmd),
        ),
        ChannelCmd::StereoHeadsetEffects(v) => Step::Next(
            ChannelV { stereo_headset_effects: v != 0, ..c },
        ),
        ChannelCmd::SetVal(v) => Step::Next(
            ChannelV { script: ScriptStateV { q: Some(spec_i8_of_u8(v)), ..c.script }, ..c },
        ),
        ChannelCmd::ReadSeq(x) => match c.script.q {
            None => Step::Stop(spec_channel_fault(c, pc0, FaultKind::ConditionUnset)),
            Some(q) => {
                let idx = x as int + q as int;
                if 0 <= idx < data.len() {
                    Step::Next(
                        ChannelV {
                            script: ScriptStateV {
                                q: Some(spec_i8_of_u8(data[idx])),
                                ..c.script
                            },
                            ..c
                        },
                    )
                } else {
                    Step::Stop(spec_channel_fault(c, pc0, FaultKind::IndexOutOfBounds))
                }
            },
        },
        ChannelCmd::SetMuteBhv(_) => Step::Stop(
            spec_channel_fault(c, pc0, FaultKind::UnsupportedCmd),
        ),
        ChannelCmd::BitAnd(v) => match c.script.q {
            None => Step::Stop(spec_channel_fault(c, pc0, FaultKind::ConditionUnset)),
            Some(q) => Step::Next(
                ChannelV {
                    script: ScriptStateV {
                        q: Some(spec_i8_of_u8(spec_u8_of_i8(q) & v)),
                        ..c.script
                    },
                    ..c
                },
            ),
        },
        ChannelCmd::Subtract(v) => match c.script.q {
            None => Step::Stop(spec_channel_fault(c, pc0, FaultKind::ConditionUnset)),
            Some(q) => Step::Next(
                ChannelV {
                    script: ScriptStateV {
                        q: Some(spec_i8_wrapping_sub(q, spec_i8_of_u8(v))),
                        ..c.script
                    },
                    ..c
                },
            ),
        },
        ChannelCmd::WriteSeq(_, _) => Step::Stop(
            spec_channel_fault(c, pc0, FaultKind::UnsupportedCmd),
        ),
        ChannelCmd::SetBank(_) => Step::Stop(
            spec_channel_fault(c, pc0, FaultKind::UnsupportedCmd),
        ),
        ChannelCmd::DynCall => Step::Stop(spec_channel_fault(c, pc0, FaultKind::UnsupportedCmd)),
        ChannelCmd::DynSetDynTable => Step::Stop(
            spec_channel_fault(c, pc0, FaultKind::UnsupportedCmd),
        ),
        ChannelCmd::SetDynTable(_) => Step::Stop(
            spec_channel_fault(c, pc0, FaultKind::UnsupportedCmd),
        ),
        ChannelCmd::DynSetLayer(_) => Step::Stop(
            spec_channel_fault(c, pc0, FaultKind::UnsupportedCmd),
        ),
        ChannelCmd::LargeNotesOn => Step::Next(ChannelV { large_notes: true, ..c }),
        ChannelCmd::LargeNotesOff => Step::Next(ChannelV { large_notes: false, ..c }),
        // Instrument resolution is the sound bank's; kept as in the driver.
        ChannelCmd::SetInstr(_) => Step::Next(c),
        ChannelCmd::FreeLayer(n) => {
            if n < LAYERS_MAX as u8 {
                Step::Next(ChannelV { layers: c.layers.update(n as int, None), ..c })
            } else {
                Step::Stop(spec_channel_fault(c, pc0, FaultKind::IndexOutOfBounds))
            }
        },
        ChannelCmd::SetLayer(n, addr) => {
            if n < LAYERS_MAX as u8 {
                Step::Next(
                    ChannelV { layers: c.layers.update(n as int, Some(spec_layer_new(addr))), ..c },
                )
            } else {
                Step::Stop(spec_channel_fault(c, pc0, FaultKind::IndexOutOfBounds))
            }
        },
        ChannelCmd::IoReadVal(n) => {
            if n < 8 {
                let q = Some(c.io[n as int]);
                let io = if n < 4 {
                    c.io.update(n as int, -1i8)
                } else {
                    c.io
                };
                Step::Next(ChannelV { script: ScriptStateV { q, ..c.script }, io, ..c })
            } else {
                Step::Stop(spec_channel_fault(c, pc0, FaultKind::IndexOutOfBounds))
            }
        },
        ChannelCmd::IoWriteVal(n) => {
            if n < 8 {
                match c.script.q {
                    None => Step::Stop(spec_channel_fault(c, pc0, FaultKind::ConditionUnset)),
                    Some(q) => Step::Next(ChannelV { io: c.io.update(n as int, q), ..c }),
                }
            } else {
                Step::Stop(spec_channel_fault(c, pc0, FaultKind::IndexOutOfBounds))
            }
        },
        ChannelCmd::IoReadValSub(n) => {
            if n < 8 {
                match c.script.q {
                    None => Step::Stop(spec_channel_fault(c, pc0, FaultKind::ConditionUnset)),
                    Some(q) => Step::Next(
                        ChannelV {
                            script: ScriptStateV {
                                q: Some(spec_i8_wrapping_sub(q, c.io[n as int])),
                                ..c.script
                            },
                            ..c
                        },
                    ),
                }
            } else {
                Step::Stop(spec_channel_fault(c, pc0, FaultKind::IndexOutOfBounds))
            }
        },
        ChannelCmd::IoReadVal2(_, _) => Step::Stop(
            spec_channel_fault(c, pc0, FaultKind::UnsupportedCmd),
        ),
        ChannelCmd::IoWriteVal2(_, _) => Step::Stop(
            spec_channel_fault(c, pc0, FaultKind::UnsupportedCmd),
        ),
        ChannelCmd::SetNotePriority(n) => Step::Next(ChannelV { note_priority: n, ..c }),
        ChannelCmd::DisableChannel(_) => Step::Stop(
            spec_channel_fault(c, pc0, FaultKind::UnsupportedCmd),
        ),
        ChannelCmd::StartChannel(_, _) => Step::Stop(
            spec_channel_fault(c, pc0, FaultKind::UnsupportedCmd),
        ),
        ChannelCmd::TestLayerFinished(n) => {
            if n < LAYERS_MAX as u8 {
                let fin = match c.layers[n as int] {
                    None => true,
                    Some(l) => !l.enabled,
                };
                Step::Next(
                    ChannelV {
                        script: ScriptStateV {
                            q: Some(if fin { 1i8 } else { 0i8 }),
                            ..c.script
                        },
                        ..c
                    },
                )
            } else {
                Step::Stop(spec_channel_fault(c, pc0, FaultKind::IndexOutOfBounds))
            }
        },
    }
}

/// The channel after running its script from the cursor for at most `fuel`
/// instructions: the first yielded state, or the faulted channel.
pub open spec fn spec_channel_run(c: ChannelV, data: Seq<u8>, fuel: nat) -> ChannelV
    decreases fuel,
{
    if fuel == 0 {
        spec_channel_fault(c, c.script.pc, FaultKind::StepLimit)
    } else {
        let pc0 = c.script.pc;
        if pc0 as int > data.len() {
            spec_channel_fault(c, pc0, FaultKind::PcOutOfBounds)
        } else {
            match spec_read_chan_cmd(data.subrange(pc0 as int, data.len() as int)) {
                Err(e) => spec_channel_fault(c, pc0, spec_fault_of_decode(e)),
                Ok(r) => if pc0 + r.1 > 0xffff {
                    spec_channel_fault(c, pc0, FaultKind::PcOutOfBounds)
                } else {
                    let c1 = ChannelV {
                        script: ScriptStateV { pc: (pc0 + r.1) as u16, ..c.script },
                        ..c
                    };
                    match spec_channel_apply(c1, r.0, pc0, data) {
                        Step::Next(c2) => spec_channel_run(c2, data, (fuel - 1) as nat),
                        Step::Stop(c2) => c2,
                    }
                },
            }
        }
    }
}

/// All four layer slots after one tick, under the channel's note encoding.
pub open spec fn spec_layers_advanced(c: ChannelV, data: Seq<u8>) -> Seq<Option<LayerV>> {
    Seq::new(
        c.layers.len(),
        |j: int|
            match c.layers[j] {
                None => None,
                Some(l) => Some(spec_layer_tick(l, c.large_notes, data)),
            },
    )
}

/// The channel after one tick given the player's mute context: disabled
/// channels freeze; a stopped script or a muted player still lets the
/// layers decay; otherwise the delay counts down and, at zero, the script
/// runs to its next yield; the layers then advance in every running case.
pub open spec fn spec_channel_tick(
    c: ChannelV,
    player_muted: bool,
    player_mute_behavior: MuteBehavior,
    data: Seq<u8>,
) -> ChannelV {
    if !c.enabled {
        c
    } else if c.stop_script {
        ChannelV { layers: spec_layers_advanced(c, data), ..c }
    } else if player_muted && player_mute_behavior.spec_stop_script() {
        ChannelV { layers: spec_layers_advanced(c, data), ..c }
    } else {
        let c1 = if c.delay != 0 {
            ChannelV { delay: (c.delay - 1) as u16, ..c }
        } else {
            c
        };
        let c2 = if c1.delay == 0 {
            spec_channel_run(c1, data, STEP_LIMIT as nat)
        } else {
            c1
        };
        ChannelV { layers: spec_layers_advanced(c2, data), ..c2 }
    }
}

impl SequenceChannel {
    /// A fresh, disabled channel with default parameters and empty layer
    /// slots, as the player's init-channels instruction creates it.
    pub fn new() -> (r: Self)
        ensures
            r@ == spec_channel_new(),
            channel_wf(r@),
    {
        let mut layers: Vec<Option<SequenceLayer>> = Vec::new();
        layers.push(None);
        layers.push(None);
        layers.push(None);
        layers.push(None);
        let r = SequenceChannel {
            enabled: false,
            finished: false,
            stop_script: false,
            has_instrument: false,
            stereo_headset_effects: false,
            large_notes: false,
            reverb: 0,
            note_priority: NOTE_PRIORITY_DEFAULT,
            vibrato_rate_start: 0x800,
            vibrato_extent_start: 0,
            vibrato_rate_target: 0x800,
            vibrato_extent_target: 0,
            vibrato_rate_change_delay: 0,
            vibrato_extent_change_delay: 0,
            vibrato_delay: 0,
            delay: 0,
            transposition: 0,
            volume_scale: 127,
            volume: 127,
            pan: 64,
            pan_channel_weight: 128,
            freq_scale: 0x8000,
            layers,
            sound_script_io: [-1; 8],
            script_state: ScriptState::new(0),
            fault: None,
        };
        proof {
            assert(r@.layers =~= spec_channel_new().layers);
            assert(r@.io =~= spec_channel_new().io);
        }
        r
    }

    /// Disables the channel and records the fault.
    fn set_fault(&mut self, pc: u16, kind: FaultKind)
        ensures
            final(self)@ == spec_channel_fault(old(self)@, pc, kind),
    {
        self.enabled = false;
        self.finished = true;
        self.fault = Some(Fault { pc, kind });
    }

    /// Executes one decoded instruction, the cursor already past it.
    /// Returns whether execution continues within this tick.
    #[verifier::rlimit(100)]
    fn apply(&mut self, cmd: ChannelCmd, pc0: u16, data: &[u8]) -> (go_on: bool)
        requires
            channel_wf(old(self)@),
        ensures
            match spec_channel_apply(old(self)@, cmd, pc0, data@) {
                Step::Next(c) => go_on && final(self)@ == c,
                Step::Stop(c) => !go_on && final(self)@ == c,
            },
            channel_wf(final(self)@),
    {
        match cmd {
            ChannelCmd::End => {
                if self.script_state.op_end() {
                    self.enabled = false;
                    self.finished = true;
                    false
                } else {
                    true
                }
            },
            ChannelCmd::Delay1 => false,
            ChannelCmd::Delay(v) => {
                self.delay = v;
                false
            },
            ChannelCmd::Call(addr) => {
                match self.script_state.op_call(addr) {
                    Ok(()) => true,
                    Err(k) => {
                        self.set_fault(pc0, k);
                        false
                    },
                }
            },
            ChannelCmd::Jump(addr) => {
                self.script_state.pc = addr;
                true
            },
            ChannelCmd::Beqz(addr) => {
                match self.script_state.op_branch(addr, BranchCond::Eq0) {
                    Ok(()) => true,
                    Err(k) => {
                        self.set_fault(pc0, k);
                        false
                    },
                }
            },
            ChannelCmd::Bltz(addr) => {
                match self.script_state.op_branch(addr, BranchCond::Lt0) {
                    Ok(()) => true,
                    Err(k) => {
                        self.set_fault(pc0, k);
                        false
                    },
                }
            },
            ChannelCmd::Bgez(addr) => {
                match self.script_state.op_branch(addr, BranchCond::Ge0) {
                    Ok(()) => true,
                    Err(k) => {
                        self.set_fault(pc0, k);
                        false
                    },
                }
            },
            ChannelCmd::Loop(n) => {
                match self.script_state.op_loop(n) {
                    Ok(()) => true,
                    Err(k) => {
                        self.set_fault(pc0, k);
                        false
                    },
                }
            },
            ChannelCmd::LoopEnd => {
                match self.script_state.op_loop_end() {
                    Ok(()) => true,
                    Err(k) => {
                        self.set_fault(pc0, k);
                        false
                    },
                }
            },
            ChannelCmd::Break => {
                match self.script_state.op_break() {
                    Ok(()) => true,
                    Err(k) => {
                        self.set_fault(pc0, k);
                        false
                    },
                }
            },
            ChannelCmd::Hang => {
                self.set_fault(pc0, FaultKind::UnsupportedCmd);
                false
            },
            ChannelCmd::ReserveNotes(_) => true,
            ChannelCmd::UnReserveNotes => true,
            ChannelCmd::SetVibratoDelay(x) => {
                self.vibrato_delay = x as u16;
                true
            },
            ChannelCmd::SetVibratoExtentLinear(x, y, z) => {
                self.vibrato_extent_start = x as u16;
                self.vibrato_extent_target = y as u16;
                self.vibrato_extent_change_delay = z as u16;
                true
            },
            ChannelCmd::SetVibratoRateLinear(x, y, z) => {
                self.vibrato_rate_start = x as u16;
                self.vibrato_rate_target = y as u16;
                self.vibrato_rate_change_delay = z as u16;
                true
            },
            ChannelCmd::SetVibratoExtent(x) => {
                self.vibrato_extent_start = x as u16;
                self.vibrato_extent_target = x as u16;
                self.vibrato_extent_change_delay = 0;
                true
            },
            ChannelCmd::SetVibratoRate(x) => {
                self.vibrato_rate_start = x as u16;
                self.vibrato_rate_target = x as u16;
                self.vibrato_rate_change_delay = 0;
                true
            },
            ChannelCmd::SetVolScale(v) => {
                self.volume_scale = v;
                true
            },
            ChannelCmd::SetVol(v) => {
                self.volume = v;
                true
            },
            ChannelCmd::FreqScale(v) => {
                self.freq_scale = v;
                true
            },
            ChannelCmd::SetPan(p) => {
                self.pan = p;
                true
            },
            ChannelCmd::SetPanChanWeight(w) => {
                self.pan_channel_weight = w;
                true
            },
            ChannelCmd::Transpose(t) => {
                self.transposition = t as i16;
                true
            },
            ChannelCmd::SetDecayRelease(_) => {
                self.set_fault(pc0, FaultKind::UnsupportedCmd);
                false
            },
            ChannelCmd::SetEnvelope(_) => {
                self.set_fault(pc0, FaultKind::UnsupportedCmd);
                false
            },
            ChannelCmd::SetSustain(_) => {
                self.set_fault(pc0, FaultKind::UnsupportedCmd);
                false
            },
            ChannelCmd::SetUpdatesPerFrame(_) => true,
            ChannelCmd::SetReverb(v) => {
                self.reverb = v;
                true
            },
            ChannelCmd::PitchBend(_) => {
                self.set_fault(pc0, FaultKind::UnsupportedCmd);
                false
            },
            ChannelCmd::SetNoteAllocationPolicy(_) => {
                self.set_fault(pc0, FaultKind::UnsupportedCmd);
                false
            },
            ChannelCmd::StereoHeadsetEffects(v) => {
                self.stereo_headset_effects = v != 0;
                true
            },
            ChannelCmd::SetVal(v) => {
                self.script_state.q = Some(i8_of_u8(v));
                true
            },
            ChannelCmd::ReadSeq(x) => {
                match self.script_state.q {
                    None => {
                        self.set_fault(pc0, FaultKind::ConditionUnset);
                        false
                    },
                    Some(q) => {
                        let idx: i32 = x as i32 + q as i32;
                        if 0 <= idx && (idx as usize) < data.len() {
                            self.script_state.q = Some(i8_of_u8(data[idx as usize]));
                            true
                        } else {
                            self.set_fault(pc0, FaultKind::IndexOutOfBounds);
                            false
                        }
                    },
                }
            },
            ChannelCmd::SetMuteBhv(_) => {
                self.set_fault(pc0, FaultKind::UnsupportedCmd);
                false
            },
            ChannelCmd::BitAnd(v) => {
                match self.script_state.q {
                    None => {
                        self.set_fault(pc0, FaultKind::ConditionUnset);
                        false
                    },
                    Some(q) => {
                        self.script_state.q = Some(i8_of_u8(u8_of_i8(q) & v));
                        true
                    },
                }
            },
            ChannelCmd::Subtract(v) => {
                match self.script_state.q {
                    None => {
                        self.set_fault(pc0, FaultKind::ConditionUnset);
                        false
                    },
                    Some(q) => {
                        self.script_state.q = Some(i8_wrapping_sub(q, i8_of_u8(v)));
                        true
                    },
                }
            },
            ChannelCmd::WriteSeq(_, _) => {
                self.set_fault(pc0, FaultKind::UnsupportedCmd);
                false
            },
            ChannelCmd::SetBank(_) => {
                self.set_fault(pc0, FaultKind::UnsupportedCmd);
                false
            },
            ChannelCmd::DynCall => {
                self.set_fault(pc0, FaultKind::UnsupportedCmd);
                false
            },
            ChannelCmd::DynSetDynTable => {
                self.set_fault(pc0, FaultKind::UnsupportedCmd);
                false
            },
            ChannelCmd::SetDynTable(_) => {
                self.set_fault(pc0, FaultKind::UnsupportedCmd);
                false
            },
            ChannelCmd::DynSetLayer(_) => {
                self.set_fault(pc0, FaultKind::UnsupportedCmd);
                false
            },
            ChannelCmd::LargeNotesOn => {
                self.large_notes = true;
                true
            },
            ChannelCmd::LargeNotesOff => {
                self.large_notes = false;
                true
            },
            ChannelCmd::SetInstr(_) => true,
            ChannelCmd::FreeLayer(n) => {
                if n < 4 {
                    self.layers.set(n as usize, None);
                    proof {
                        assert(self@.layers =~= old(self)@.layers.update(n as int, None));
                    }
                    true
                } else {
                    self.set_fault(pc0, FaultKind::IndexOutOfBounds);
                    false
                }
            },
            ChannelCmd::SetLayer(n, addr) => {
                if n < 4 {
                    let l = SequenceLayer::new(addr, self);
                    self.layers.set(n as usize, Some(l));
                    proof {
                        assert(self@.layers =~= old(self)@.layers.update(
                            n as int,
                            Some(spec_layer_new(addr)),
                        ));
                    }
                    true
                } else {
                    self.set_fault(pc0, FaultKind::IndexOutOfBounds);
                    false
                }
            },
            ChannelCmd::IoReadVal(n) => {
                if n < 8 {
                    self.script_state.q = Some(self.sound_script_io[n as usize]);
                    if n < 4 {
                        self.sound_script_io[n as usize] = -1;
                    }
                    true
                } else {
                    self.set_fault(pc0, FaultKind::IndexOutOfBounds);
                    false
                }
            },
            ChannelCmd::IoWriteVal(n) => {
                if n < 8 {
                    match self.script_state.q {
                        None => {
                            self.set_fault(pc0, FaultKind::ConditionUnset);
                            false
                        },
                        Some(q) => {
                            self.sound_script_io[n as usize] = q;
                            true
                        },
                    }
                } else {
                    self.set_fault(pc0, FaultKind::IndexOutOfBounds);
                    false
                }
            },
            ChannelCmd::IoReadValSub(n) => {
                if n < 8 {
                    match self.script_state.q {
                        None => {
                            self.set_fault(pc0, FaultKind::ConditionUnset);
                            false
                        },
                        Some(q) => {
                            let v: i8 = self.sound_script_io[n as usize];
                            self.script_state.q = Some(i8_wrapping_sub(q, v));
                            true
                        },
                    }
                } else {
                    self.set_fault(pc0, FaultKind::IndexOutOfBounds);
                    false
                }
            },
            ChannelCmd::IoReadVal2(_, _) => {
                self.set_fault(pc0, FaultKind::UnsupportedCmd);
                false
            },
            ChannelCmd::IoWriteVal2(_, _) => {
                self.set_fault(pc0, FaultKind::UnsupportedCmd);
                false
            },
            ChannelCmd::SetNotePriority(n) => {
                self.note_priority = n;
                true
            },
            ChannelCmd::DisableChannel(_) => {
                self.set_fault(pc0, FaultKind::UnsupportedCmd);
                false
            },
            ChannelCmd::StartChannel(_, _) => {
                self.set_fault(pc0, FaultKind::UnsupportedCmd);
                false
            },
            ChannelCmd::TestLayerFinished(n) => {
                if n < 4 {
                    let fin: bool = match &self.layers[n as usize] {
                        None => true,
                        Some(l) => !l.enabled,
                    };
                    self.script_state.q = Some(if fin { 1 } else { 0 });
                    true
                } else {
                    self.set_fault(pc0, FaultKind::IndexOutOfBounds);
                    false
                }
            },
        }
    }

    /// Runs the channel's script until an instruction yields, a fault
    /// disables the channel, or the per-tick watchdog trips.
    fn run_script(&mut self, data: &[u8])
        requires
            channel_wf(old(self)@),
        ensures
            final(self)@ == spec_channel_run(old(self)@, data@, STEP_LIMIT as nat),
            channel_wf(final(self)@),
    {
        let ghost c0 = self@;
        let mut steps: u32 = STEP_LIMIT;
        loop
            invariant_except_break
                steps <= STEP_LIMIT,
                spec_channel_run(c0, data@, STEP_LIMIT as nat) == spec_channel_run(
                    self@,
                    data@,
                    steps as nat,
                ),
            invariant
                channel_wf(self@),
            ensures
                channel_wf(self@),
                self@ == spec_channel_run(c0, data@, STEP_LIMIT as nat),
            decreases steps,
        {
            if steps == 0 {
                let pc: u16 = self.script_state.pc;
                self.set_fault(pc, FaultKind::StepLimit);
                break;
            }
            let pc0: u16 = self.script_state.pc;
            if pc0 as usize > data.len() {
                self.set_fault(pc0, FaultKind::PcOutOfBounds);
                break;
            }
            let tail = &data[pc0 as usize..data.len()];
            match ChannelCmd::read(tail) {
                Err(e) => {
                    self.set_fault(pc0, fault_of_decode(e));
                    break;
                },
                Ok((cmd, size)) => {
                    let pc_next: usize = pc0 as usize + size;
                    if pc_next > 0xffff {
                        self.set_fault(pc0, FaultKind::PcOutOfBounds);
                        break;
                    }
                    self.script_state.pc = pc_next as u16;
                    if !self.apply(cmd, pc0, data) {
                        break;
                    }
                },
            }
            steps = steps - 1;
        }
    }

    /// Advances all four layer slots by one tick.
    fn advance_layers(&mut self, data: &[u8])
        requires
            channel_wf(old(self)@),
        ensures
            final(self)@ == (ChannelV {
                layers: spec_layers_advanced(old(self)@, data@),
                ..old(self)@
            }),
            channel_wf(final(self)@),
    {
        let ghost c0 = self@;
        let mut j: usize = 0;
        while j < 4
            invariant
                channel_wf(self@),
                channel_wf(c0),
                j <= 4,
                self@.layers.len() == 4,
                forall|k: int| 0 <= k < j ==> self@.layers[k] == spec_layers_advanced(c0, data@)[k],
                forall|k: int| j <= k < 4 ==> self@.layers[k] == c0.layers[k],
                self@ == (ChannelV { layers: self@.layers, ..c0 }),
            decreases 4 - j,
        {
            let ghost pre = self@;
            let mut slot: Option<SequenceLayer> = None;
            self.layers.set_and_swap(j, &mut slot);
            match slot {
                None => {
                    proof {
                        assert(self@.layers =~= pre.layers);
                    }
                },
                Some(mut l) => {
                    proof {
                        assert(pre.layers[j as int] matches Some(lv) && lv == l@);
                    }
                    l.process(&*self, data);
                    self.layers.set(j, Some(l));
                    proof {
                        assert(self@.layers =~= pre.layers.update(j as int, Some(l@)));
                    }
                },
            }
            j = j + 1;
        }
        proof {
            assert(self@.layers =~= spec_layers_advanced(c0, data@));
        }
    }

    /// Advances the channel by one tick, with read-only mute context from
    /// the owning player.
    pub fn process(&mut self, player: &SequencePlayer, data: &[u8])
        requires
            channel_wf(old(self)@),
        ensures
            final(self)@ == spec_channel_tick(
                old(self)@,
                player.muted,
                player.mute_behavior,
                data@,
            ),
            channel_wf(final(self)@),
    {
        if !self.enabled {
            return;
        }
        if self.stop_script {
            self.advance_layers(data);
            return;
        }
        if player.muted && player.mute_behavior.stop_script() {
            self.advance_layers(data);
            return;
        }
        if self.delay != 0 {
            self.delay = self.delay - 1;
        }
        if self.delay == 0 {
            self.run_script(data);
        }
        self.advance_layers(data);
    }
}

/// A signed byte minus a signed byte, wrapping as the hardware register
/// does.
pub fn i8_wrapping_sub(a: i8, b: i8) -> (r: i8)
    ensures
        r == spec_i8_wrapping_sub(a, b),
{
    let d: i32 = a as i32 - b as i32;
    if d < -128 {
        (d + 256) as i8
    } else if d > 127 {
        (d - 256) as i8
    } else {
        d as i8
    }
}

} // verus!
