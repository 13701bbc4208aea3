//! The layer tier: the leaf interpreter that triggers and decays notes.
//!
//! A layer advances once per tick. While a note's decay countdown runs, the
//! script is paused; once the countdown falls to the sounded duration, the
//! note enters decay (its pitch clears). Otherwise the layer executes its
//! script until a yielding instruction: a delay or a note trigger.

use vstd::prelude::*;

use crate::layer::{layer_cmd_bounded, lemma_layer_read_bounded, spec_read_layer_cmd, LayerCmd};
use crate::state::channel::SequenceChannel;
use crate::state::{
    fault_of_decode, script_wf, spec_fault_of_decode, spec_op_call, spec_op_end, spec_op_loop,
    spec_op_loop_end, spec_script_new, Fault, FaultKind, ScriptState, ScriptStateV, Step,
    STEP_LIMIT,
};

verus! {

/// Velocity table used by short notes until a script replaces it.
pub open spec fn spec_short_velocity_table() -> Seq<u8> {
    seq![12u8, 25, 38, 51, 57, 64, 71, 76, 83, 89, 96, 102, 109, 115, 121, 127]
}

/// Duration table used by short notes until a script replaces it.
pub open spec fn spec_short_duration_table() -> Seq<u8> {
    seq![229u8, 203, 177, 151, 139, 126, 113, 100, 87, 74, 61, 48, 36, 23, 10, 0]
}

/// Entry `n` of the short-note velocity table.
pub fn short_velocity_entry(n: u8) -> (r: u8)
    requires
        n <= 15,
    ensures
        r == spec_short_velocity_table()[n as int],
{
    match n {
        0 => 12,
        1 => 25,
        2 => 38,
        3 => 51,
        4 => 57,
        5 => 64,
        6 => 71,
        7 => 76,
        8 => 83,
        9 => 89,
        10 => 96,
        11 => 102,
        12 => 109,
        13 => 115,
        14 => 121,
        _ => 127,
    }
}

/// Entry `n` of the short-note duration table.
pub fn short_duration_entry(n: u8) -> (r: u8)
    requires
        n <= 15,
    ensures
        r == spec_short_duration_table()[n as int],
{
    match n {
        0 => 229,
        1 => 203,
        2 => 177,
        3 => 151,
        4 => 139,
        5 => 126,
        6 => 113,
        7 => 100,
        8 => 87,
        9 => 74,
        10 => 61,
        11 => 48,
        12 => 36,
        13 => 23,
        14 => 10,
        _ => 0,
    }
}

/// Mathematical image of a layer.
pub struct LayerV {
    pub enabled: bool,
    pub finished: bool,
    pub stop_something: bool,
    pub continuous_notes: bool,
    pub note_duration: u8,
    pub transposition: i16,
    pub velocity_square: u16,
    pub pan: u8,
    pub short_velocity: u8,
    pub short_duration: u8,
    pub short_default_play_percentage: Option<u16>,
    pub play_percentage: Option<i16>,
    pub delay: i16,
    pub duration: i16,
    pub delay_unused: i16,
    pub script: ScriptStateV,
    pub pitch: Option<u8>,
    pub fault: Option<Fault>,
}

/// One note layer: owns a script cursor and the parameters of the note it
/// is sounding or decaying.
pub struct SequenceLayer {
    /// Whether the layer runs; cleared by its script's end or a fault.
    pub enabled: bool,
    /// Set when the script ends (kept for parity with the channel tier).
    pub finished: bool,
    /// The decay flag: set once the sounding note has been released.
    pub stop_something: bool,
    /// Whether notes sound continuously across triggers.
    pub continuous_notes: bool,
    /// Nominal duration of the current note (a fraction of 256).
    pub note_duration: u8,
    /// Transposition in semitones.
    pub transposition: i16,
    /// Velocity of the current note, stored pre-squared.
    pub velocity_square: u16,
    /// Pan (0..=128).
    pub pan: u8,
    /// Velocity for short notes.
    pub short_velocity: u8,
    /// Duration for short notes.
    pub short_duration: u8,
    /// Default play percentage for short notes, once a script sets it.
    pub short_default_play_percentage: Option<u16>,
    /// The play percentage the last note trigger used.
    pub play_percentage: Option<i16>,
    /// Ticks until the layer's script resumes; the decay countdown.
    pub delay: i16,
    /// Ticks of the countdown during which the note keeps sounding.
    pub duration: i16,
    /// Unused countdown kept for layout parity.
    pub delay_unused: i16,
    /// The layer's script cursor.
    pub script_state: ScriptState,
    /// The sounding pitch; absent while silent or decaying.
    pub pitch: Option<u8>,
    /// Diagnostic record of the fault that disabled the layer, if one did.
    pub fault: Option<Fault>,
}

impl View for SequenceLayer {
    type V = LayerV;

    open spec fn view(&self) -> LayerV {
        LayerV {
            enabled: self.enabled,
            finished: self.finished,
            stop_something: self.stop_something,
            continuous_notes: self.continuous_notes,
            note_duration: self.note_duration,
            transposition: self.transposition,
            velocity_square: self.velocity_square,
            pan: self.pan,
            short_velocity: self.short_velocity,
            short_duration: self.short_duration,
            short_default_play_percentage: self.short_default_play_percentage,
            play_percentage: self.play_percentage,
            delay: self.delay,
            duration: self.duration,
            delay_unused: self.delay_unused,
            script: self.script_state@,
            pitch: self.pitch,
            fault: self.fault,
        }
    }
}

/// Whether a layer image is well formed: a well-formed cursor, and stored
/// percentages and countdowns that fit their later uses.
pub open spec fn layer_wf(l: LayerV) -> bool {
    &&& script_wf(l.script)
    &&& (l.play_percentage matches Some(p) ==> 0 <= p)
    &&& (l.short_default_play_percentage matches Some(v) ==> v <= 0x7fff)
    &&& l.delay >= 0
    &&& l.duration >= 0
}

/// The layer a set-layer instruction creates, with its script at `addr`.
pub open spec fn spec_layer_new(addr: u16) -> LayerV {
    LayerV {
        enabled: true,
        finished: false,
        stop_something: false,
        continuous_notes: false,
        note_duration: 0x80,
        transposition: 0,
        velocity_square: 0,
        pan: 0,
        short_velocity: 0,
        short_duration: 0x80,
        short_default_play_percentage: None,
        play_percentage: None,
        delay: 0,
        duration: 0,
        delay_unused: 0,
        script: spec_script_new(addr),
        pitch: None,
        fault: None,
    }
}

/// The layer after a fault: disabled, with the diagnostic recorded.
pub open spec fn spec_layer_fault(l: LayerV, pc: u16, kind: FaultKind) -> LayerV {
    LayerV { enabled: false, fault: Some(Fault { pc, kind }), ..l }
}

/// The layer after a note trigger: the decay flag clears, the operands are
/// stored, the countdown starts at the play percentage, and the sounded
/// part of it is `duration * percentage / 256`, truncating.
pub open spec fn spec_layer_note_on(
    l: LayerV,
    pitch: u8,
    percentage: u16,
    velocity: u8,
    dur: u8,
) -> LayerV
    recommends
        percentage <= 0x7fff,
{
    LayerV {
        stop_something: false,
        note_duration: dur,
        play_percentage: Some(percentage as i16),
        velocity_square: (velocity as int * velocity as int) as u16,
        delay: percentage as i16,
        duration: ((dur as int * percentage as int) / 256) as i16,
        pitch: Some(pitch),
        ..l
    }
}

/// The layer after one instruction, the cursor already past it. `pc0` is
/// the instruction's own offset, for diagnostics.
pub open spec fn spec_layer_apply(l: LayerV, cmd: LayerCmd, pc0: u16) -> Step<LayerV>
    recommends
        script_wf(l.script),
        layer_cmd_bounded(cmd),
        layer_wf(l),
{
    match cmd {
        LayerCmd::End => match spec_op_end(l.script) {
            None => Step::Stop(LayerV { enabled: false, finished: true, ..l }),
            Some(s) => Step::Next(LayerV { script: s, ..l }),
        },
        LayerCmd::Call(addr) => match spec_op_call(l.script, addr) {
            Ok(s) => Step::Next(LayerV { script: s, ..l }),
            Err(k) => Step::Stop(spec_layer_fault(l, pc0, k)),
        },
        LayerCmd::Jump(addr) => Step::Next(
            LayerV { script: ScriptStateV { pc: addr, ..l.script }, ..l },
        ),
        LayerCmd::Loop(n) => match spec_op_loop(l.script, n) {
            Ok(s) => Step::Next(LayerV { script: s, ..l }),
            Err(k) => Step::Stop(spec_layer_fault(l, pc0, k)),
        },
        LayerCmd::LoopEnd => match spec_op_loop_end(l.script) {
            Ok(s) => Step::Next(LayerV { script: s, ..l }),
            Err(k) => Step::Stop(spec_layer_fault(l, pc0, k)),
        },
        LayerCmd::Delay(v) => Step::Stop(
            LayerV { delay: v as i16, stop_something: true, ..l },
        ),
        LayerCmd::Transpose(t) => Step::Next(LayerV { transposition: t as i16, ..l }),
        LayerCmd::SetPan(p) => Step::Next(LayerV { pan: p, ..l }),
        LayerCmd::SomethingOff => Step::Next(LayerV { continuous_notes: false, ..l }),
        LayerCmd::SomethingOn => Step::Next(LayerV { continuous_notes: true, ..l }),
        LayerCmd::SetShortNoteVelocity(v) => Step::Next(LayerV { short_velocity: v, ..l }),
        LayerCmd::SetShortNoteDuration(v) => Step::Next(LayerV { short_duration: v, ..l }),
        LayerCmd::SetShortNoteVelocityFromTable(n) => Step::Next(
            LayerV { short_velocity: spec_short_velocity_table()[n as int], ..l },
        ),
        LayerCmd::SetShortNoteDurationFromTable(n) => Step::Next(
            LayerV { short_duration: spec_short_duration_table()[n as int], ..l },
        ),
        LayerCmd::SetShortNoteDefaultPlayPercentage(v) => Step::Next(
            LayerV { short_default_play_percentage: Some(v), ..l },
        ),
        // The instrument itself is resolved by the sound bank outside the
        // interpreter; the trigger parameters are what the layer keeps.
        LayerCmd::SetInstr(_) => Step::Next(l),
        // Portamento is never enabled here, so disabling it changes nothing.
        LayerCmd::DisablePortamento => Step::Next(l),
        LayerCmd::Portamento(_, _, _) => Step::Stop(
            spec_layer_fault(l, pc0, FaultKind::UnsupportedCmd),
        ),
        LayerCmd::Note0 { pitch, percentage, velocity, duration } => Step::Stop(
            spec_layer_note_on(l, pitch, percentage, velocity, duration),
        ),
        LayerCmd::Note1 { pitch, percentage, velocity } => Step::Stop(
            spec_layer_note_on(l, pitch, percentage, velocity, 0),
        ),
        LayerCmd::Note2 { pitch, velocity, duration } => match l.play_percentage {
            None => Step::Stop(spec_layer_fault(l, pc0, FaultKind::ValueUnset)),
            Some(p) => Step::Stop(spec_layer_note_on(l, pitch, p as u16, velocity, duration)),
        },
        LayerCmd::SmallNote0 { pitch, percentage } => Step::Stop(
            spec_layer_note_on(l, pitch, percentage, l.short_velocity, l.short_duration),
        ),
        LayerCmd::SmallNote1 { pitch } => match l.short_default_play_percentage {
            None => Step::Stop(spec_layer_fault(l, pc0, FaultKind::ValueUnset)),
            Some(v) => Step::Stop(
                spec_layer_note_on(l, pitch, v, l.short_velocity, l.short_duration),
            ),
        },
        LayerCmd::SmallNote2 { pitch } => match l.play_percentage {
            None => Step::Stop(spec_layer_fault(l, pc0, FaultKind::ValueUnset)),
            Some(p) => Step::Stop(
                spec_layer_note_on(l, pitch, p as u16, l.short_velocity, l.short_duration),
            ),
        },
    }
}

/// The layer after running its script from the cursor for at most `fuel`
/// instructions: the first yielded state, or the faulted layer.
pub open spec fn spec_layer_run(l: LayerV, large: bool, data: Seq<u8>, fuel: nat) -> LayerV
    decreases fuel,
{
    if fuel == 0 {
        spec_layer_fault(l, l.script.pc, FaultKind::StepLimit)
    } else {
        let pc0 = l.script.pc;
        if pc0 as int > data.len() {
            spec_layer_fault(l, pc0, FaultKind::PcOutOfBounds)
        } else {
            match spec_read_layer_cmd(data.subrange(pc0 as int, data.len() as int), large) {
                Err(e) => spec_layer_fault(l, pc0, spec_fault_of_decode(e)),
                Ok(r) => if pc0 + r.1 > 0xffff {
                    spec_layer_fault(l, pc0, FaultKind::PcOutOfBounds)
                } else {
                    let l1 = LayerV {
                        script: ScriptStateV { pc: (pc0 + r.1) as u16, ..l.script },
                        ..l
                    };
                    match spec_layer_apply(l1, r.0, pc0) {
                        Step::Next(l2) => spec_layer_run(l2, large, data, (fuel - 1) as nat),
                        Step::Stop(l2) => l2,
                    }
                },
            }
        }
    }
}

/// The layer after one tick: disabled layers freeze; a running decay
/// countdown decrements, marking decay once it reaches the sounded
/// duration; otherwise the script runs to its next yield.
pub open spec fn spec_layer_tick(l: LayerV, large: bool, data: Seq<u8>) -> LayerV {
    if !l.enabled {
        l
    } else if l.delay > 1 {
        let d1 = (l.delay - 1) as i16;
        if !l.stop_something && d1 <= l.duration {
            LayerV { delay: d1, stop_something: true, pitch: None, ..l }
        } else {
            LayerV { delay: d1, ..l }
        }
    } else {
        spec_layer_run(l, large, data, STEP_LIMIT as nat)
    }
}

impl SequenceLayer {
    /// A fresh layer whose script starts at `addr`, created by the owning
    /// channel's set-layer instruction.
    pub fn new(addr: u16, _channel: &SequenceChannel) -> (r: Self)
        ensures
            r@ == spec_layer_new(addr),
            layer_wf(r@),
    {
        SequenceLayer {
            enabled: true,
            finished: false,
            stop_something: false,
            continuous_notes: false,
            note_duration: 0x80,
            transposition: 0,
            velocity_square: 0,
            pan: 0,
            short_velocity: 0,
            short_duration: 0x80,
            short_default_play_percentage: None,
            play_percentage: None,
            delay: 0,
            duration: 0,
            delay_unused: 0,
            script_state: ScriptState::new(addr),
            pitch: None,
            fault: None,
        }
    }

    /// Disables the layer and records the fault.
    fn set_fault(&mut self, pc: u16, kind: FaultKind)
        ensures
            final(self)@ == spec_layer_fault(old(self)@, pc, kind),
    {
        self.enabled = false;
        self.fault = Some(Fault { pc, kind });
    }

    /// Triggers a note: stores the operands and starts the countdown.
    fn note_on(&mut self, pitch: u8, percentage: u16, velocity: u8, dur: u8)
        requires
            percentage <= 0x7fff,
        ensures
            final(self)@ == spec_layer_note_on(old(self)@, pitch, percentage, velocity, dur),
            final(self)@.duration >= 0,
    {
        self.stop_something = false;
        self.note_duration = dur;
        self.play_percentage = Some(percentage as i16);
        assert(velocity as int * velocity as int <= 255 * 255) by (nonlinear_arith)
            requires
                velocity <= 255,
        ;
        self.velocity_square = (velocity as u16) * (velocity as u16);
        self.delay = percentage as i16;
        assert(dur as int * percentage as int <= 255 * 0x7fff) by (nonlinear_arith)
            requires
                dur <= 255,
                percentage <= 0x7fff,
        ;
        let prod: u32 = (dur as u32) * (percentage as u32);
        self.duration = (prod / 256) as i16;
        self.pitch = Some(pitch);
    }

    /// Executes one decoded instruction, the cursor already past it.
    /// Returns whether execution continues within this tick.
    #[verifier::rlimit(100)]
    fn apply(&mut self, cmd: LayerCmd, pc0: u16) -> (go_on: bool)
        requires
            layer_wf(old(self)@),
            layer_cmd_bounded(cmd),
        ensures
            match spec_layer_apply(old(self)@, cmd, pc0) {
                Step::Next(l) => go_on && final(self)@ == l,
                Step::Stop(l) => !go_on && final(self)@ == l,
            },
            layer_wf(final(self)@),
    {
        match cmd {
            LayerCmd::End => {
                if self.script_state.op_end() {
                    self.enabled = false;
                    self.finished = true;
                    false
                } else {
                    true
                }
            },
            LayerCmd::Call(addr) => {
                match self.script_state.op_call(addr) {
                    Ok(()) => true,
                    Err(k) => {
                        self.set_fault(pc0, k);
                        false
                    },
                }
            },
            LayerCmd::Jump(addr) => {
                self.script_state.pc = addr;
                true
            },
            LayerCmd::Loop(n) => {
                match self.script_state.op_loop(n) {
                    Ok(()) => true,
                    Err(k) => {
                        self.set_fault(pc0, k);
                        false
                    },
                }
            },
            LayerCmd::LoopEnd => {
                match self.script_state.op_loop_end() {
                    Ok(()) => true,
                    Err(k) => {
                        self.set_fault(pc0, k);
                        false
                    },
                }
            },
            LayerCmd::Delay(v) => {
                self.delay = v as i16;
                self.stop_something = true;
                false
            },
            LayerCmd::Transpose(t) => {
                self.transposition = t as i16;
                true
            },
            LayerCmd::SetPan(p) => {
                self.pan = p;
                true
            },
            LayerCmd::SomethingOff => {
                self.continuous_notes = false;
                true
            },
            LayerCmd::SomethingOn => {
                self.continuous_notes = true;
                true
            },
            LayerCmd::SetShortNoteVelocity(v) => {
                self.short_velocity = v;
                true
            },
            LayerCmd::SetShortNoteDuration(v) => {
                self.short_duration = v;
                true
            },
            LayerCmd::SetShortNoteVelocityFromTable(n) => {
                self.short_velocity = short_velocity_entry(n);
                true
            },
            LayerCmd::SetShortNoteDurationFromTable(n) => {
                self.short_duration = short_duration_entry(n);
                true
            },
            LayerCmd::SetShortNoteDefaultPlayPercentage(v) => {
                self.short_default_play_percentage = Some(v);
                true
            },
            LayerCmd::SetInstr(_) => true,
            LayerCmd::DisablePortamento => true,
            LayerCmd::Portamento(_, _, _) => {
                self.set_fault(pc0, FaultKind::UnsupportedCmd);
                false
            },
            LayerCmd::Note0 { pitch, percentage, velocity, duration } => {
                self.note_on(pitch, percentage, velocity, duration);
                false
            },
            LayerCmd::Note1 { pitch, percentage, velocity } => {
                self.note_on(pitch, percentage, velocity, 0);
                false
            },
            LayerCmd::Note2 { pitch, velocity, duration } => {
                match self.play_percentage {
                    None => {
                        self.set_fault(pc0, FaultKind::ValueUnset);
                        false
                    },
                    Some(p) => {
                        self.note_on(pitch, p as u16, velocity, duration);
                        false
                    },
                }
            },
            LayerCmd::SmallNote0 { pitch, percentage } => {
                let vel: u8 = self.short_velocity;
                let dur: u8 = self.short_duration;
                self.note_on(pitch, percentage, vel, dur);
                false
            },
            LayerCmd::SmallNote1 { pitch } => {
                match self.short_default_play_percentage {
                    None => {
                        self.set_fault(pc0, FaultKind::ValueUnset);
                        false
                    },
                    Some(v) => {
                        let vel: u8 = self.short_velocity;
                        let dur: u8 = self.short_duration;
                        self.note_on(pitch, v, vel, dur);
                        false
                    },
                }
            },
            LayerCmd::SmallNote2 { pitch } => {
                match self.play_percentage {
                    None => {
                        self.set_fault(pc0, FaultKind::ValueUnset);
                        false
                    },
                    Some(p) => {
                        let vel: u8 = self.short_velocity;
                        let dur: u8 = self.short_duration;
                        self.note_on(pitch, p as u16, vel, dur);
                        false
                    },
                }
            },
        }
    }

    /// Runs the layer's script until an instruction yields, a fault
    /// disables the layer, or the per-tick watchdog trips.
    fn run_script(&mut self, large: bool, data: &[u8])
        requires
            layer_wf(old(self)@),
        ensures
            final(self)@ == spec_layer_run(old(self)@, large, data@, STEP_LIMIT as nat),
            layer_wf(final(self)@),
    {
        let ghost l0 = self@;
        let mut steps: u32 = STEP_LIMIT;
        loop
            invariant_except_break
                steps <= STEP_LIMIT,
                spec_layer_run(l0, large, data@, STEP_LIMIT as nat) == spec_layer_run(
                    self@,
                    large,
                    data@,
                    steps as nat,
                ),
            invariant
                layer_wf(self@),
            ensures
                layer_wf(self@),
                self@ == spec_layer_run(l0, large, data@, STEP_LIMIT as nat),
            decreases steps,
        {
            if steps == 0 {
                let pc: u16 = self.script_state.pc;
                self.set_fault(pc, FaultKind::StepLimit);
                break;
            }
            let pc0: u16 = self.script_state.pc;
            if pc0 as usize > data.len() {
                self.set_fault(pc0, FaultKind::PcOutOfBounds);
                break;
            }
            let tail = &data[pc0 as usize..data.len()];
            match LayerCmd::read(tail, large) {
                Err(e) => {
                    self.set_fault(pc0, fault_of_decode(e));
                    break;
                },
                Ok((cmd, size)) => {
                    proof {
                        lemma_layer_read_bounded(tail@, large);
                    }
                    let pc_next: usize = pc0 as usize + size;
                    if pc_next > 0xffff {
                        self.set_fault(pc0, FaultKind::PcOutOfBounds);
                        break;
                    }
                    self.script_state.pc = pc_next as u16;
                    if !self.apply(cmd, pc0) {
                        break;
                    }
                },
            }
            steps = steps - 1;
        }
    }

    /// Advances the layer by one tick, with read-only context from the
    /// owning channel. Disabled layers freeze; a running decay countdown
    /// decrements (marking decay at the sounded duration); otherwise the
    /// script runs until it yields.
    pub fn process(&mut self, channel: &SequenceChannel, data: &[u8])
        requires
            layer_wf(old(self)@),
        ensures
            final(self)@ == spec_layer_tick(old(self)@, channel.large_notes, data@),
            layer_wf(final(self)@),
    {
        if !self.enabled {
            return;
        }
        if self.delay > 1 {
            self.delay = self.delay - 1;
            if !self.stop_something && self.delay <= self.duration {
                self.stop_something = true;
                self.pitch = None;
            }
            return;
        }
        self.run_script(channel.large_notes, data);
    }
}

} // verus!
