//! The player tier: the root interpreter and tick driver. A player owns
//! sixteen channel slots, throttles its script by a fixed-point tempo
//! accumulator, executes sequence instructions between delays, and drives
//! every present channel once per tick.

use vstd::prelude::*;
use vstd::pervasive::VecAdditionalExecFns;

use crate::sequence::{lemma_seq_read_bounded, seq_cmd_bounded, spec_read_seq_cmd, SequenceCmd};
use crate::state::channel::{
    channel_wf, spec_channel_new, spec_channel_tick, ChannelV, SequenceChannel,
};
use crate::state::{
    fault_of_decode, script_wf, spec_fault_of_decode, spec_mute_from_bits, spec_op_call,
    spec_op_end, spec_op_loop, spec_op_loop_end, spec_script_new, BranchCond, Fault, FaultKind,
    MuteBehavior, ScriptState, ScriptStateV, Step, CHANNELS_MAX, STEP_LIMIT,
    TEMPO_INTERNAL_TO_EXTERNAL, TEMPO_MAX, TEMPO_SCALE,
};
use crate::bytes::{i8_of_u8, spec_i8_of_u8, spec_u8_of_i8, u8_of_i8};
use crate::state::channel::{i8_wrapping_sub, spec_i8_wrapping_sub};

verus! {

/// Mathematical image of a player.
pub struct PlayerV {
    pub finished: bool,
    pub muted: bool,
    pub state: u8,
    pub note_alloc_policy: u8,
    pub mute_behavior: MuteBehavior,
    pub tempo: u16,
    pub tempo_acc: u16,
    pub fade_timer: u16,
    pub transposition: i16,
    pub delay: u16,
    pub fade_volume: u8,
    pub fade_velocity: u8,
    pub volume: u8,
    pub mute_volume_scale: i8,
    pub channels: Seq<Option<ChannelV>>,
    pub script: ScriptStateV,
    pub fault: Option<Fault>,
}

/// The root sequence player. Volumes are kept as the raw operand values
/// (127 is unit volume); the tempo is in internal units, a tempo operand
/// times the tatums-per-beat scale.
pub struct SequencePlayer {
    /// Set once the sequence script ends or faults; the player freezes.
    pub finished: bool,
    /// Whether the player is muted; behavior is under `mute_behavior`.
    pub muted: bool,
    /// Lifecycle state byte kept for the host.
    pub state: u8,
    /// Note allocation policy (bitmask).
    pub note_alloc_policy: u8,
    /// What muting does: pause scripts, stop notes, soften.
    pub mute_behavior: MuteBehavior,
    /// Tempo in internal units.
    pub tempo: u16,
    /// Fixed-point accumulator that throttles script ticks.
    pub tempo_acc: u16,
    /// Remaining fade time, for the host's fades.
    pub fade_timer: u16,
    /// Global transposition in semitones.
    pub transposition: i16,
    /// Ticks until the sequence script resumes.
    pub delay: u16,
    /// Fade volume scalar (127 is unit).
    pub fade_volume: u8,
    /// Fade velocity scalar.
    pub fade_velocity: u8,
    /// Global volume (raw operand, 127 is unit).
    pub volume: u8,
    /// Volume multiplier while muted (64 halves).
    pub mute_volume_scale: i8,
    /// The sixteen channel slots.
    pub channels: Vec<Option<SequenceChannel>>,
    /// The sequence script cursor.
    pub script_state: ScriptState,
    /// Diagnostic record of the fault that stopped the player, if one did.
    pub fault: Option<Fault>,
}

impl View for SequencePlayer {
    type V = PlayerV;

    open spec fn view(&self) -> PlayerV {
        PlayerV {
            finished: self.finished,
            muted: self.muted,
            state: self.state,
            note_alloc_policy: self.note_alloc_policy,
            mute_behavior: self.mute_behavior,
            tempo: self.tempo,
            tempo_acc: self.tempo_acc,
            fade_timer: self.fade_timer,
            transposition: self.transposition,
            delay: self.delay,
            fade_volume: self.fade_volume,
            fade_velocity: self.fade_velocity,
            volume: self.volume,
            mute_volume_scale: self.mute_volume_scale,
            channels: Seq::new(
                self.channels@.len(),
                |i: int|
                    match self.channels@[i] {
                        Some(c) => Some(c@),
                        None => None,
                    },
            ),
            script: self.script_state@,
            fault: self.fault,
        }
    }
}

/// Whether a player image is well formed: a well-formed cursor, sixteen
/// channel slots each holding a well-formed channel, and a tempo state the
/// accumulator arithmetic cannot overflow.
pub open spec fn player_wf(p: PlayerV) -> bool {
    &&& script_wf(p.script)
    &&& p.channels.len() == CHANNELS_MAX
    &&& (forall|i: int|
        0 <= i < p.channels.len() ==> (#[trigger] p.channels[i] matches Some(c) ==> channel_wf(
            c,
        )))
    &&& p.tempo <= TEMPO_MAX
    &&& p.tempo_acc < TEMPO_INTERNAL_TO_EXTERNAL
}

/// The state a fresh player starts in: 120 beats per minute, every channel
/// slot empty, the script at offset zero.
pub open spec fn spec_player_new() -> PlayerV {
    PlayerV {
        finished: false,
        muted: false,
        state: 0,
        note_alloc_policy: 0,
        mute_behavior: MuteBehavior { bits: 0xe0 },
        tempo: (120 * TEMPO_SCALE) as u16,
        tempo_acc: 0,
        fade_timer: 0,
        transposition: 0,
        delay: 0,
        fade_volume: 127,
        fade_velocity: 0,
        volume: 0,
        mute_volume_scale: 64,
        channels: Seq::new(CHANNELS_MAX as nat, |i: int| None),
        script: spec_script_new(0),
        fault: None,
    }
}

/// The player after a fault: finished, with the diagnostic recorded.
pub open spec fn spec_player_fault(p: PlayerV, pc: u16, kind: FaultKind) -> PlayerV {
    PlayerV { finished: true, fault: Some(Fault { pc, kind }), ..p }
}

/// A 16-bit signed sum, wrapping as the driver's additions do.
pub open spec fn spec_i16_wrapping_add(a: i16, b: i16) -> i16 {
    let s = a as int + b as int;
    if s < -0x8000 {
        (s + 0x10000) as i16
    } else if s > 0x7fff {
        (s - 0x10000) as i16
    } else {
        s as i16
    }
}

/// Whether bit `i` of a channel bitmask is set; bit 0 selects slot 0.
pub open spec fn spec_mask_bit(mask: u16, i: int) -> bool
    recommends
        0 <= i < 16,
{
    (mask >> (i as u16)) & 1 == 1
}

/// The channel slots after an init-channels instruction: a set mask bit
/// creates a fresh channel only where the slot is empty; slots whose bit
/// is clear, and already-present channels, keep their state.
pub open spec fn spec_init_channels(channels: Seq<Option<ChannelV>>, mask: u16) -> Seq<
    Option<ChannelV>,
> {
    Seq::new(
        channels.len(),
        |i: int|
            if spec_mask_bit(mask, i) && channels[i] is None {
                Some(spec_channel_new())
            } else {
                channels[i]
            },
    )
}

/// The channel slots after a disable-channels instruction: a set mask bit
/// empties the slot.
pub open spec fn spec_disable_channels(channels: Seq<Option<ChannelV>>, mask: u16) -> Seq<
    Option<ChannelV>,
> {
    Seq::new(
        channels.len(),
        |i: int|
            if spec_mask_bit(mask, i) {
                None
            } else {
                channels[i]
            },
    )
}

/// A channel as the player's start-channel instruction restarts it: its
/// script reset to `addr` with an empty stack and condition register, its
/// delay cleared, its layers discarded, and any fault forgiven.
pub open spec fn spec_channel_started(c: ChannelV, addr: u16) -> ChannelV {
    ChannelV {
        enabled: true,
        finished: false,
        delay: 0,
        script: ScriptStateV { pc: addr, depth: 0, q: None, ..c.script },
        layers: Seq::new(c.layers.len(), |j: int| None),
        fault: None,
        ..c
    }
}

/// The player after one instruction, the cursor already past it. `pc0` is
/// the instruction's own offset, for diagnostics. Instructions whose
/// effects lie beyond this driver (the variation bit, short-note tables,
/// tempo and volume deltas, channel-disabled tests) fault the player
/// rather than guess.
pub open spec fn spec_player_apply(p: PlayerV, cmd: SequenceCmd, pc0: u16) -> Step<PlayerV>
    recommends
        player_wf(p),
        seq_cmd_bounded(cmd),
{
    match cmd {
        SequenceCmd::End => match spec_op_end(p.script) {
            None => Step::Stop(PlayerV { finished: true, ..p }),
            Some(s) => Step::Next(PlayerV { script: s, ..p }),
        },
        SequenceCmd::Delay1 => Step::Stop(PlayerV { delay: 1, ..p }),
        SequenceCmd::Delay(v) => Step::Stop(PlayerV { delay: v, ..p }),
        SequenceCmd::Call(addr) => match spec_op_call(p.script, addr) {
            Ok(s) => Step::Next(PlayerV { script: s, ..p }),
            Err(k) => Step::Stop(spec_player_fault(p, pc0, k)),
        },
        SequenceCmd::Jump(addr) => Step::Next(
            PlayerV { script: ScriptStateV { pc: addr, ..p.script }, ..p },
        ),
        SequenceCmd::Beqz(addr) => match crate::state::spec_op_branch(
            p.script,
            addr,
            BranchCond::Eq0,
        ) {
            Ok(s) => Step::Next(PlayerV { script: s, ..p }),
            Err(k) => Step::Stop(spec_player_fault(p, pc0, k)),
        },
        SequenceCmd::Bltz(addr) => match crate::state::spec_op_branch(
            p.script,
            addr,
            BranchCond::Lt0,
        ) {
            Ok(s) => Step::Next(PlayerV { script: s, ..p }),
            Err(k) => Step::Stop(spec_player_fault(p, pc0, k)),
        },
        SequenceCmd::Bgez(addr) => match crate::state::spec_op_branch(
            p.script,
            addr,
            BranchCond::Ge0,
        ) {
            Ok(s) => Step::Next(PlayerV { script: s, ..p }),
            Err(k) => Step::Stop(spec_player_fault(p, pc0, k)),
        },
        SequenceCmd::Loop(n) => match spec_op_loop(p.script, n) {
            Ok(s) => Step::Next(PlayerV { script: s, ..p }),
            Err(k) => Step::Stop(spec_player_fault(p, pc0, k)),
        },
        SequenceCmd::LoopEnd => match spec_op_loop_end(p.script) {
            Ok(s) => Step::Next(PlayerV { script: s, ..p }),
            Err(k) => Step::Stop(spec_player_fault(p, pc0, k)),
        },
        // The note pool is managed outside this interpreter.
        SequenceCmd::ReserveNotes(_) => Step::Next(p),
        SequenceCmd::UnReserveNotes => Step::Next(p),
        SequenceCmd::Transpose(t) => Step::Next(PlayerV { transposition: t as i16, ..p }),
        SequenceCmd::TransposeRel(t) => Step::Next(
            PlayerV { transposition: spec_i16_wrapping_add(p.transposition, t as i16), ..p },
        ),
        SequenceCmd::SetTempo(t) => Step::Next(
            PlayerV { tempo: (t as int * TEMPO_SCALE as int) as u16, ..p },
        ),
        SequenceCmd::AddTempo(_) => Step::Stop(
            spec_player_fault(p, pc0, FaultKind::UnsupportedCmd),
        ),
        SequenceCmd::SetVol(v) => Step::Next(PlayerV { volume: v, ..p }),
        SequenceCmd::ChangeVol(_) => Step::Stop(
            spec_player_fault(p, pc0, FaultKind::UnsupportedCmd),
        ),
        SequenceCmd::InitChannels(mask) => Step::Next(
            PlayerV { channels: spec_init_channels(p.channels, mask), ..p },
        ),
        SequenceCmd::DisableChannels(mask) => Step::Next(
            PlayerV { channels: spec_disable_channels(p.channels, mask), ..p },
        ),
        SequenceCmd::SetMuteScale(v) => Step::Next(PlayerV { mute_volume_scale: v, ..p }),
        SequenceCmd::Mute => Step::Next(PlayerV { muted: true, ..p }),
        SequenceCmd::SetMuteBhv(b) => Step::Next(
            PlayerV { mute_behavior: spec_mute_from_bits(b), ..p },
        ),
        SequenceCmd::SetShortNoteVelocityTable(_) => Step::Stop(
            spec_player_fault(p, pc0, FaultKind::UnsupportedCmd),
        ),
        SequenceCmd::SetShortNoteDurationTable(_) => Step::Stop(
            spec_player_fault(p, pc0, FaultKind::UnsupportedCmd),
        ),
        SequenceCmd::SetNoteAllocationPolicy(x) => Step::Next(
            PlayerV { note_alloc_policy: x, ..p },
        ),
        SequenceCmd::SetVal(v) => Step::Next(
            PlayerV { script: ScriptStateV { q: Some(spec_i8_of_u8(v)), ..p.script }, ..p },
        ),
        SequenceCmd::BitAnd(v) => match p.script.q {
            None => Step::Stop(spec_player_fault(p, pc0, FaultKind::ConditionUnset)),
            Some(q) => Step::Next(
                PlayerV {
                    script: ScriptStateV {
                        q: Some(spec_i8_of_u8(spec_u8_of_i8(q) & v)),
                        ..p.script
                    },
                    ..p
                },
            ),
        },
        SequenceCmd::Subtract(v) => match p.script.q {
            None => Step::Stop(spec_player_fault(p, pc0, FaultKind::ConditionUnset)),
            Some(q) => Step::Next(
                PlayerV {
                    script: ScriptStateV {
                        q: Some(spec_i8_wrapping_sub(q, spec_i8_of_u8(v))),
                        ..p.script
                    },
                    ..p
                },
            ),
        },
        SequenceCmd::StartChannel(i, addr) => {
            match p.channels[i as int] {
                None => Step::Next(p),
                Some(c) => Step::Next(
                    PlayerV {
                        channels: p.channels.update(i as int, Some(spec_channel_started(c, addr))),
                        ..p
                    },
                ),
            }
        },
        SequenceCmd::GetVariation => Step::Stop(
            spec_player_fault(p, pc0, FaultKind::UnsupportedCmd),
        ),
        SequenceCmd::SetVariation => Step::Stop(
            spec_player_fault(p, pc0, FaultKind::UnsupportedCmd),
        ),
        SequenceCmd::SubVariation => Step::Stop(
            spec_player_fault(p, pc0, FaultKind::UnsupportedCmd),
        ),
        SequenceCmd::TestChDisabled(_) => Step::Stop(
            spec_player_fault(p, pc0, FaultKind::UnsupportedCmd),
        ),
    }
}

/// The player after running its script from the cursor for at most `fuel`
/// instructions: the first yielded state, or the faulted player.
pub open spec fn spec_player_run(p: PlayerV, data: Seq<u8>, fuel: nat) -> PlayerV
    decreases fuel,
{
    if fuel == 0 {
        spec_player_fault(p, p.script.pc, FaultKind::StepLimit)
    } else {
        let pc0 = p.script.pc;
        if pc0 as int > data.len() {
            spec_player_fault(p, pc0, FaultKind::PcOutOfBounds)
        } else {
            match spec_read_seq_cmd(data.subrange(pc0 as int, data.len() as int)) {
                Err(e) => spec_player_fault(p, pc0, spec_fault_of_decode(e)),
                Ok(r) => if pc0 + r.1 > 0xffff {
                    spec_player_fault(p, pc0, FaultKind::PcOutOfBounds)
                } else {
                    let p1 = PlayerV {
                        script: ScriptStateV { pc: (pc0 + r.1) as u16, ..p.script },
                        ..p
                    };
                    match spec_player_apply(p1, r.0, pc0) {
                        Step::Next(p2) => spec_player_run(p2, data, (fuel - 1) as nat),
                        Step::Stop(p2) => p2,
                    }
                },
            }
        }
    }
}

/// All sixteen channel slots after one tick under the player's mute
/// context.
pub open spec fn spec_channels_advanced(p: PlayerV, data: Seq<u8>) -> Seq<Option<ChannelV>> {
    Seq::new(
        p.channels.len(),
        |i: int|
            match p.channels[i] {
                None => None,
                Some(c) => Some(spec_channel_tick(c, p.muted, p.mute_behavior, data)),
            },
    )
}

/// The player after one tick. A finished player freezes. Muting with the
/// stop-script behavior skips the player's own script but still advances
/// the channels. Otherwise the tempo accumulator gains the tempo; short of
/// the threshold the tick ends there, else the accumulator pays the
/// threshold, the delay counts down or the script runs to its next yield,
/// and every present channel advances once.
pub open spec fn spec_player_tick(p: PlayerV, data: Seq<u8>) -> PlayerV
    recommends
        player_wf(p),
{
    if p.finished {
        p
    } else if p.muted && p.mute_behavior.spec_stop_script() {
        PlayerV { channels: spec_channels_advanced(p, data), ..p }
    } else {
        let acc = (p.tempo_acc + p.tempo) as u16;
        if acc < TEMPO_INTERNAL_TO_EXTERNAL {
            PlayerV { tempo_acc: acc, ..p }
        } else {
            let p2 = PlayerV { tempo_acc: (acc - TEMPO_INTERNAL_TO_EXTERNAL) as u16, ..p };
            let p3 = if p2.delay > 1 {
                PlayerV { delay: (p2.delay - 1) as u16, ..p2 }
            } else {
                spec_player_run(p2, data, STEP_LIMIT as nat)
            };
            PlayerV { channels: spec_channels_advanced(p3, data), ..p3 }
        }
    }
}

impl SequencePlayer {
    /// A fresh player: 120 beats per minute, all channel slots empty, the
    /// sequence script at offset zero.
    pub fn new() -> (r: Self)
        ensures
            r@ == spec_player_new(),
            player_wf(r@),
    {
        let mut channels: Vec<Option<SequenceChannel>> = Vec::new();
        let mut i: usize = 0;
        while i < 16
            invariant
                i <= 16,
                channels@.len() == i,
                forall|k: int| 0 <= k < i ==> channels@[k] is None,
            decreases 16 - i,
        {
            channels.push(None);
            i = i + 1;
        }
        let r = SequencePlayer {
            finished: false,
            muted: false,
            state: 0,
            note_alloc_policy: 0,
            mute_behavior: MuteBehavior::all(),
            tempo: 120 * TEMPO_SCALE,
            tempo_acc: 0,
            fade_timer: 0,
            transposition: 0,
            delay: 0,
            fade_volume: 127,
            fade_velocity: 0,
            volume: 0,
            mute_volume_scale: 64,
            channels,
            script_state: ScriptState::new(0),
            fault: None,
        };
        proof {
            assert(r@.channels =~= spec_player_new().channels);
        }
        r
    }

    /// Finishes the player and records the fault.
    fn set_fault(&mut self, pc: u16, kind: FaultKind)
        ensures
            final(self)@ == spec_player_fault(old(self)@, pc, kind),
    {
        self.finished = true;
        self.fault = Some(Fault { pc, kind });
    }

    /// Instantiates the channels the bitmask selects, where the slot is
    /// still empty; an already-present channel keeps its state.
    fn init_channels(&mut self, mask: u16)
        requires
            player_wf(old(self)@),
        ensures
            final(self)@ == (PlayerV {
                channels: spec_init_channels(old(self)@.channels, mask),
                ..old(self)@
            }),
            player_wf(final(self)@),
    {
        let ghost p0 = self@;
        let mut i: usize = 0;
        while i < 16
            invariant
                player_wf(self@),
                player_wf(p0),
                i <= 16,
                self@.channels.len() == 16,
                forall|k: int|
                    0 <= k < i ==> self@.channels[k] == spec_init_channels(p0.channels, mask)[k],
                forall|k: int| i <= k < 16 ==> self@.channels[k] == p0.channels[k],
                self@ == (PlayerV { channels: self@.channels, ..p0 }),
            decreases 16 - i,
        {
            if (mask >> (i as u16)) & 1 == 1 && self.channels[i].is_none() {
                let ghost pre = self@;
                self.channels.set(i, Some(SequenceChannel::new()));
                proof {
                    assert(self@.channels =~= pre.channels.update(
                        i as int,
                        Some(spec_channel_new()),
                    ));
                }
            }
            i = i + 1;
        }
        proof {
            assert(self@.channels =~= spec_init_channels(p0.channels, mask));
        }
    }

    /// Empties the channel slots the bitmask selects.
    fn disable_channels(&mut self, mask: u16)
        requires
            player_wf(old(self)@),
        ensures
            final(self)@ == (PlayerV {
                channels: spec_disable_channels(old(self)@.channels, mask),
                ..old(self)@
            }),
            player_wf(final(self)@),
    {
        let ghost p0 = self@;
        let mut i: usize = 0;
        while i < 16
            invariant
                player_wf(self@),
                player_wf(p0),
                i <= 16,
                self@.channels.len() == 16,
                forall|k: int|
                    0 <= k < i ==> self@.channels[k] == spec_disable_channels(p0.channels, mask)[k],
                forall|k: int| i <= k < 16 ==> self@.channels[k] == p0.channels[k],
                self@ == (PlayerV { channels: self@.channels, ..p0 }),
            decreases 16 - i,
        {
            if (mask >> (i as u16)) & 1 == 1 {
                let ghost pre = self@;
                self.channels.set(i, None);
                proof {
                    assert(self@.channels =~= pre.channels.update(i as int, None));
                }
            }
            i = i + 1;
        }
        proof {
            assert(self@.channels =~= spec_disable_channels(p0.channels, mask));
        }
    }

    /// Restarts channel `i` at `addr`: script and delay reset, layers
    /// discarded, any fault forgiven. An empty slot stays empty.
    fn start_channel(&mut self, i: u8, addr: u16)
        requires
            player_wf(old(self)@),
            i < 16,
        ensures
            final(self)@ == (match old(self)@.channels[i as int] {
                None => old(self)@,
                Some(c) => PlayerV {
                    channels: old(self)@.channels.update(
                        i as int,
                        Some(spec_channel_started(c, addr)),
                    ),
                    ..old(self)@
                },
            }),
            player_wf(final(self)@),
    {
        let ghost p0 = self@;
        let mut slot: Option<SequenceChannel> = None;
        self.channels.set_and_swap(i as usize, &mut slot);
        match slot {
            None => {
                proof {
                    assert(self@.channels =~= p0.channels);
                }
            },
            Some(mut c) => {
                c.enabled = true;
                c.finished = false;
                c.script_state.pc = addr;
                c.script_state.depth = 0;
                c.script_state.q = None;
                c.delay = 0;
                c.fault = None;
                let mut j: usize = 0;
                while j < 4
                    invariant
                        player_wf(p0),
                        i < 16,
                        p0.channels[i as int] is Some,
                        j <= 4,
                        c@.layers.len() == 4,
                        forall|k: int| 0 <= k < j ==> c@.layers[k] is None,
                        forall|k: int|
                            j <= k < 4 ==> c@.layers[k] == p0.channels[i as int]->Some_0.layers[k],
                        c@ == (ChannelV { layers: c@.layers, ..spec_channel_started(
                            p0.channels[i as int]->Some_0,
                            addr,
                        ) }),
                        channel_wf(c@),
                    decreases 4 - j,
                {
                    let ghost prec = c@;
                    c.layers.set(j, None);
                    proof {
                        assert(c@.layers =~= prec.layers.update(j as int, None));
                    }
                    j = j + 1;
                }
                proof {
                    assert(c@.layers =~= spec_channel_started(
                        p0.channels[i as int]->Some_0,
                        addr,
                    ).layers);
                    assert(c@ == spec_channel_started(p0.channels[i as int]->Some_0, addr));
                }
                self.channels.set(i as usize, Some(c));
                proof {
                    assert(self@.channels =~= p0.channels.update(
                        i as int,
                        Some(spec_channel_started(p0.channels[i as int]->Some_0, addr)),
                    ));
                }
            },
        }
    }

    /// Executes one decoded instruction, the cursor already past it.
    /// Returns whether execution continues within this tick.
    #[verifier::rlimit(100)]
    fn apply(&mut self, cmd: SequenceCmd, pc0: u16) -> (go_on: bool)
        requires
            player_wf(old(self)@),
            seq_cmd_bounded(cmd),
        ensures
            match spec_player_apply(old(self)@, cmd, pc0) {
                Step::Next(p) => go_on && final(self)@ == p,
                Step::Stop(p) => !go_on && final(self)@ == p,
            },
            player_wf(final(self)@),
    {
        match cmd {
            SequenceCmd::End => {
                if self.script_state.op_end() {
                    self.finished = true;
                    false
                } else {
                    true
                }
            },
            SequenceCmd::Delay1 => {
                self.delay = 1;
                false
            },
            SequenceCmd::Delay(v) => {
                self.delay = v;
                false
            },
            SequenceCmd::Call(addr) => {
                match self.script_state.op_call(addr) {
                    Ok(()) => true,
                    Err(k) => {
                        self.set_fault(pc0, k);
                        false
                    },
                }
            },
            SequenceCmd::Jump(addr) => {
                self.script_state.pc = addr;
                true
            },
            SequenceCmd::Beqz(addr) => {
                match self.script_state.op_branch(addr, BranchCond::Eq0) {
                    Ok(()) => true,
                    Err(k) => {
                        self.set_fault(pc0, k);
                        false
                    },
                }
            },
            SequenceCmd::Bltz(addr) => {
                match self.script_state.op_branch(addr, BranchCond::Lt0) {
                    Ok(()) => true,
                    Err(k) => {
                        self.set_fault(pc0, k);
                        false
                    },
                }
            },
            SequenceCmd::Bgez(addr) => {
                match self.script_state.op_branch(addr, BranchCond::Ge0) {
                    Ok(()) => true,
                    Err(k) => {
                        self.set_fault(pc0, k);
                        false
                    },
                }
            },
            SequenceCmd::Loop(n) => {
                match self.script_state.op_loop(n) {
                    Ok(()) => true,
                    Err(k) => {
                        self.set_fault(pc0, k);
                        false
                    },
                }
            },
            SequenceCmd::LoopEnd => {
                match self.script_state.op_loop_end() {
                    Ok(()) => true,
                    Err(k) => {
                        self.set_fault(pc0, k);
                        false
                    },
                }
            },
            SequenceCmd::ReserveNotes(_) => true,
            SequenceCmd::UnReserveNotes => true,
            SequenceCmd::Transpose(t) => {
                self.transposition = t as i16;
                true
            },
            SequenceCmd::TransposeRel(t) => {
                self.transposition = i16_wrapping_add(self.transposition, t as i16);
                true
            },
            SequenceCmd::SetTempo(t) => {
                assert(t as int * TEMPO_SCALE as int <= 255 * 48) by (nonlinear_arith)
                    requires
                        t <= 255,
                ;
                self.tempo = (t as u16) * TEMPO_SCALE;
                true
            },
            SequenceCmd::AddTempo(_) => {
                self.set_fault(pc0, FaultKind::UnsupportedCmd);
                false
            },
            SequenceCmd::SetVol(v) => {
                self.volume = v;
                true
            },
            SequenceCmd::ChangeVol(_) => {
                self.set_fault(pc0, FaultKind::UnsupportedCmd);
                false
            },
            SequenceCmd::InitChannels(mask) => {
                self.init_channels(mask);
                true
            },
            SequenceCmd::DisableChannels(mask) => {
                self.disable_channels(mask);
                true
            },
            SequenceCmd::SetMuteScale(v) => {
                self.mute_volume_scale = v;
                true
            },
            SequenceCmd::Mute => {
                self.muted = true;
                true
            },
            SequenceCmd::SetMuteBhv(b) => {
                self.mute_behavior = MuteBehavior::from_bits_truncate(b);
                true
            },
            SequenceCmd::SetShortNoteVelocityTable(_) => {
                self.set_fault(pc0, FaultKind::UnsupportedCmd);
                false
            },
            SequenceCmd::SetShortNoteDurationTable(_) => {
                self.set_fault(pc0, FaultKind::UnsupportedCmd);
                false
            },
            SequenceCmd::SetNoteAllocationPolicy(x) => {
                self.note_alloc_policy = x;
                true
            },
            SequenceCmd::SetVal(v) => {
                self.script_state.q = Some(i8_of_u8(v));
                true
            },
            SequenceCmd::BitAnd(v) => {
                match self.script_state.q {
                    None => {
                        self.set_fault(pc0, FaultKind::ConditionUnset);
                        false
                    },
                    Some(q) => {
                        self.script_state.q = Some(i8_of_u8(u8_of_i8(q) & v));
                        true
                    },
                }
            },
            SequenceCmd::Subtract(v) => {
                match self.script_state.q {
                    None => {
                        self.set_fault(pc0, FaultKind::ConditionUnset);
                        false
                    },
                    Some(q) => {
                        self.script_state.q = Some(i8_wrapping_sub(q, i8_of_u8(v)));
                        true
                    },
                }
            },
            SequenceCmd::StartChannel(i, addr) => {
                self.start_channel(i, addr);
                true
            },
            SequenceCmd::GetVariation => {
                self.set_fault(pc0, FaultKind::UnsupportedCmd);
                false
            },
            SequenceCmd::SetVariation => {
                self.set_fault(pc0, FaultKind::UnsupportedCmd);
                false
            },
            SequenceCmd::SubVariation => {
                self.set_fault(pc0, FaultKind::UnsupportedCmd);
                false
            },
            SequenceCmd::TestChDisabled(_) => {
                self.set_fault(pc0, FaultKind::UnsupportedCmd);
                false
            },
        }
    }

    /// Runs the sequence script until an instruction yields, a fault
    /// finishes the player, or the per-tick watchdog trips.
    fn run_script(&mut self, data: &[u8])
        requires
            player_wf(old(self)@),
        ensures
            final(self)@ == spec_player_run(old(self)@, data@, STEP_LIMIT as nat),
            player_wf(final(self)@),
    {
        let ghost p0 = self@;
        let mut steps: u32 = STEP_LIMIT;
        loop
            invariant_except_break
                steps <= STEP_LIMIT,
                spec_player_run(p0, data@, STEP_LIMIT as nat) == spec_player_run(
                    self@,
                    data@,
                    steps as nat,
                ),
            invariant
                player_wf(self@),
            ensures
                player_wf(self@),
                self@ == spec_player_run(p0, data@, STEP_LIMIT as nat),
            decreases steps,
        {
            if steps == 0 {
                let pc: u16 = self.script_state.pc;
                self.set_fault(pc, FaultKind::StepLimit);
                break;
            }
            let pc0: u16 = self.script_state.pc;
            if pc0 as usize > data.len() {
                self.set_fault(pc0, FaultKind::PcOutOfBounds);
                break;
            }
            let tail = &data[pc0 as usize..data.len()];
            match SequenceCmd::read(tail) {
                Err(e) => {
                    self.set_fault(pc0, fault_of_decode(e));
                    break;
                },
                Ok((cmd, size)) => {
                    proof {
                        lemma_seq_read_bounded(tail@);
                    }
                    let pc_next: usize = pc0 as usize + size;
                    if pc_next > 0xffff {
                        self.set_fault(pc0, FaultKind::PcOutOfBounds);
                        break;
                    }
                    self.script_state.pc = pc_next as u16;
                    if !self.apply(cmd, pc0) {
                        break;
                    }
                },
            }
            steps = steps - 1;
        }
    }

    /// Advances every present channel by one tick.
    fn advance_channels(&mut self, data: &[u8])
        requires
            player_wf(old(self)@),
        ensures
            final(self)@ == (PlayerV {
                channels: spec_channels_advanced(old(self)@, data@),
                ..old(self)@
            }),
            player_wf(final(self)@),
    {
        let ghost p0 = self@;
        let mut i: usize = 0;
        while i < 16
            invariant
                player_wf(self@),
                player_wf(p0),
                i <= 16,
                self@.channels.len() == 16,
                forall|k: int|
                    0 <= k < i ==> self@.channels[k] == spec_channels_advanced(p0, data@)[k],
                forall|k: int| i <= k < 16 ==> self@.channels[k] == p0.channels[k],
                self@ == (PlayerV { channels: self@.channels, ..p0 }),
            decreases 16 - i,
        {
            let ghost pre = self@;
            let mut slot: Option<SequenceChannel> = None;
            self.channels.set_and_swap(i, &mut slot);
            match slot {
                None => {
                    proof {
                        assert(self@.channels =~= pre.channels);
                    }
                },
                Some(mut c) => {
                    proof {
                        assert(pre.channels[i as int] matches Some(cv) && cv == c@);
                    }
                    c.process(&*self, data);
                    self.channels.set(i, Some(c));
                    proof {
                        assert(self@.channels =~= pre.channels.update(i as int, Some(c@)));
                    }
                },
            }
            i = i + 1;
        }
        proof {
            assert(self@.channels =~= spec_channels_advanced(p0, data@));
        }
    }

    /// Advances the whole player by one tick of the fixed-rate clock:
    /// tempo gating, the player's own script, then every present channel
    /// and, through them, every present layer.
    pub fn process(&mut self, data: &[u8])
        requires
            player_wf(old(self)@),
        ensures
            final(self)@ == spec_player_tick(old(self)@, data@),
            player_wf(final(self)@),
    {
        if self.finished {
            return;
        }
        if self.muted && self.mute_behavior.stop_script() {
            self.advance_channels(data);
            return;
        }
        self.tempo_acc = self.tempo_acc + self.tempo;
        if self.tempo_acc < TEMPO_INTERNAL_TO_EXTERNAL {
            return;
        }
        self.tempo_acc = self.tempo_acc - TEMPO_INTERNAL_TO_EXTERNAL;
        if self.delay > 1 {
            self.delay = self.delay - 1;
        } else {
            self.run_script(data);
        }
        self.advance_channels(data);
    }
}

/// Once a player has finished, a tick is a no-op: its whole state tree is
/// frozen, whatever the buffer holds.
pub proof fn lemma_tick_after_finished(p: PlayerV, data: Seq<u8>)
    requires
        p.finished,
    ensures
        spec_player_tick(p, data) == p,
{
}

/// Instantiating channels is idempotent per bit: where the mask's bit is
/// set but a channel already occupies the slot, that channel — its script
/// state with it — is kept; only a bit over an empty slot creates one.
pub proof fn lemma_init_channels_keeps_running(
    channels: Seq<Option<ChannelV>>,
    mask: u16,
    i: int,
)
    requires
        0 <= i < channels.len(),
    ensures
        channels[i] is Some ==> spec_init_channels(channels, mask)[i] == channels[i],
        channels[i] is None && spec_mask_bit(mask, i) ==> spec_init_channels(channels, mask)[i]
            == Some(spec_channel_new()),
        !spec_mask_bit(mask, i) ==> spec_init_channels(channels, mask)[i] == channels[i],
{
}

impl Default for SequencePlayer {
    /// The same state `new` builds.
    fn default() -> (r: Self)
        ensures
            r@ == spec_player_new(),
            player_wf(r@),
    {
        SequencePlayer::new()
    }
}

/// A 16-bit signed sum, wrapping as the driver's additions do.
pub fn i16_wrapping_add(a: i16, b: i16) -> (r: i16)
    ensures
        r == spec_i16_wrapping_add(a, b),
{
    let s: i32 = a as i32 + b as i32;
    if s < -0x8000 {
        (s + 0x10000) as i16
    } else if s > 0x7fff {
        (s - 0x10000) as i16
    } else {
        s as i16
    }
}

} // verus!
