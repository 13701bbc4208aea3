//! The three-tier interpreter state: the shared script cursor with its
//! bounded call/loop stack and condition register, the mute-behavior mask,
//! the fault record that a tier leaves behind when it disables itself, and
//! the timing constants of the tick driver.

use vstd::prelude::*;

use crate::DecodeError;

pub mod channel;
pub mod layer;
pub mod player;

verus! {

/// Number of channel slots a player owns.
pub const CHANNELS_MAX: usize = 16;

/// Number of layer slots a channel owns.
pub const LAYERS_MAX: usize = 4;

/// Capacity of the call/loop stack of one script cursor.
pub const SCRIPT_STACK_MAX: usize = 4;

/// Timing subdivisions per beat; tempo operands are scaled by this.
pub const TATUMS_PER_BEAT: u16 = 48;

/// Scale factor from a tempo operand (beats per minute) to internal units.
pub const TEMPO_SCALE: u16 = TATUMS_PER_BEAT;

/// The largest tempo a script can set: a 255 operand times the scale.
pub const TEMPO_MAX: u16 = 255 * 48;

/// Threshold of the fixed-point tempo accumulator: the number of internal
/// tempo units per driver tick. Derived from a 32 kHz output rate at 60
/// frames per second, 160-sample updates (four updates per frame), and 48
/// tatums per beat; the platform's conversion works out to 14360.
pub const TEMPO_INTERNAL_TO_EXTERNAL: u16 = 14360;

/// Note priority given to a channel that never set one.
pub const NOTE_PRIORITY_DEFAULT: u8 = 3;

/// Watchdog budget: how many instructions one script may execute within a
/// single tick before the tier faults instead of spinning forever.
pub const STEP_LIMIT: u32 = 1000000;

/// How one instruction leaves its tier: go on with the next instruction,
/// or yield the tick.
pub enum Step<T> {
    /// Execution continues with the next instruction.
    Next(T),
    /// The instruction yields control for this tick.
    Stop(T),
}

/// Why a tier disabled itself: the fault classes of the interpreter.
#[derive(Debug, Clone, Copy, PartialEq, Eq, Structural)]
pub enum FaultKind {
    /// The opcode byte maps to no instruction of the tier's decoder.
    UnknownOpcode(u8),
    /// The buffer ends inside an instruction's operands.
    TruncatedOperand,
    /// The program counter left the addressable range of the buffer.
    PcOutOfBounds,
    /// A call or loop would push past the four-entry stack.
    StackOverflow,
    /// A loop end or break arrived with an empty stack.
    StackUnderflow,
    /// A branch read the condition register before anything set it.
    ConditionUnset,
    /// An instruction needed a stored value that was never set.
    ValueUnset,
    /// An instruction indexed past a bounded array.
    IndexOutOfBounds,
    /// The instruction is decoded but its effect is beyond this driver.
    UnsupportedCmd,
    /// The script ran for a whole tick without yielding.
    StepLimit,
}

/// A tier's diagnostic record: the offset of the offending instruction and
/// the fault class.
#[derive(Debug, Clone, Copy, PartialEq, Eq, Structural)]
pub struct Fault {
    /// Offset of the instruction that faulted.
    pub pc: u16,
    /// The fault class.
    pub kind: FaultKind,
}

/// The fault class a decoder error maps to.
pub open spec fn spec_fault_of_decode(e: DecodeError) -> FaultKind {
    match e {
        DecodeError::UnknownOpcode(op) => FaultKind::UnknownOpcode(op),
        DecodeError::Truncated => FaultKind::TruncatedOperand,
    }
}

/// Maps a decoder error to its fault class.
pub fn fault_of_decode(e: DecodeError) -> (r: FaultKind)
    ensures
        r == spec_fault_of_decode(e),
{
    match e {
        DecodeError::UnknownOpcode(op) => FaultKind::UnknownOpcode(op),
        DecodeError::Truncated => FaultKind::TruncatedOperand,
    }
}

/// What mute mode does to a player: the three behavior bits.
#[derive(Debug, Clone, Copy, PartialEq, Eq, Structural)]
pub struct MuteBehavior {
    /// Bit 0x80 pauses scripts, bit 0x40 stops notes, bit 0x20 softens.
    pub bits: u8,
}

impl MuteBehavior {
    /// Whether muting pauses script execution.
    pub open spec fn spec_stop_script(self) -> bool {
        self.bits & 0x80 != 0
    }

    /// Whether muting stops sounding notes.
    pub open spec fn spec_stop_notes(self) -> bool {
        self.bits & 0x40 != 0
    }

    /// Whether muting lowers the volume.
    pub open spec fn spec_soften(self) -> bool {
        self.bits & 0x20 != 0
    }

    /// Whether muting pauses script execution.
    pub fn stop_script(&self) -> (r: bool)
        ensures
            r == self.spec_stop_script(),
    {
        self.bits & 0x80 != 0
    }

    /// Whether muting stops sounding notes.
    pub fn stop_notes(&self) -> (r: bool)
        ensures
            r == self.spec_stop_notes(),
    {
        self.bits & 0x40 != 0
    }

    /// Whether muting lowers the volume.
    pub fn soften(&self) -> (r: bool)
        ensures
            r == self.spec_soften(),
    {
        self.bits & 0x20 != 0
    }

    /// All three behavior bits set: the default.
    pub fn all() -> (r: MuteBehavior)
        ensures
            r.bits == 0xe0,
    {
        MuteBehavior { bits: 0xe0 }
    }

    /// Keeps only the three behavior bits of an operand.
    pub fn from_bits_truncate(bits: u8) -> (r: MuteBehavior)
        ensures
            r == spec_mute_from_bits(bits),
    {
        MuteBehavior { bits: bits & 0xe0 }
    }
}

/// The mute behavior an operand byte selects: its three behavior bits.
pub open spec fn spec_mute_from_bits(bits: u8) -> MuteBehavior {
    MuteBehavior { bits: bits & 0xe0 }
}

/// Mathematical image of one script cursor.
pub struct ScriptStateV {
    /// Offset of the next instruction.
    pub pc: u16,
    /// Saved return offsets, one per active call or loop.
    pub stack: Seq<u16>,
    /// Remaining iterations, one per active loop nesting level.
    pub rem_loop_iters: Seq<u8>,
    /// Number of active stack entries.
    pub depth: int,
    /// The condition register Q: absent until a value-producing
    /// instruction writes it.
    pub q: Option<i8>,
}

/// Whether a script cursor image is well formed: fixed-size stacks and a
/// depth within capacity.
pub open spec fn script_wf(s: ScriptStateV) -> bool {
    &&& s.stack.len() == SCRIPT_STACK_MAX
    &&& s.rem_loop_iters.len() == SCRIPT_STACK_MAX
    &&& 0 <= s.depth <= SCRIPT_STACK_MAX
}

/// The cursor a freshly started script begins with.
pub open spec fn spec_script_new(pc: u16) -> ScriptStateV {
    ScriptStateV {
        pc,
        stack: Seq::new(SCRIPT_STACK_MAX as nat, |i: int| 0u16),
        rem_loop_iters: Seq::new(SCRIPT_STACK_MAX as nat, |i: int| 0u8),
        depth: 0,
        q: None,
    }
}

/// One script cursor: program counter, bounded call/loop stack, and the
/// condition register Q.
pub struct ScriptState {
    /// Offset of the next instruction.
    pub pc: u16,
    /// Saved return offsets, one per active call or loop.
    pub stack: [u16; 4],
    /// Remaining iterations, one per active loop nesting level.
    pub rem_loop_iters: [u8; 4],
    /// Number of active stack entries.
    pub depth: usize,
    /// The condition register Q: absent until a value-producing
    /// instruction writes it.
    pub q: Option<i8>,
}

impl View for ScriptState {
    type V = ScriptStateV;

    open spec fn view(&self) -> ScriptStateV {
        ScriptStateV {
            pc: self.pc,
            stack: self.stack@,
            rem_loop_iters: self.rem_loop_iters@,
            depth: self.depth as int,
            q: self.q,
        }
    }
}

impl ScriptState {
    /// A cursor for a script starting at `pc`.
    pub fn new(pc: u16) -> (r: Self)
        ensures
            r@ == spec_script_new(pc),
            script_wf(r@),
    {
        let r = ScriptState { pc, stack: [0; 4], rem_loop_iters: [0; 4], depth: 0, q: None };
        proof {
            assert(r@.stack =~= spec_script_new(pc).stack);
            assert(r@.rem_loop_iters =~= spec_script_new(pc).rem_loop_iters);
        }
        r
    }
}

/// The cursor after an end instruction: the script is over when the stack
/// is empty, else control returns to the saved offset.
pub open spec fn spec_op_end(s: ScriptStateV) -> Option<ScriptStateV>
    recommends
        script_wf(s),
{
    if s.depth == 0 {
        None
    } else {
        Some(ScriptStateV { pc: s.stack[s.depth - 1], depth: s.depth - 1, ..s })
    }
}

/// The cursor after a call: the offset past the instruction is saved and
/// control moves to `addr`, unless the stack is full.
pub open spec fn spec_op_call(s: ScriptStateV, addr: u16) -> Result<ScriptStateV, FaultKind>
    recommends
        script_wf(s),
{
    if s.depth >= SCRIPT_STACK_MAX {
        Err(FaultKind::StackOverflow)
    } else {
        Ok(ScriptStateV { pc: addr, stack: s.stack.update(s.depth, s.pc), depth: s.depth + 1, ..s })
    }
}

/// The cursor after a loop start: the iteration count and the offset past
/// the instruction are pushed, unless the stack is full.
pub open spec fn spec_op_loop(s: ScriptStateV, count: u8) -> Result<ScriptStateV, FaultKind>
    recommends
        script_wf(s),
{
    if s.depth >= SCRIPT_STACK_MAX {
        Err(FaultKind::StackOverflow)
    } else {
        Ok(
            ScriptStateV {
                stack: s.stack.update(s.depth, s.pc),
                rem_loop_iters: s.rem_loop_iters.update(s.depth, count),
                depth: s.depth + 1,
                ..s
            },
        )
    }
}

/// A loop counter one step down, wrapping 0 to 255 (so a count of 0 stands
/// for 256 iterations).
pub open spec fn spec_wrapping_dec(c: u8) -> u8 {
    if c == 0 {
        255
    } else {
        (c - 1) as u8
    }
}

/// The cursor after a loop-end marker: the active counter decrements with
/// wrap-around (so a 0 count means 256 iterations); a nonzero remainder
/// jumps back, zero pops the loop.
pub open spec fn spec_op_loop_end(s: ScriptStateV) -> Result<ScriptStateV, FaultKind>
    recommends
        script_wf(s),
{
    if s.depth == 0 {
        Err(FaultKind::StackUnderflow)
    } else {
        let c = spec_wrapping_dec(s.rem_loop_iters[s.depth - 1]);
        let rem = s.rem_loop_iters.update(s.depth - 1, c);
        if c != 0 {
            Ok(ScriptStateV { pc: s.stack[s.depth - 1], rem_loop_iters: rem, ..s })
        } else {
            Ok(ScriptStateV { rem_loop_iters: rem, depth: s.depth - 1, ..s })
        }
    }
}

/// The cursor after a break: one stack entry is discarded.
pub open spec fn spec_op_break(s: ScriptStateV) -> Result<ScriptStateV, FaultKind>
    recommends
        script_wf(s),
{
    if s.depth == 0 {
        Err(FaultKind::StackUnderflow)
    } else {
        Ok(ScriptStateV { depth: s.depth - 1, ..s })
    }
}

/// The three conditions the branch instructions test on Q.
#[derive(Debug, Clone, Copy, PartialEq, Eq, Structural)]
pub enum BranchCond {
    /// Branch if Q == 0.
    Eq0,
    /// Branch if Q < 0.
    Lt0,
    /// Branch if Q >= 0.
    Ge0,
}

/// Whether the condition holds of a register value.
pub open spec fn spec_cond_holds(cond: BranchCond, q: i8) -> bool {
    match cond {
        BranchCond::Eq0 => q == 0,
        BranchCond::Lt0 => q < 0,
        BranchCond::Ge0 => q >= 0,
    }
}

/// The cursor after a conditional branch: control moves to `addr` when the
/// condition holds of Q; reading an unset Q is a fault.
pub open spec fn spec_op_branch(s: ScriptStateV, addr: u16, cond: BranchCond) -> Result<
    ScriptStateV,
    FaultKind,
> {
    match s.q {
        None => Err(FaultKind::ConditionUnset),
        Some(q) => if spec_cond_holds(cond, q) {
            Ok(ScriptStateV { pc: addr, ..s })
        } else {
            Ok(s)
        },
    }
}

/// How many more times a loop whose active counter reads `c` executes its
/// body before the loop-end marker pops it.
pub open spec fn spec_loop_end_count(c: u8) -> nat
    decreases (if c == 0 { 256int } else { c as int }),
{
    if spec_wrapping_dec(c) == 0 {
        1
    } else {
        1 + spec_loop_end_count(spec_wrapping_dec(c))
    }
}

/// A loop begun with count `c` executes its body `c` times, except that a
/// count of zero stands for 256 iterations, never zero.
pub proof fn lemma_loop_count(c: u8)
    ensures
        spec_loop_end_count(c) == if c == 0 {
            256nat
        } else {
            c as nat
        },
    decreases (if c == 0 { 256int } else { c as int }),
{
    if c == 0 {
        lemma_loop_count(255);
    } else if c > 1 {
        lemma_loop_count((c - 1) as u8);
    }
}

/// A fifth nested call on a full stack is refused as a stack overflow; the
/// cursor itself is not touched.
pub proof fn lemma_call_stack_overflow(s: ScriptStateV, addr: u16)
    requires
        script_wf(s),
        s.depth == SCRIPT_STACK_MAX,
    ensures
        spec_op_call(s, addr) == Err::<ScriptStateV, FaultKind>(FaultKind::StackOverflow),
{
}

/// Every cursor an accepted call leaves behind stays within the stack
/// capacity.
pub proof fn lemma_call_depth_bounded(s: ScriptStateV, addr: u16)
    requires
        script_wf(s),
    ensures
        spec_op_call(s, addr) matches Ok(s2) ==> script_wf(s2) && s2.depth
            <= SCRIPT_STACK_MAX,
{
}

impl ScriptState {
    /// Executes an end instruction on the cursor.
    /// Returns true when the script is over (the stack was empty).
    pub fn op_end(&mut self) -> (done: bool)
        requires
            script_wf(old(self)@),
        ensures
            match spec_op_end(old(self)@) {
                None => done && final(self)@ == old(self)@,
                Some(s) => !done && final(self)@ == s,
            },
            script_wf(final(self)@),
    {
        if self.depth == 0 {
            true
        } else {
            self.depth = self.depth - 1;
            self.pc = self.stack[self.depth];
            false
        }
    }

    /// Executes a call on the cursor, pushing the current offset.
    pub fn op_call(&mut self, addr: u16) -> (r: Result<(), FaultKind>)
        requires
            script_wf(old(self)@),
        ensures
            match spec_op_call(old(self)@, addr) {
                Ok(s) => r is Ok && final(self)@ == s,
                Err(k) => r == Err::<(), FaultKind>(k) && final(self)@ == old(self)@,
            },
            script_wf(final(self)@),
    {
        if self.depth >= 4 {
            Err(FaultKind::StackOverflow)
        } else {
            self.stack[self.depth] = self.pc;
            self.depth = self.depth + 1;
            self.pc = addr;
            Ok(())
        }
    }

    /// Executes a loop start on the cursor, pushing the iteration count.
    pub fn op_loop(&mut self, count: u8) -> (r: Result<(), FaultKind>)
        requires
            script_wf(old(self)@),
        ensures
            match spec_op_loop(old(self)@, count) {
                Ok(s) => r is Ok && final(self)@ == s,
                Err(k) => r == Err::<(), FaultKind>(k) && final(self)@ == old(self)@,
            },
            script_wf(final(self)@),
    {
        if self.depth >= 4 {
            Err(FaultKind::StackOverflow)
        } else {
            self.rem_loop_iters[self.depth] = count;
            self.stack[self.depth] = self.pc;
            self.depth = self.depth + 1;
            Ok(())
        }
    }

    /// Executes a loop-end marker on the cursor.
    pub fn op_loop_end(&mut self) -> (r: Result<(), FaultKind>)
        requires
            script_wf(old(self)@),
        ensures
            match spec_op_loop_end(old(self)@) {
                Ok(s) => r is Ok && final(self)@ == s,
                Err(k) => r == Err::<(), FaultKind>(k) && final(self)@ == old(self)@,
            },
            script_wf(final(self)@),
    {
        if self.depth == 0 {
            Err(FaultKind::StackUnderflow)
        } else {
            let c: u8 = self.rem_loop_iters[self.depth - 1].wrapping_sub(1);
            self.rem_loop_iters[self.depth - 1] = c;
            if c != 0 {
                self.pc = self.stack[self.depth - 1];
            } else {
                self.depth = self.depth - 1;
            }
            Ok(())
        }
    }

    /// Executes a break on the cursor.
    pub fn op_break(&mut self) -> (r: Result<(), FaultKind>)
        requires
            script_wf(old(self)@),
        ensures
            match spec_op_break(old(self)@) {
                Ok(s) => r is Ok && final(self)@ == s,
                Err(k) => r == Err::<(), FaultKind>(k) && final(self)@ == old(self)@,
            },
            script_wf(final(self)@),
    {
        if self.depth == 0 {
            Err(FaultKind::StackUnderflow)
        } else {
            self.depth = self.depth - 1;
            Ok(())
        }
    }

    /// Executes a conditional branch on the cursor.
    pub fn op_branch(&mut self, addr: u16, cond: BranchCond) -> (r: Result<(), FaultKind>)
        requires
            script_wf(old(self)@),
        ensures
            match spec_op_branch(old(self)@, addr, cond) {
                Ok(s) => r is Ok && final(self)@ == s,
                Err(k) => r == Err::<(), FaultKind>(k) && final(self)@ == old(self)@,
            },
            script_wf(final(self)@),
    {
        match self.q {
            None => Err(FaultKind::ConditionUnset),
            Some(q) => {
                let hit: bool = match cond {
                    BranchCond::Eq0 => q == 0,
                    BranchCond::Lt0 => q < 0,
                    BranchCond::Ge0 => q >= 0,
                };
                if hit {
                    self.pc = addr;
                }
                Ok(())
            },
        }
    }
}

} // verus!
