//! What a handler asks of the world around it.
//!
//! A handler here touches no hardware. It returns, in order, the effects that
//! the code which received the interrupt must carry out on its behalf. The
//! list that it returns has a fixed capacity and lives in place: a handler may
//! run when the heap is the very thing that is broken.

use crate::decoder::Keystroke;
use vstd::prelude::*;

verus! {

/// The machine state that the processor delivers with an interrupt.
#[derive(Debug, Clone, Copy, PartialEq, Eq)]
pub struct StackFrame {
    /// Where execution resumes when the handler returns.
    pub instruction_pointer: u64,
    /// The code segment selector at the time of the interrupt.
    pub code_segment: u16,
    /// The flags register at the time of the interrupt.
    pub cpu_flags: u64,
    /// The stack pointer at the time of the interrupt.
    pub stack_pointer: u64,
    /// The stack segment selector at the time of the interrupt.
    pub stack_segment: u16,
}

/// How loudly a diagnostic is to be reported.
#[derive(Debug, Clone, Copy, PartialEq, Eq)]
pub enum Level {
    Debug,
    Error,
}

/// The content of a diagnostic, with the detail that it carries.
#[derive(Debug, Clone, Copy, PartialEq, Eq)]
pub enum Message {
    /// The vector table is being brought into use.
    TableInit,
    /// A breakpoint was hit, with the state in which it was hit.
    Breakpoint(StackFrame),
    /// A page fault occurred.
    PageFault,
    /// The address whose access faulted.
    AccessedAddress(u64),
    /// The error code that the processor pushed.
    ErrorCode(u64),
    /// The machine state at the fault.
    Frame(StackFrame),
    /// A double fault occurred, with the state in which it occurred.
    DoubleFault(StackFrame),
}

/// A message for the logging surface.
#[derive(Debug, Clone, Copy, PartialEq, Eq)]
pub struct Diagnostic {
    pub level: Level,
    pub message: Message,
}

/// One thing to be done for a handler.
#[derive(Debug, Clone, Copy, PartialEq, Eq)]
pub enum Effect {
    /// Hand the diagnostic to the logging surface.
    Log(Diagnostic),
    /// Forward the key press to the output surface.
    Output(Keystroke),
    /// Tell the controller chain that the interrupt on this vector is served.
    EndOfInterrupt(u8),
    /// Make the vector table the one that the processor consults.
    LoadTable,
    /// Park the processor for good.
    Halt,
}

/// The most effects that any handler asks for.
pub const MAX_EFFECTS: usize = 5;

/// The effects that a handler asks for, in the order in which they are to be
/// carried out.
#[derive(Debug, Clone, Copy, PartialEq, Eq)]
pub struct Effects {
    slots: [Option<Effect>; MAX_EFFECTS],
    count: usize,
}

impl View for Effects {
    type V = Seq<Effect>;

    closed spec fn view(&self) -> Seq<Effect> {
        Seq::new(self.count as nat, |i: int| self.slots@[i].unwrap())
    }
}

impl Effects {
    /// The first `count` slots are filled, and no others.
    #[verifier::type_invariant]
    spec fn well_formed(self) -> bool {
        &&& self.count <= MAX_EFFECTS
        &&& forall|i: int|
            0 <= i < MAX_EFFECTS ==> ((#[trigger] self.slots@[i]) is Some <==> i < self.count)
    }

    /// No effect at all.
    pub(crate) fn none() -> (effects: Effects)
        ensures
            effects@ == Seq::<Effect>::empty(),
    {
        Effects { slots: [None; MAX_EFFECTS], count: 0 }
    }

    /// These effects, and `effect` after them.
    pub(crate) fn with(self, effect: Effect) -> (effects: Effects)
        requires
            self@.len() < MAX_EFFECTS,
        ensures
            effects@ == self@.push(effect),
    {
        proof {
            use_type_invariant(&self);
        }
        let mut slots = self.slots;
        slots[self.count] = Some(effect);
        Effects { slots, count: self.count + 1 }
    }

    /// How many effects there are.
    pub fn len(&self) -> (count: usize)
        ensures
            count == self@.len(),
            count <= MAX_EFFECTS,
    {
        proof {
            use_type_invariant(self);
        }
        self.count
    }

    /// The effect at `index`, counted from zero, if there are that many.
    pub fn get(&self, index: usize) -> (effect: Option<Effect>)
        ensures
            effect == if index < self@.len() {
                Some(self@[index as int])
            } else {
                None
            },
    {
        proof {
            use_type_invariant(self);
        }
        if index < self.count {
            self.slots[index]
        } else {
            None
        }
    }
}

/// The diagnostic of level `Error` with the given content.
pub open spec fn error(message: Message) -> Effect {
    Effect::Log(Diagnostic { level: Level::Error, message })
}

/// The vectors that `effects` acknowledges, in the order in which it does.
pub open spec fn acknowledged(effects: Seq<Effect>) -> Seq<u8>
    decreases effects.len(),
{
    if effects.len() == 0 {
        Seq::empty()
    } else {
        let before = acknowledged(effects.drop_last());
        match effects.last() {
            Effect::EndOfInterrupt(vector) => before.push(vector),
            _ => before,
        }
    }
}

/// The key presses that `effects` sends to the output surface, in order.
pub open spec fn forwarded(effects: Seq<Effect>) -> Seq<Keystroke>
    decreases effects.len(),
{
    if effects.len() == 0 {
        Seq::empty()
    } else {
        let before = forwarded(effects.drop_last());
        match effects.last() {
            Effect::Output(key) => before.push(key),
            _ => before,
        }
    }
}

/// Acknowledgements are counted effect by effect: one more effect adds its
/// vector if it is an acknowledgement, and nothing otherwise.
pub proof fn lemma_acknowledged_push(effects: Seq<Effect>, effect: Effect)
    ensures
        acknowledged(effects.push(effect)) == match effect {
            Effect::EndOfInterrupt(vector) => acknowledged(effects).push(vector),
            _ => acknowledged(effects),
        },
{
    assert(effects.push(effect).drop_last() == effects);
}

/// Forwarded key presses are counted effect by effect: one more effect adds
/// its key press if it forwards one, and nothing otherwise.
pub proof fn lemma_forwarded_push(effects: Seq<Effect>, effect: Effect)
    ensures
        forwarded(effects.push(effect)) == match effect {
            Effect::Output(key) => forwarded(effects).push(key),
            _ => forwarded(effects),
        },
{
    assert(effects.push(effect).drop_last() == effects);
}

/// Whether `effects` leaves the processor halted: it ends in `Halt`.
pub open spec fn halts(effects: Seq<Effect>) -> bool {
    effects.len() > 0 && effects.last() == Effect::Halt
}

/// Whether `effects` lets execution go on: it holds no `Halt` at all.
pub open spec fn resumes(effects: Seq<Effect>) -> bool {
    forall|i: int| 0 <= i < effects.len() ==> effects[i] != Effect::Halt
}

} // verus!
