//! The vector table: for each of the 256 vectors, the handler that the
//! processor enters, or nothing.

use crate::vector::InterruptIndex;
use vstd::prelude::*;

verus! {

/// Number of vectors that the processor knows.
pub const VECTORS: usize = 256;

/// What the table holds for a vector that is served.
#[derive(Debug, Clone, Copy, PartialEq, Eq)]
pub struct TableEntry {
    /// The vector that the entry answers.
    pub vector: u8,
    /// The handler that the processor enters.
    pub handler: InterruptIndex,
    /// The known-good stack to which the processor switches before it enters
    /// the handler, by its index in the stack-switch resource, if any.
    pub stack_index: Option<u16>,
}

/// The vector table. It is built in one piece and offers no way to change
/// it afterwards: the processor is entitled to a table that stays as loaded.
#[derive(Debug, PartialEq, Eq)]
pub struct VectorTable {
    slots: [Option<TableEntry>; VECTORS],
}

/// The entry with which `handler` is installed: at its own vector, and on the
/// dedicated stack if it is the double-fault handler.
pub open spec fn entry_for(handler: InterruptIndex, double_fault_stack: u16) -> TableEntry {
    TableEntry {
        vector: handler.vector(),
        handler,
        stack_index: if handler == InterruptIndex::DoubleFault {
            Some(double_fault_stack)
        } else {
            None
        },
    }
}

/// What the built table holds at `vector`.
pub open spec fn built_entry(vector: int, double_fault_stack: u16) -> Option<TableEntry> {
    match InterruptIndex::assigned(vector) {
        Some(handler) => Some(entry_for(handler, double_fault_stack)),
        None => None,
    }
}

/// The built table: every serviced interrupt at its vector, nothing anywhere
/// else.
pub open spec fn built(double_fault_stack: u16) -> Seq<Option<TableEntry>> {
    Seq::new(VECTORS as nat, |vector: int| built_entry(vector, double_fault_stack))
}

impl View for VectorTable {
    type V = Seq<Option<TableEntry>>;

    closed spec fn view(&self) -> Seq<Option<TableEntry>> {
        self.slots@
    }
}

impl VectorTable {
    /// Every entry sits in the slot of its vector, which is its handler's.
    #[verifier::type_invariant]
    spec fn well_formed(self) -> bool {
        &&& self.slots@.len() == VECTORS
        &&& forall|vector: int|
            0 <= vector < VECTORS ==> ((#[trigger] self.slots@[vector]) matches Some(entry)
                ==> entry.vector == vector && entry.handler.vector() == vector)
    }

    /// A table in which no vector is served.
    fn empty() -> (table: VectorTable)
        ensures
            table@ == Seq::new(VECTORS as nat, |vector: int| None::<TableEntry>),
    {
        VectorTable { slots: [None; VECTORS] }
    }

    /// The table with `handler` installed at its vector in place of what was
    /// there.
    fn with_handler(self, handler: InterruptIndex, stack_index: Option<u16>) -> (table: VectorTable)
        ensures
            table@ == self@.update(
                handler.vector() as int,
                Some(TableEntry { vector: handler.vector(), handler, stack_index }),
            ),
    {
        proof {
            use_type_invariant(&self);
        }
        let mut slots = self.slots;
        slots[handler.as_usize()] = Some(TableEntry { vector: handler.as_u8(), handler, stack_index });
        VectorTable { slots }
    }

    /// Builds the table: each serviced interrupt is installed at its vector,
    /// the double-fault handler on the stack that `double_fault_stack` names,
    /// and every other vector is left to the processor's own fault.
    pub fn build(double_fault_stack: u16) -> (table: VectorTable)
        ensures
            table@ == built(double_fault_stack),
    {
        VectorTable::empty()
            .with_handler(InterruptIndex::Breakpoint, None)
            .with_handler(InterruptIndex::DoubleFault, Some(double_fault_stack))
            .with_handler(InterruptIndex::PageFault, None)
            .with_handler(InterruptIndex::Timer, None)
            .with_handler(InterruptIndex::Keyboard, None)
    }

    /// What the table holds at `vector`. `None` says that the vector is not
    /// served: the processor answers it with its own fault.
    pub fn entry(&self, vector: u8) -> (entry: Option<TableEntry>)
        ensures
            self@.len() == VECTORS,
            entry == self@[vector as int],
            entry matches Some(found) ==> found.vector == vector && found.handler.vector() == vector,
    {
        proof {
            use_type_invariant(self);
        }
        self.slots[vector as usize]
    }
}

/// The built table serves the vectors that have an interrupt assigned, each
/// with that interrupt's handler, and no others: whatever else is triggered
/// meets an empty slot and with it the processor's own fault.
pub proof fn lemma_unassigned_vectors_fall_through(double_fault_stack: u16, vector: u8)
    ensures
        built(double_fault_stack).len() == VECTORS,
        built(double_fault_stack)[vector as int] is None <==> InterruptIndex::assigned(vector as int)
            is None,
        forall|handler: InterruptIndex|
            (#[trigger] handler.vector()) == vector ==> built(double_fault_stack)[vector as int]
                == Some(entry_for(handler, double_fault_stack)),
{
}

/// No handler is installed twice: two served vectors with one handler are
/// one vector.
pub proof fn lemma_one_vector_per_handler(double_fault_stack: u16, first: u8, second: u8)
    requires
        built(double_fault_stack)[first as int] matches Some(one) && built(
            double_fault_stack,
        )[second as int] matches Some(other) && one.handler == other.handler,
    ensures
        first == second,
{
}

/// Building is deterministic: whatever two runs of `build` return for one
/// stack index, they map every vector alike.
pub proof fn lemma_build_deterministic(first: VectorTable, second: VectorTable, double_fault_stack: u16)
    requires
        first@ == built(double_fault_stack),
        second@ == built(double_fault_stack),
    ensures
        first@ == second@,
        forall|vector: int| 0 <= vector < VECTORS ==> first@[vector] == second@[vector],
{
}

/// Building is idempotent: to install a serviced interrupt once more in the
/// built table changes nothing.
pub proof fn lemma_build_idempotent(double_fault_stack: u16, handler: InterruptIndex)
    ensures
        built(double_fault_stack).update(
            handler.vector() as int,
            Some(entry_for(handler, double_fault_stack)),
        ) == built(double_fault_stack),
{
}

/// The double-fault handler, and it alone, runs on a stack of its own: the
/// one that the table was built with.
pub proof fn lemma_double_fault_alone_switches_stack(double_fault_stack: u16, vector: u8)
    ensures
        built(double_fault_stack)[vector as int] matches Some(entry) ==> entry.stack_index == (
        if entry.handler == InterruptIndex::DoubleFault {
            Some(double_fault_stack)
        } else {
            None
        }),
        built(double_fault_stack)[InterruptIndex::DoubleFault.vector() as int] matches Some(entry)
            && entry.stack_index == Some(double_fault_stack),
{
}

} // verus!
