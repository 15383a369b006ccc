//! Interrupt vectors: the fixed assignment of each serviced interrupt to its
//! slot among the 256 that the processor knows.

use vstd::prelude::*;

verus! {

/// First vector of the primary controller once the chain is remapped.
pub const PIC_1_OFFSET: u8 = 32;

/// First vector of the secondary controller: the eight lines of the primary
/// come first.
pub const PIC_2_OFFSET: u8 = PIC_1_OFFSET + 8;

/// Number of vectors that the processor reserves for its own exceptions.
pub const RESERVED_VECTORS: u8 = 32;

/// Number of lines of one controller.
pub const LINES_PER_CONTROLLER: u8 = 8;

/// Remapped, the two controllers raise no vector that the processor reserves
/// for an exception, and none that the other raises: the primary's lines come
/// first, the secondary's right behind them.
pub proof fn lemma_controller_vectors_avoid_exceptions(line: u8)
    requires
        line < LINES_PER_CONTROLLER,
    ensures
        RESERVED_VECTORS <= PIC_1_OFFSET + line < PIC_2_OFFSET,
        PIC_2_OFFSET <= PIC_2_OFFSET + line <= u8::MAX,
        PIC_2_OFFSET == PIC_1_OFFSET + LINES_PER_CONTROLLER,
{
}

/// The interrupts that the kernel services.
#[derive(Debug, Clone, Copy, PartialEq, Eq, Structural)]
pub enum InterruptIndex {
    Breakpoint,
    DoubleFault,
    PageFault,
    Timer,
    Keyboard,
}

impl InterruptIndex {
    /// The vector of each interrupt. The three exceptions sit where the
    /// processor puts them; the device lines follow the primary controller's
    /// offset, timer first.
    pub open spec fn vector(self) -> u8 {
        match self {
            InterruptIndex::Breakpoint => 3,
            InterruptIndex::DoubleFault => 8,
            InterruptIndex::PageFault => 14,
            InterruptIndex::Timer => PIC_1_OFFSET,
            InterruptIndex::Keyboard => (PIC_1_OFFSET + 1) as u8,
        }
    }

    /// Whether the interrupt is raised by a device through the controller
    /// chain, as opposed to an exception that the processor detects itself.
    pub open spec fn is_device(self) -> bool {
        self == InterruptIndex::Timer || self == InterruptIndex::Keyboard
    }

    /// The interrupt assigned to `vector`, if there is one.
    pub open spec fn assigned(vector: int) -> Option<InterruptIndex> {
        if vector == InterruptIndex::Breakpoint.vector() {
            Some(InterruptIndex::Breakpoint)
        } else if vector == InterruptIndex::DoubleFault.vector() {
            Some(InterruptIndex::DoubleFault)
        } else if vector == InterruptIndex::PageFault.vector() {
            Some(InterruptIndex::PageFault)
        } else if vector == InterruptIndex::Timer.vector() {
            Some(InterruptIndex::Timer)
        } else if vector == InterruptIndex::Keyboard.vector() {
            Some(InterruptIndex::Keyboard)
        } else {
            None
        }
    }

    /// The vector of the interrupt.
    pub fn as_u8(self) -> (vector: u8)
        ensures
            vector == self.vector(),
    {
        match self {
            InterruptIndex::Breakpoint => 3,
            InterruptIndex::DoubleFault => 8,
            InterruptIndex::PageFault => 14,
            InterruptIndex::Timer => PIC_1_OFFSET,
            InterruptIndex::Keyboard => PIC_1_OFFSET + 1,
        }
    }

    /// The vector of the interrupt, as an index into a table of vectors.
    pub fn as_usize(self) -> (vector: usize)
        ensures
            vector == self.vector(),
    {
        self.as_u8() as usize
    }

    /// A device vector never falls among the vectors reserved for exceptions,
    /// and an exception's vector always does. The device vectors are lines of
    /// the primary controller, the timer's first and the keyboard's next.
    pub proof fn lemma_device_vectors_avoid_exceptions(self)
        ensures
            self.is_device() <==> self.vector() >= RESERVED_VECTORS,
            self.is_device() ==> PIC_1_OFFSET <= self.vector() < PIC_2_OFFSET,
            self == InterruptIndex::Timer ==> self.vector() == PIC_1_OFFSET,
            self == InterruptIndex::Keyboard ==> self.vector() == InterruptIndex::Timer.vector() + 1,
    {
    }

    /// No two interrupts share a vector.
    pub proof fn lemma_vectors_distinct(self, other: InterruptIndex)
        requires
            self.vector() == other.vector(),
        ensures
            self == other,
    {
    }

    /// `assigned` undoes `vector`, and finds nothing anywhere else.
    pub proof fn lemma_assigned_inverts_vector(vector: int)
        ensures
            forall|index: InterruptIndex|
                (#[trigger] index.vector()) == vector <==> InterruptIndex::assigned(vector) == Some(
                    index,
                ),
    {
    }
}

} // verus!
