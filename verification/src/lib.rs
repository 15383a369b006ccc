//! Decision core of a kernel's interrupt subsystem on x86-64.
//!
//! The processor, the chained interrupt controller and the keyboard port are
//! driven by the code that embeds this library. Everything that can be decided
//! without touching hardware is decided here: which vector belongs to which
//! interrupt, what the vector table holds, and what each handler asks of the
//! logging surface, the output surface, the controller and the processor.

pub mod decoder;
pub mod effect;
pub mod handlers;
pub mod table;
pub mod vector;

pub use decoder::{Decoder, Keystroke};
pub use effect::{Diagnostic, Effect, Effects, Level, Message, StackFrame, MAX_EFFECTS};
pub use handlers::{init_idt, respond_to_key, KEYBOARD_DATA_PORT};
pub use table::{TableEntry, VectorTable};
pub use vector::{InterruptIndex, PIC_1_OFFSET, PIC_2_OFFSET};
