//! The handlers: what is to be done when each serviced interrupt arrives.

use crate::decoder::{decode, opens_sequence, partial_after, Decoder, Keystroke};
use crate::effect::{
    acknowledged, error, forwarded, halts, lemma_acknowledged_push, lemma_forwarded_push, resumes, Diagnostic,
    Effect, Effects, Level, Message, StackFrame,
};
use crate::vector::InterruptIndex;
use vstd::prelude::*;

verus! {

/// The port from which the keyboard handler's byte is read.
pub const KEYBOARD_DATA_PORT: u16 = 0x60;

/// What bringing the vector table into use asks for: announce it, load it.
pub open spec fn init_effects() -> Seq<Effect> {
    seq![
        Effect::Log(Diagnostic { level: Level::Debug, message: Message::TableInit }),
        Effect::LoadTable,
    ]
}

/// What a breakpoint asks for: report the machine state, and go on.
pub open spec fn breakpoint_effects(frame: StackFrame) -> Seq<Effect> {
    seq![error(Message::Breakpoint(frame))]
}

/// What a page fault asks for: report the fault, the address, the error code
/// and the machine state, then halt.
pub open spec fn page_fault_effects(frame: StackFrame, error_code: u64, address: u64) -> Seq<Effect> {
    seq![
        error(Message::PageFault),
        error(Message::AccessedAddress(address)),
        error(Message::ErrorCode(error_code)),
        error(Message::Frame(frame)),
        Effect::Halt,
    ]
}

/// What a double fault asks for: report the machine state, then halt.
pub open spec fn double_fault_effects(frame: StackFrame) -> Seq<Effect> {
    seq![error(Message::DoubleFault(frame)), Effect::Halt]
}

/// What a timer tick asks for: nothing but the acknowledgement of its line.
pub open spec fn timer_effects() -> Seq<Effect> {
    seq![Effect::EndOfInterrupt(InterruptIndex::Timer.vector())]
}

/// What a byte from the keyboard asks for, given the key press that it
/// completed, if any: forward the key press, and acknowledge the line whether
/// or not there was one.
pub open spec fn keyboard_effects(key: Option<Keystroke>) -> Seq<Effect> {
    match key {
        Some(key) => seq![
            Effect::Output(key),
            Effect::EndOfInterrupt(InterruptIndex::Keyboard.vector()),
        ],
        None => seq![Effect::EndOfInterrupt(InterruptIndex::Keyboard.vector())],
    }
}

/// Every device interrupt is acknowledged exactly once, on its own line and
/// as the last thing done for it: the timer's on each tick, the keyboard's
/// whatever the byte decoded to.
pub proof fn lemma_device_interrupts_acknowledged_once(key: Option<Keystroke>)
    ensures
        acknowledged(timer_effects()) == seq![InterruptIndex::Timer.vector()],
        acknowledged(keyboard_effects(key)) == seq![InterruptIndex::Keyboard.vector()],
        timer_effects().last() == Effect::EndOfInterrupt(InterruptIndex::Timer.vector()),
        keyboard_effects(key).last() == Effect::EndOfInterrupt(InterruptIndex::Keyboard.vector()),
{
    let none = Seq::<Effect>::empty();
    let timer = Effect::EndOfInterrupt(InterruptIndex::Timer.vector());
    let keyboard = Effect::EndOfInterrupt(InterruptIndex::Keyboard.vector());
    lemma_acknowledged_push(none, timer);
    assert(timer_effects() == none.push(timer));
    lemma_acknowledged_push(none, keyboard);
    match key {
        Some(key) => {
            lemma_acknowledged_push(none, Effect::Output(key));
            lemma_acknowledged_push(none.push(Effect::Output(key)), keyboard);
            assert(keyboard_effects(Some(key)) == none.push(Effect::Output(key)).push(keyboard));
        },
        None => {
            assert(keyboard_effects(None) == none.push(keyboard));
        },
    }
}

/// Nothing but a device handler acknowledges anything: the exception
/// handlers and the initialisation leave the controller chain alone.
pub proof fn lemma_exceptions_acknowledge_nothing(frame: StackFrame, error_code: u64, address: u64)
    ensures
        acknowledged(init_effects()) == Seq::<u8>::empty(),
        acknowledged(breakpoint_effects(frame)) == Seq::<u8>::empty(),
        acknowledged(page_fault_effects(frame, error_code, address)) == Seq::<u8>::empty(),
        acknowledged(double_fault_effects(frame)) == Seq::<u8>::empty(),
{
    let none = Seq::<Effect>::empty();
    let init = init_effects();
    lemma_acknowledged_push(none, init[0]);
    lemma_acknowledged_push(none.push(init[0]), init[1]);
    assert(init == none.push(init[0]).push(init[1]));
    let breakpoint = breakpoint_effects(frame);
    lemma_acknowledged_push(none, breakpoint[0]);
    assert(breakpoint == none.push(breakpoint[0]));
    let page = page_fault_effects(frame, error_code, address);
    lemma_acknowledged_push(none, page[0]);
    lemma_acknowledged_push(page.take(1), page[1]);
    lemma_acknowledged_push(page.take(2), page[2]);
    lemma_acknowledged_push(page.take(3), page[3]);
    lemma_acknowledged_push(page.take(4), page[4]);
    assert(page.take(1) == none.push(page[0]));
    assert(page.take(2) == page.take(1).push(page[1]));
    assert(page.take(3) == page.take(2).push(page[2]));
    assert(page.take(4) == page.take(3).push(page[3]));
    assert(page == page.take(4).push(page[4]));
    let double = double_fault_effects(frame);
    lemma_acknowledged_push(none, double[0]);
    lemma_acknowledged_push(none.push(double[0]), double[1]);
    assert(double == none.push(double[0]).push(double[1]));
}

/// The keyboard handler forwards exactly the key press that the byte
/// completed: one if there was one, none if there was none.
pub proof fn lemma_keyboard_forwards_the_key(key: Option<Keystroke>)
    ensures
        forwarded(keyboard_effects(key)) == match key {
            Some(key) => seq![key],
            None => Seq::<Keystroke>::empty(),
        },
{
    let none = Seq::<Effect>::empty();
    let keyboard = Effect::EndOfInterrupt(InterruptIndex::Keyboard.vector());
    lemma_forwarded_push(none, keyboard);
    match key {
        Some(key) => {
            lemma_forwarded_push(none, Effect::Output(key));
            lemma_forwarded_push(none.push(Effect::Output(key)), keyboard);
            assert(keyboard_effects(Some(key)) == none.push(Effect::Output(key)).push(keyboard));
        },
        None => {
            assert(keyboard_effects(None) == none.push(keyboard));
        },
    }
}

/// A page fault and a double fault end with the processor halted, whatever
/// they were delivered with; a breakpoint, a timer tick and a byte from the
/// keyboard never halt it.
pub proof fn lemma_only_faults_halt(
    frame: StackFrame,
    error_code: u64,
    address: u64,
    key: Option<Keystroke>,
)
    ensures
        halts(page_fault_effects(frame, error_code, address)),
        halts(double_fault_effects(frame)),
        resumes(breakpoint_effects(frame)),
        resumes(timer_effects()),
        resumes(keyboard_effects(key)),
        resumes(init_effects()),
{
}

/// The report of `message` as an error.
fn report(message: Message) -> (effect: Effect)
    ensures
        effect == error(message),
{
    Effect::Log(Diagnostic { level: Level::Error, message })
}

/// Brings the vector table into use: the returned effects announce the
/// initialisation and then load the table.
pub fn init_idt() -> (effects: Effects)
    ensures
        effects@ == init_effects(),
{
    Effects::none().with(
        Effect::Log(Diagnostic { level: Level::Debug, message: Message::TableInit }),
    ).with(Effect::LoadTable)
}

/// The effects that answer a byte from the keyboard once the decoder has
/// said which key press, if any, the byte completed.
pub fn respond_to_key(key: Option<Keystroke>) -> (effects: Effects)
    ensures
        effects@ == keyboard_effects(key),
{
    let forwarded = match key {
        Some(key) => Effects::none().with(Effect::Output(key)),
        None => Effects::none(),
    };
    forwarded.with(InterruptIndex::send_bye_signal(InterruptIndex::Keyboard))
}

impl InterruptIndex {
    /// The acknowledgement of the interrupt `i` at the controller chain.
    pub fn send_bye_signal(i: InterruptIndex) -> (effect: Effect)
        ensures
            effect == Effect::EndOfInterrupt(i.vector()),
    {
        Effect::EndOfInterrupt(i.as_u8())
    }

    /// Handles a page fault on `accessed_address`, the content of the
    /// processor's fault-address register. There is no recovery: the fault is
    /// reported in full and the processor halted.
    pub fn page_fault(frame: &StackFrame, error_code: u64, accessed_address: u64) -> (effects: Effects)
        ensures
            effects@ == page_fault_effects(*frame, error_code, accessed_address),
    {
        Effects::none()
            .with(report(Message::PageFault))
            .with(report(Message::AccessedAddress(accessed_address)))
            .with(report(Message::ErrorCode(error_code)))
            .with(report(Message::Frame(*frame)))
            .with(Effect::Halt)
    }

    /// Handles a tick of the timer. No work hangs on the tick yet; the line is
    /// acknowledged so that the next one can arrive.
    pub fn timer(_frame: &StackFrame) -> (effects: Effects)
        ensures
            effects@ == timer_effects(),
            acknowledged(effects@) == seq![InterruptIndex::Timer.vector()],
    {
        let effects = Effects::none().with(InterruptIndex::send_bye_signal(InterruptIndex::Timer));
        proof {
            lemma_device_interrupts_acknowledged_once(None);
            assert(effects@ == timer_effects());
        }
        effects
    }

    /// Handles the arrival of `scancode`, the byte read from the keyboard's
    /// data port. The byte goes to the decoder; a key press that it completes
    /// is forwarded; the line is acknowledged in every case.
    pub fn keyboard(_frame: &StackFrame, decoder: &mut Decoder, scancode: u8) -> (effects: Effects)
        ensures
            final(decoder)@ == decode(old(decoder)@, scancode).0,
            final(decoder).partial() == partial_after(old(decoder).partial(), scancode),
            effects@ == keyboard_effects(decode(old(decoder)@, scancode).1),
            opens_sequence(old(decoder).partial(), scancode) ==> effects@ == keyboard_effects(None),
            acknowledged(effects@) == seq![InterruptIndex::Keyboard.vector()],
    {
        let key = decoder.feed(scancode);
        proof {
            lemma_device_interrupts_acknowledged_once(key);
        }
        respond_to_key(key)
    }

    /// Handles a breakpoint: the machine state is reported and execution goes
    /// on behind the instruction that trapped.
    pub fn breakpoint(frame: &StackFrame) -> (effects: Effects)
        ensures
            effects@ == breakpoint_effects(*frame),
    {
        Effects::none().with(report(Message::Breakpoint(*frame)))
    }

    /// Handles a double fault: the machine state is reported and the
    /// processor halted, whatever the frame and the error code hold.
    pub fn double_fault(frame: &StackFrame, _error_code: u64) -> (effects: Effects)
        ensures
            effects@ == double_fault_effects(*frame),
    {
        Effects::none().with(report(Message::DoubleFault(*frame))).with(Effect::Halt)
    }
}

} // verus!
