use interrupts::{
    init_idt, respond_to_key, Diagnostic, Effect, Effects, InterruptIndex, Keystroke, Level, Message,
    StackFrame, KEYBOARD_DATA_PORT, MAX_EFFECTS,
};
use pc_keyboard::KeyCode;

fn frame() -> StackFrame {
    StackFrame {
        instruction_pointer: 0xffff_8000_0010_2030,
        code_segment: 8,
        cpu_flags: 0x202,
        stack_pointer: 0xffff_8000_0020_0ff8,
        stack_segment: 0,
    }
}

fn error(message: Message) -> Effect {
    Effect::Log(Diagnostic { level: Level::Error, message })
}

fn list(effects: Effects) -> Vec<Effect> {
    let mut all = Vec::new();
    for index in 0..effects.len() {
        all.push(effects.get(index).unwrap());
    }
    all
}

fn acknowledgements(effects: &[Effect]) -> Vec<u8> {
    let mut vectors = Vec::new();
    for effect in effects {
        if let Effect::EndOfInterrupt(vector) = effect {
            vectors.push(*vector);
        }
    }
    vectors
}

#[test]
fn test_breakpoint_exception() {
    let effects = list(InterruptIndex::breakpoint(&frame()));
    assert_eq!(effects, vec![error(Message::Breakpoint(frame()))]);
}

#[test]
fn breakpoint_logs_the_frame_and_goes_on() {
    let effects = list(InterruptIndex::breakpoint(&frame()));
    assert_eq!(effects.len(), 1);
    assert_eq!(
        effects[0],
        Effect::Log(Diagnostic { level: Level::Error, message: Message::Breakpoint(frame()) })
    );
    assert!(!effects.contains(&Effect::Halt));
    assert_eq!(acknowledgements(&effects), Vec::<u8>::new());
}

#[test]
fn page_fault_logs_the_injected_address_and_halts() {
    let effects = list(InterruptIndex::page_fault(&frame(), 0b10, 0xdead_beef));
    assert_eq!(
        effects,
        vec![
            error(Message::PageFault),
            error(Message::AccessedAddress(0xdead_beef)),
            error(Message::ErrorCode(0b10)),
            error(Message::Frame(frame())),
            Effect::Halt,
        ]
    );
    assert_eq!(effects.last(), Some(&Effect::Halt));
    assert_eq!(acknowledgements(&effects), Vec::<u8>::new());
}

#[test]
fn page_fault_keeps_address_and_error_code_apart() {
    let effects = list(InterruptIndex::page_fault(&frame(), 7, 9));
    assert_eq!(effects[1], error(Message::AccessedAddress(9)));
    assert_eq!(effects[2], error(Message::ErrorCode(7)));
    let effects = list(InterruptIndex::page_fault(&frame(), u64::MAX, 0));
    assert_eq!(effects[1], error(Message::AccessedAddress(0)));
    assert_eq!(effects[2], error(Message::ErrorCode(u64::MAX)));
}

#[test]
fn double_fault_logs_and_halts() {
    let effects = list(InterruptIndex::double_fault(&frame(), 0));
    assert_eq!(effects, vec![error(Message::DoubleFault(frame())), Effect::Halt]);
}

#[test]
fn double_fault_with_a_broken_stack_pointer_still_completes() {
    let broken = StackFrame { stack_pointer: 0, ..frame() };
    let effects = list(InterruptIndex::double_fault(&broken, 0xffff));
    assert_eq!(effects, vec![error(Message::DoubleFault(broken)), Effect::Halt]);
    let broken = StackFrame { stack_pointer: u64::MAX, ..frame() };
    let effects = list(InterruptIndex::double_fault(&broken, 0));
    assert_eq!(effects, vec![error(Message::DoubleFault(broken)), Effect::Halt]);
}

#[test]
fn timer_only_acknowledges_its_line() {
    let effects = list(InterruptIndex::timer(&frame()));
    assert_eq!(effects, vec![Effect::EndOfInterrupt(32)]);
    assert_eq!(acknowledgements(&effects), vec![32]);
}

#[test]
fn send_bye_signal_names_the_vector_of_its_interrupt() {
    assert_eq!(InterruptIndex::send_bye_signal(InterruptIndex::Timer), Effect::EndOfInterrupt(32));
    assert_eq!(InterruptIndex::send_bye_signal(InterruptIndex::Keyboard), Effect::EndOfInterrupt(33));
    assert_eq!(InterruptIndex::send_bye_signal(InterruptIndex::Breakpoint), Effect::EndOfInterrupt(3));
    assert_eq!(InterruptIndex::send_bye_signal(InterruptIndex::DoubleFault), Effect::EndOfInterrupt(8));
    assert_eq!(InterruptIndex::send_bye_signal(InterruptIndex::PageFault), Effect::EndOfInterrupt(14));
}

#[test]
fn init_announces_and_then_loads() {
    assert_eq!(
        list(init_idt()),
        vec![
            Effect::Log(Diagnostic { level: Level::Debug, message: Message::TableInit }),
            Effect::LoadTable,
        ]
    );
    assert_eq!(init_idt(), init_idt());
}

#[test]
fn a_character_is_forwarded_and_the_line_acknowledged() {
    let key = Keystroke::Unicode('q');
    assert_eq!(list(respond_to_key(Some(key))), vec![Effect::Output(key), Effect::EndOfInterrupt(33)]);
}

#[test]
fn a_raw_key_is_forwarded_and_the_line_acknowledged() {
    let key = Keystroke::RawKey(KeyCode::F1);
    assert_eq!(list(respond_to_key(Some(key))), vec![Effect::Output(key), Effect::EndOfInterrupt(33)]);
}

#[test]
fn no_key_is_still_acknowledged() {
    assert_eq!(list(respond_to_key(None)), vec![Effect::EndOfInterrupt(33)]);
}

#[test]
fn exception_handlers_acknowledge_nothing() {
    assert!(acknowledgements(&list(InterruptIndex::breakpoint(&frame()))).is_empty());
    assert!(acknowledgements(&list(InterruptIndex::page_fault(&frame(), 0, 0))).is_empty());
    assert!(acknowledgements(&list(InterruptIndex::double_fault(&frame(), 0))).is_empty());
    assert!(acknowledgements(&list(init_idt())).is_empty());
}

#[test]
fn keyboard_data_port_is_fixed() {
    assert_eq!(KEYBOARD_DATA_PORT, 0x60);
}

#[test]
fn effects_are_counted_and_read_by_index() {
    let effects = InterruptIndex::page_fault(&frame(), 1, 2);
    assert_eq!(effects.len(), 5);
    assert_eq!(effects.len(), MAX_EFFECTS);
    assert_eq!(effects.get(0), Some(error(Message::PageFault)));
    assert_eq!(effects.get(4), Some(Effect::Halt));
    assert_eq!(effects.get(5), None);
    assert_eq!(effects.get(usize::MAX), None);
    let effects = InterruptIndex::timer(&frame());
    assert_eq!(effects.len(), 1);
    assert_eq!(effects.get(0), Some(Effect::EndOfInterrupt(32)));
    assert_eq!(effects.get(1), None);
}

#[test]
fn equal_requests_give_equal_effects() {
    assert_eq!(InterruptIndex::timer(&frame()), InterruptIndex::timer(&frame()));
    assert_eq!(InterruptIndex::page_fault(&frame(), 1, 2), InterruptIndex::page_fault(&frame(), 1, 2));
    assert_ne!(InterruptIndex::page_fault(&frame(), 1, 2), InterruptIndex::page_fault(&frame(), 1, 3));
    assert_ne!(InterruptIndex::breakpoint(&frame()), InterruptIndex::timer(&frame()));
}
