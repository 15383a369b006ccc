use interrupts::{InterruptIndex, PIC_1_OFFSET, PIC_2_OFFSET};

const ALL: [InterruptIndex; 5] = [
    InterruptIndex::Breakpoint,
    InterruptIndex::DoubleFault,
    InterruptIndex::PageFault,
    InterruptIndex::Timer,
    InterruptIndex::Keyboard,
];

#[test]
fn controller_offsets_follow_each_other() {
    assert_eq!(PIC_1_OFFSET, 32);
    assert_eq!(PIC_2_OFFSET, 40);
    assert_eq!(PIC_2_OFFSET, PIC_1_OFFSET + 8);
}

#[test]
fn exceptions_sit_at_their_processor_vectors() {
    assert_eq!(InterruptIndex::Breakpoint.as_u8(), 3);
    assert_eq!(InterruptIndex::DoubleFault.as_u8(), 8);
    assert_eq!(InterruptIndex::PageFault.as_u8(), 14);
}

#[test]
fn device_vectors_start_at_the_primary_offset() {
    assert_eq!(InterruptIndex::Timer.as_u8(), 32);
    assert_eq!(InterruptIndex::Keyboard.as_u8(), 33);
    assert_eq!(InterruptIndex::Timer.as_u8(), PIC_1_OFFSET);
    assert_eq!(InterruptIndex::Keyboard.as_u8(), InterruptIndex::Timer.as_u8() + 1);
}

#[test]
fn as_usize_agrees_with_as_u8() {
    assert_eq!(InterruptIndex::Breakpoint.as_usize(), 3);
    assert_eq!(InterruptIndex::DoubleFault.as_usize(), 8);
    assert_eq!(InterruptIndex::PageFault.as_usize(), 14);
    assert_eq!(InterruptIndex::Timer.as_usize(), 32);
    assert_eq!(InterruptIndex::Keyboard.as_usize(), 33);
    for index in ALL {
        assert_eq!(index.as_usize(), usize::from(index.as_u8()));
    }
}

#[test]
fn device_vectors_avoid_the_reserved_range() {
    for index in ALL {
        let device = matches!(index, InterruptIndex::Timer | InterruptIndex::Keyboard);
        assert_eq!(index.as_u8() >= 32, device);
        if device {
            assert!(PIC_1_OFFSET <= index.as_u8() && index.as_u8() < PIC_2_OFFSET);
        }
    }
}

#[test]
fn no_two_interrupts_share_a_vector() {
    for (i, first) in ALL.iter().enumerate() {
        for (j, second) in ALL.iter().enumerate() {
            assert_eq!(first.as_u8() == second.as_u8(), i == j);
        }
    }
}

#[test]
fn controller_lines_avoid_the_reserved_range_and_each_other() {
    for line in 0..8u8 {
        let primary = PIC_1_OFFSET + line;
        let secondary = PIC_2_OFFSET + line;
        assert!(primary >= 32);
        assert!(primary < PIC_2_OFFSET);
        assert!(secondary >= PIC_2_OFFSET);
        assert_ne!(primary, secondary);
    }
    assert_eq!(PIC_2_OFFSET + 7, 47);
}
