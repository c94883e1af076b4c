use rust_os::interrupts::{InterruptIndex, PIC_1_OFFSET, PIC_2_OFFSET};
use rust_os::QemuExitCode;

#[test]
fn controller_offsets_clear_the_exceptions_and_each_other() {
    assert!(PIC_1_OFFSET >= 32);
    assert_eq!(PIC_1_OFFSET, 32);
    assert_eq!(PIC_2_OFFSET, PIC_1_OFFSET + 8);
    for line in [InterruptIndex::Timer, InterruptIndex::Keyboard] {
        let v = line.as_u8();
        assert!(v >= PIC_1_OFFSET && v <= PIC_1_OFFSET + 15);
    }
}

#[test]
fn lines_are_assigned_from_the_master_offset() {
    assert_eq!(InterruptIndex::Timer.as_u8(), 32);
    assert_eq!(InterruptIndex::Keyboard.as_u8(), 33);
    assert_eq!(InterruptIndex::Timer.cast_to_usize(), 32usize);
    assert_eq!(InterruptIndex::Keyboard.cast_to_usize(), 33usize);
}

#[test]
fn exit_codes() {
    assert_eq!(QemuExitCode::Success.code(), 0x10);
    assert_eq!(QemuExitCode::Failure.code(), 0x11);
}
