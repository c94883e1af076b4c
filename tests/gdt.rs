use rust_os::gdt::{double_fault_stack_top, STACK_SIZE};

#[test]
fn stack_top_is_the_end_of_the_region() {
    assert_eq!(STACK_SIZE, 4096 * 5);
    assert_eq!(double_fault_stack_top(0x1000), Some(0x1000 + 20480));
    assert_eq!(double_fault_stack_top(0), Some(20480));
    assert_eq!(double_fault_stack_top(0xffff_8000_0000_0000), Some(0xffff_8000_0000_5000));
}

#[test]
fn non_canonical_start_is_refused() {
    assert_eq!(double_fault_stack_top(0x0000_8000_0000_0000), None);
    assert_eq!(double_fault_stack_top(0x1234_0000_0000_0000), None);
}

#[test]
fn end_past_the_lower_half_is_refused() {
    assert_eq!(double_fault_stack_top(0x0000_7fff_ffff_f000), None);
    assert_eq!(double_fault_stack_top(0x0000_7fff_ffff_b000), None);
    assert_eq!(double_fault_stack_top(0x0000_7fff_ffff_a000), Some(0x0000_7fff_ffff_f000));
}

#[test]
fn end_past_the_address_space_is_refused() {
    assert_eq!(double_fault_stack_top(0xffff_ffff_ffff_f000), None);
}
