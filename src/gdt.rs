//! The dedicated double-fault stack referenced by the task-state structure.
use vstd::prelude::*;

verus! {

/// Interrupt-stack-table slot that holds the double-fault stack.
pub const DOUBLE_FAULT_IST_INDEX: u16 = 0;

/// Size in bytes of the double-fault stack: five pages.
pub const STACK_SIZE: u64 = 20480;

/// Whether `addr` is a canonical x86_64 virtual address: bits 48 to 63 are
/// copies of bit 47.
pub open spec fn is_canonical(addr: u64) -> bool {
    addr < 0x0000_8000_0000_0000 || addr >= 0xffff_8000_0000_0000
}

/// Relies on x86_64::VirtAddr::try_new, which accepts an address exactly when
/// sign-extending its bit 47 over bits 48 to 63 leaves it unchanged.
#[verifier::external_body]
fn is_canonical_address(addr: u64) -> (r: bool)
    ensures
        r == is_canonical(addr),
{
    x86_64::VirtAddr::try_new(addr).is_ok()
}

/// The stack-top address to put in the double-fault slot for a stack region
/// that starts at `stack_start`. Stacks grow down, so this is the end of the
/// region. `None` where the start or the end is not a canonical address, or
/// the end does not fit in 64 bits.
pub fn double_fault_stack_top(stack_start: u64) -> (r: Option<u64>)
    ensures
        r == (if is_canonical(stack_start) && stack_start + STACK_SIZE <= u64::MAX
            && is_canonical((stack_start + STACK_SIZE) as u64) {
            Some((stack_start + STACK_SIZE) as u64)
        } else {
            None
        }),
{
    if !is_canonical_address(stack_start) {
        return None;
    }
    match stack_start.checked_add(STACK_SIZE) {
        Some(end) => {
            if is_canonical_address(end) {
                Some(end)
            } else {
                None
            }
        },
        None => None,
    }
}

} // verus!
