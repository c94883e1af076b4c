//! Trap and interrupt core of a small x86_64 kernel: the vector assignment of
//! the chained interrupt controllers, the vector table plan, the per-event
//! handler decisions, the double-fault stack, and the text grid writer.
use vstd::prelude::*;

pub mod boot;
pub mod gdt;
pub mod handlers;
pub mod interrupts;
pub mod keyboard;
pub mod vectors;
pub mod vga_buffer;

verus! {

/// Status written to the emulator's exit port when the kernel stops.
#[derive(Debug, Clone, Copy, PartialEq, Eq, Structural)]
pub enum QemuExitCode {
    Success,
    Failure,
}

impl QemuExitCode {
    /// The value written to the exit port for this status.
    pub open spec fn spec_code(self) -> u32 {
        match self {
            QemuExitCode::Success => 0x10,
            QemuExitCode::Failure => 0x11,
        }
    }

    pub fn code(self) -> (r: u32)
        ensures
            r == self.spec_code(),
    {
        match self {
            QemuExitCode::Success => 0x10,
            QemuExitCode::Failure => 0x11,
        }
    }
}

} // verus!
