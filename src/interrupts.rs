//! Vector assignment of the two chained 8259 controllers.
use vstd::prelude::*;

verus! {

/// First vector of the master controller; 0..=31 belong to CPU exceptions.
pub const PIC_1_OFFSET: u8 = 32;

/// First vector of the slave controller, right after the master's eight lines.
pub const PIC_2_OFFSET: u8 = PIC_1_OFFSET + 8;

/// Hardware interrupt lines handled by the kernel, named by their vector.
#[derive(Debug, Clone, Copy, PartialEq, Eq, Structural)]
pub enum InterruptIndex {
    Timer,
    Keyboard,
}

impl InterruptIndex {
    /// The vector on which the line is delivered.
    pub open spec fn spec_vector(self) -> u8 {
        match self {
            InterruptIndex::Timer => PIC_1_OFFSET,
            InterruptIndex::Keyboard => (PIC_1_OFFSET + 1) as u8,
        }
    }

    pub fn as_u8(self) -> (r: u8)
        ensures
            r == self.spec_vector(),
    {
        match self {
            InterruptIndex::Timer => PIC_1_OFFSET,
            InterruptIndex::Keyboard => PIC_1_OFFSET + 1,
        }
    }

    pub fn cast_to_usize(self) -> (r: usize)
        ensures
            r == self.spec_vector() as usize,
    {
        self.as_u8() as usize
    }
}

/// The controller offsets stay clear of the CPU exception vectors and of each
/// other, and every assigned line is delivered within the sixteen vectors that
/// the two controllers own.
pub proof fn controller_offsets_are_sound(line: InterruptIndex)
    ensures
        PIC_1_OFFSET >= 32,
        PIC_2_OFFSET == PIC_1_OFFSET + 8,
        PIC_1_OFFSET <= line.spec_vector() <= PIC_1_OFFSET + 15,
        line.spec_vector() < PIC_2_OFFSET,
{
}

} // verus!
