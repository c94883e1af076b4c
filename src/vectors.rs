//! The vector table plan: which handler each of the 256 vectors is bound to,
//! and which vector switches to the dedicated stack.
use vstd::prelude::*;
use crate::gdt::DOUBLE_FAULT_IST_INDEX;
use crate::interrupts::{InterruptIndex, PIC_1_OFFSET};

verus! {

/// Number of interrupt and exception vectors.
pub const VECTOR_COUNT: usize = 256;

/// CPU exception vector of the debug trap instruction.
pub const BREAKPOINT_VECTOR: u8 = 3;

/// CPU exception vector of a fault raised while delivering a fault.
pub const DOUBLE_FAULT_VECTOR: u8 = 8;

/// CPU exception vector of an access to an unmapped or protected address.
pub const PAGE_FAULT_VECTOR: u8 = 14;

/// The handlers the kernel installs.
#[derive(Debug, Clone, Copy, PartialEq, Eq, Structural)]
pub enum Handler {
    Breakpoint,
    DoubleFault,
    PageFault,
    Timer,
    Keyboard,
}

impl Handler {
    /// The vector the handler is installed on.
    pub open spec fn spec_vector(self) -> u8 {
        match self {
            Handler::Breakpoint => BREAKPOINT_VECTOR,
            Handler::DoubleFault => DOUBLE_FAULT_VECTOR,
            Handler::PageFault => PAGE_FAULT_VECTOR,
            Handler::Timer => InterruptIndex::Timer.spec_vector(),
            Handler::Keyboard => InterruptIndex::Keyboard.spec_vector(),
        }
    }

    /// The interrupt-stack-table slot the CPU switches to on entry, if any.
    pub open spec fn spec_stack_index(self) -> Option<u16> {
        match self {
            Handler::DoubleFault => Some(DOUBLE_FAULT_IST_INDEX),
            _ => None,
        }
    }

    pub fn vector(self) -> (r: u8)
        ensures
            r == self.spec_vector(),
    {
        match self {
            Handler::Breakpoint => BREAKPOINT_VECTOR,
            Handler::DoubleFault => DOUBLE_FAULT_VECTOR,
            Handler::PageFault => PAGE_FAULT_VECTOR,
            Handler::Timer => InterruptIndex::Timer.as_u8(),
            Handler::Keyboard => InterruptIndex::Keyboard.as_u8(),
        }
    }

    pub fn stack_index(self) -> (r: Option<u16>)
        ensures
            r == self.spec_stack_index(),
    {
        match self {
            Handler::DoubleFault => Some(DOUBLE_FAULT_IST_INDEX),
            _ => None,
        }
    }
}

/// One bound vector: its handler, and the stack slot to switch to on entry.
#[derive(Debug, Clone, Copy, PartialEq, Eq, Structural)]
pub struct Entry {
    pub handler: Handler,
    pub stack_index: Option<u16>,
}

/// A table of 256 vectors, each empty (fatal default) or bound to a handler.
pub struct VectorTable {
    entries: Vec<Option<Entry>>,
}

/// What the kernel's table binds at vector `v`.
pub open spec fn kernel_entry(v: int) -> Option<Entry> {
    if v == BREAKPOINT_VECTOR as int {
        Some(Entry { handler: Handler::Breakpoint, stack_index: None })
    } else if v == DOUBLE_FAULT_VECTOR as int {
        Some(Entry { handler: Handler::DoubleFault, stack_index: Some(DOUBLE_FAULT_IST_INDEX) })
    } else if v == PAGE_FAULT_VECTOR as int {
        Some(Entry { handler: Handler::PageFault, stack_index: None })
    } else if v == PIC_1_OFFSET as int {
        Some(Entry { handler: Handler::Timer, stack_index: None })
    } else if v == PIC_1_OFFSET as int + 1 {
        Some(Entry { handler: Handler::Keyboard, stack_index: None })
    } else {
        None
    }
}

/// The kernel's table, vector by vector.
pub open spec fn kernel_table() -> Seq<Option<Entry>> {
    Seq::new(VECTOR_COUNT as nat, |v: int| kernel_entry(v))
}

impl View for VectorTable {
    type V = Seq<Option<Entry>>;

    closed spec fn view(&self) -> Seq<Option<Entry>> {
        self.entries@
    }
}

impl VectorTable {
    pub open spec fn wf(&self) -> bool {
        self@.len() == VECTOR_COUNT
    }

    /// The handler that a delivery on vector `v` runs, if one is bound.
    pub open spec fn spec_dispatch(&self, v: u8) -> Option<Handler> {
        match self@[v as int] {
            Some(e) => Some(e.handler),
            None => None,
        }
    }

    /// A table with every vector empty.
    pub fn new() -> (r: VectorTable)
        ensures
            r.wf(),
            forall|v: int| 0 <= v < VECTOR_COUNT ==> r@[v] is None,
    {
        let mut entries: Vec<Option<Entry>> = Vec::new();
        while entries.len() < VECTOR_COUNT
            invariant
                entries@.len() <= VECTOR_COUNT,
                forall|v: int| 0 <= v < entries@.len() ==> entries@[v] is None,
            decreases VECTOR_COUNT - entries@.len(),
        {
            entries.push(None);
        }
        VectorTable { entries }
    }

    /// Binds `handler` to `vector`, with no stack switch.
    pub fn set_handler(&mut self, vector: u8, handler: Handler)
        requires
            old(self).wf(),
        ensures
            final(self).wf(),
            final(self)@ == old(self)@.update(
                vector as int,
                Some(Entry { handler, stack_index: None }),
            ),
    {
        self.entries.set(vector as usize, Some(Entry { handler, stack_index: None }));
    }

    /// Makes the CPU switch to stack slot `index` on entry to `vector`,
    /// which must already be bound.
    pub fn set_stack_index(&mut self, vector: u8, index: u16)
        requires
            old(self).wf(),
            old(self)@[vector as int] is Some,
        ensures
            final(self).wf(),
            final(self)@ == old(self)@.update(
                vector as int,
                Some(Entry { handler: old(self)@[vector as int]->Some_0.handler, stack_index: Some(index) }),
            ),
    {
        let e = self.entries[vector as usize];
        match e {
            Some(bound) => {
                self.entries.set(
                    vector as usize,
                    Some(Entry { handler: bound.handler, stack_index: Some(index) }),
                );
            },
            None => {},
        }
    }

    /// The binding of `vector`.
    pub fn entry(&self, vector: u8) -> (r: Option<Entry>)
        requires
            self.wf(),
        ensures
            r == self@[vector as int],
    {
        self.entries[vector as usize]
    }

    /// The handler that a delivery on `vector` runs; `None` means the fatal
    /// default.
    pub fn dispatch(&self, vector: u8) -> (r: Option<Handler>)
        requires
            self.wf(),
        ensures
            r == self.spec_dispatch(vector),
    {
        match self.entries[vector as usize] {
            Some(e) => Some(e.handler),
            None => None,
        }
    }
}

/// Builds the kernel's vector table: breakpoint, double fault on its own
/// stack, page fault, timer and keyboard; every other vector stays empty.
pub fn init_idt() -> (r: VectorTable)
    ensures
        r.wf(),
        r@ == kernel_table(),
{
    let mut idt = VectorTable::new();
    idt.set_handler(Handler::Breakpoint.vector(), Handler::Breakpoint);
    idt.set_handler(Handler::DoubleFault.vector(), Handler::DoubleFault);
    idt.set_stack_index(Handler::DoubleFault.vector(), DOUBLE_FAULT_IST_INDEX);
    idt.set_handler(Handler::Timer.vector(), Handler::Timer);
    idt.set_handler(Handler::Keyboard.vector(), Handler::Keyboard);
    idt.set_handler(Handler::PageFault.vector(), Handler::PageFault);
    assert(idt@ =~= kernel_table());
    idt
}

/// In the kernel's table each handler is reached from exactly one vector,
/// its own, and runs with the stack switch it was bound with.
pub proof fn each_handler_has_exactly_one_vector(t: VectorTable, h: Handler)
    requires
        t@ == kernel_table(),
    ensures
        t.wf(),
        t.spec_dispatch(h.spec_vector()) == Some(h),
        forall|v: u8| #[trigger] t.spec_dispatch(v) == Some(h) ==> v == h.spec_vector(),
        t@[h.spec_vector() as int] == Some(Entry { handler: h, stack_index: h.spec_stack_index() }),
{
}

} // verus!
