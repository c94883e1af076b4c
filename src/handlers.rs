//! What each handler decides when the CPU transfers control to it: what to
//! report, which vector to acknowledge, and whether execution resumes.
use vstd::prelude::*;
use crate::interrupts::InterruptIndex;
use crate::keyboard::{decode_scancode, resolved_key, Decoder, Key};
use crate::gdt::DOUBLE_FAULT_IST_INDEX;
use crate::vectors::{kernel_table, Entry, Handler, VectorTable, BREAKPOINT_VECTOR, DOUBLE_FAULT_VECTOR};

verus! {

/// How execution goes on once a handler is done.
#[derive(Debug, Clone, Copy, PartialEq, Eq, Structural)]
pub enum Continuation {
    /// Return to the interrupted instruction stream.
    Resume,
    /// Stop for good: the CPU state cannot be trusted.
    Halt,
    /// Wait in the low-power loop; nothing further runs but interrupts.
    Park,
}

/// What a handler reports to the text output.
#[derive(Debug, Clone, Copy)]
pub enum Report {
    Breakpoint,
    DoubleFault,
    PageFault { address: u64, error_code: u64 },
    Tick,
    Key(Key),
    /// A keyboard interrupt whose byte resolved no key yet.
    Nothing,
    /// A delivery on a vector with no handler bound.
    Unhandled(u8),
}

/// The decision of one handler invocation.
#[derive(Debug, Clone, Copy)]
pub struct Outcome {
    pub report: Report,
    /// The vector to acknowledge at the interrupt controller, if any.
    pub ack: Option<u8>,
    pub next: Continuation,
}

/// What the hardware hands over with a delivery: the vector, the faulting
/// address and reason bits of a page fault, and the byte at the keyboard's
/// data port.
#[derive(Debug, Clone, Copy, PartialEq, Eq, Structural)]
pub struct Delivery {
    pub vector: u8,
    pub fault_address: u64,
    pub error_code: u64,
    pub scancode: u8,
}

impl Report {
    /// The headline of the report's log line.
    pub open spec fn spec_title(self) -> Seq<char> {
        match self {
            Report::Breakpoint => "EXCEPTION: BREAKPOINT"@,
            Report::DoubleFault => "EXCEPTION: DOUBLE FAULT"@,
            Report::PageFault { .. } => "EXCEPTION: PAGE FAULT"@,
            Report::Tick => "."@,
            Report::Unhandled(_) => "EXCEPTION: UNHANDLED VECTOR"@,
            Report::Key(_) => ""@,
            Report::Nothing => ""@,
        }
    }

    pub fn title(&self) -> (r: &'static str)
        ensures
            r@ == self.spec_title(),
    {
        proof {
            reveal_strlit("EXCEPTION: BREAKPOINT");
            reveal_strlit("EXCEPTION: DOUBLE FAULT");
            reveal_strlit("EXCEPTION: PAGE FAULT");
            reveal_strlit(".");
            reveal_strlit("EXCEPTION: UNHANDLED VECTOR");
            reveal_strlit("");
        }
        match self {
            Report::Breakpoint => "EXCEPTION: BREAKPOINT",
            Report::DoubleFault => "EXCEPTION: DOUBLE FAULT",
            Report::PageFault { .. } => "EXCEPTION: PAGE FAULT",
            Report::Tick => ".",
            Report::Unhandled(_) => "EXCEPTION: UNHANDLED VECTOR",
            Report::Key(_) => "",
            Report::Nothing => "",
        }
    }
}

/// The vector a handler acknowledges: its own line for the hardware
/// interrupts, none for the faults.
pub open spec fn spec_ack(h: Option<Handler>) -> Option<u8> {
    match h {
        Some(Handler::Timer) => Some(InterruptIndex::Timer.spec_vector()),
        Some(Handler::Keyboard) => Some(InterruptIndex::Keyboard.spec_vector()),
        _ => None,
    }
}

/// The decision for a delivery `d` run by `h` (`None`: the fatal default),
/// where `key` is what the decoder resolved from the delivered byte.
pub open spec fn spec_outcome(h: Option<Handler>, d: Delivery, key: Option<Key>) -> Outcome {
    let report = match h {
        None => Report::Unhandled(d.vector),
        Some(Handler::Breakpoint) => Report::Breakpoint,
        Some(Handler::DoubleFault) => Report::DoubleFault,
        Some(Handler::PageFault) => Report::PageFault {
            address: d.fault_address,
            error_code: d.error_code,
        },
        Some(Handler::Timer) => Report::Tick,
        Some(Handler::Keyboard) => match key {
            Some(k) => Report::Key(k),
            None => Report::Nothing,
        },
    };
    let next = match h {
        Some(Handler::Breakpoint) => Continuation::Resume,
        Some(Handler::Timer) => Continuation::Resume,
        Some(Handler::Keyboard) => Continuation::Resume,
        Some(Handler::PageFault) => Continuation::Park,
        _ => Continuation::Halt,
    };
    Outcome { report, ack: spec_ack(h), next }
}

/// The debug trap is recoverable: report it and resume.
pub fn breakpoint_handler() -> (r: Outcome)
    ensures
        r == spec_outcome(Some(Handler::Breakpoint), arbitrary(), None),
{
    Outcome { report: Report::Breakpoint, ack: None, next: Continuation::Resume }
}

/// A fault while delivering a fault is always fatal.
pub fn double_fault_handler() -> (r: Outcome)
    ensures
        r == spec_outcome(Some(Handler::DoubleFault), arbitrary(), None),
{
    Outcome { report: Report::DoubleFault, ack: None, next: Continuation::Halt }
}

/// A page fault is reported with its address and reason bits, then the CPU
/// is parked: no paging recovery exists.
pub fn page_fault_handler(address: u64, error_code: u64) -> (r: Outcome)
    ensures
        r == spec_outcome(
            Some(Handler::PageFault),
            (Delivery { vector: 0, fault_address: address, error_code, scancode: 0 }),
            None,
        ),
{
    Outcome {
        report: Report::PageFault { address, error_code },
        ack: None,
        next: Continuation::Park,
    }
}

/// A timer tick: print the tick marker and acknowledge the timer line.
pub fn timer_interrupt_handler() -> (r: Outcome)
    ensures
        r == spec_outcome(Some(Handler::Timer), arbitrary(), None),
{
    Outcome {
        report: Report::Tick,
        ack: Some(InterruptIndex::Timer.as_u8()),
        next: Continuation::Resume,
    }
}

/// The keyboard outcome once the decoder has resolved `key` (or not): the
/// key is reported, and the keyboard line is acknowledged in every case.
pub fn keyboard_outcome(key: Option<Key>) -> (r: Outcome)
    ensures
        r == spec_outcome(Some(Handler::Keyboard), arbitrary(), key),
{
    let report = match key {
        Some(k) => Report::Key(k),
        None => Report::Nothing,
    };
    Outcome { report, ack: Some(InterruptIndex::Keyboard.as_u8()), next: Continuation::Resume }
}

/// A keyboard interrupt: feed the byte read from the data port to the
/// long-lived decoder and report the key it resolves, if any.
pub fn keyboard_interrupt_handler(kb: &mut Decoder, scancode: u8) -> (r: Outcome)
    ensures
        final(kb)@ == old(kb)@.push(scancode),
        r == spec_outcome(Some(Handler::Keyboard), arbitrary(), resolved_key(final(kb)@)),
{
    let key = decode_scancode(kb, scancode);
    keyboard_outcome(key)
}

/// Runs the handler that `table` binds to the delivered vector.
pub fn handle(table: &VectorTable, kb: &mut Decoder, d: Delivery) -> (r: Outcome)
    requires
        table.wf(),
    ensures
        table.spec_dispatch(d.vector) == Some(Handler::Keyboard) ==> {
            &&& final(kb)@ == old(kb)@.push(d.scancode)
            &&& r == spec_outcome(table.spec_dispatch(d.vector), d, resolved_key(final(kb)@))
        },
        table.spec_dispatch(d.vector) != Some(Handler::Keyboard) ==> {
            &&& final(kb)@ == old(kb)@
            &&& r == spec_outcome(table.spec_dispatch(d.vector), d, None)
        },
{
    let r = match table.dispatch(d.vector) {
        None => Outcome { report: Report::Unhandled(d.vector), ack: None, next: Continuation::Halt },
        Some(Handler::Breakpoint) => breakpoint_handler(),
        Some(Handler::DoubleFault) => double_fault_handler(),
        Some(Handler::PageFault) => page_fault_handler(d.fault_address, d.error_code),
        Some(Handler::Timer) => timer_interrupt_handler(),
        Some(Handler::Keyboard) => keyboard_interrupt_handler(kb, d.scancode),
    };
    r
}

/// A debug trap on the kernel's table resumes the interrupted code: it
/// neither halts nor parks, and acknowledges nothing.
pub proof fn breakpoint_resumes(t: VectorTable, d: Delivery, key: Option<Key>)
    requires
        t@ == kernel_table(),
        d.vector == BREAKPOINT_VECTOR,
    ensures
        spec_outcome(t.spec_dispatch(d.vector), d, key).next == Continuation::Resume,
        spec_outcome(t.spec_dispatch(d.vector), d, key).ack is None,
{
}

/// A double fault on the kernel's table enters on the dedicated stack slot,
/// so it runs whatever state the faulting stack is in, and it never resumes.
pub proof fn double_fault_switches_stack_and_halts(t: VectorTable, d: Delivery, key: Option<Key>)
    requires
        t@ == kernel_table(),
        d.vector == DOUBLE_FAULT_VECTOR,
    ensures
        t@[d.vector as int] == Some(
            Entry { handler: Handler::DoubleFault, stack_index: Some(DOUBLE_FAULT_IST_INDEX) },
        ),
        spec_outcome(t.spec_dispatch(d.vector), d, key).next == Continuation::Halt,
        spec_outcome(t.spec_dispatch(d.vector), d, key).report is DoubleFault,
{
}

/// Whether `v` is the vector of a hardware interrupt line.
pub open spec fn is_hardware_vector(v: u8) -> bool {
    v == InterruptIndex::Timer.spec_vector() || v == InterruptIndex::Keyboard.spec_vector()
}

/// The acknowledgments issued by the handlers of deliveries on `vectors`, in
/// the order those handlers finish.
pub open spec fn ack_log(t: VectorTable, vectors: Seq<u8>) -> Seq<u8>
    decreases vectors.len(),
{
    if vectors.len() == 0 {
        Seq::empty()
    } else {
        let earlier = ack_log(t, vectors.drop_last());
        match spec_ack(t.spec_dispatch(vectors.last())) {
            Some(v) => earlier.push(v),
            None => earlier,
        }
    }
}

/// On the kernel's table every handler invocation acknowledges the vector
/// that was delivered if it is a hardware line, once, and nothing otherwise;
/// over any run of handler invocations, nested or not, the acknowledgments
/// are exactly the hardware deliveries.
pub proof fn each_hardware_delivery_acknowledged_once(t: VectorTable, d: Delivery, key: Option<Key>, vectors: Seq<u8>)
    requires
        t@ == kernel_table(),
    ensures
        spec_outcome(t.spec_dispatch(d.vector), d, key).ack == (if is_hardware_vector(d.vector) {
            Some(d.vector)
        } else {
            None
        }),
        ack_log(t, vectors) == vectors.filter(|v: u8| is_hardware_vector(v)),
    decreases vectors.len(),
{
    reveal(Seq::filter);
    if vectors.len() > 0 {
        each_hardware_delivery_acknowledged_once(t, d, key, vectors.drop_last());
    }
}

} // verus!
