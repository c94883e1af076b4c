use rust_os::handlers::{
    breakpoint_handler, double_fault_handler, handle, keyboard_interrupt_handler,
    keyboard_outcome, page_fault_handler, timer_interrupt_handler, Continuation, Delivery, Report,
};
use rust_os::keyboard::{Decoder, Key};
use rust_os::vectors::init_idt;

fn delivery(vector: u8) -> Delivery {
    Delivery { vector, fault_address: 0, error_code: 0, scancode: 0 }
}

#[test]
fn breakpoint_resumes_without_acknowledging() {
    let o = breakpoint_handler();
    assert!(matches!(o.report, Report::Breakpoint));
    assert_eq!(o.ack, None);
    assert_eq!(o.next, Continuation::Resume);
    assert_eq!(o.report.title(), "EXCEPTION: BREAKPOINT");
}

#[test]
fn double_fault_halts_and_names_itself() {
    let o = double_fault_handler();
    assert!(matches!(o.report, Report::DoubleFault));
    assert_eq!(o.ack, None);
    assert_eq!(o.next, Continuation::Halt);
    assert!(o.report.title().contains("DOUBLE FAULT"));
}

#[test]
fn page_fault_parks_with_address_and_reason() {
    let o = page_fault_handler(0xdeadbeef, 0b10);
    match o.report {
        Report::PageFault { address, error_code } => {
            assert_eq!(address, 0xdeadbeef);
            assert_eq!(error_code, 0b10);
        }
        _ => panic!("not a page fault report"),
    }
    assert_eq!(o.ack, None);
    assert_eq!(o.next, Continuation::Park);
    assert_eq!(o.report.title(), "EXCEPTION: PAGE FAULT");
}

#[test]
fn timer_ticks_and_acknowledges_its_line() {
    let o = timer_interrupt_handler();
    assert!(matches!(o.report, Report::Tick));
    assert_eq!(o.report.title(), ".");
    assert_eq!(o.ack, Some(32));
    assert_eq!(o.next, Continuation::Resume);
}

#[test]
fn keyboard_acknowledges_with_or_without_a_key() {
    let o = keyboard_outcome(None);
    assert!(matches!(o.report, Report::Nothing));
    assert_eq!(o.ack, Some(33));
    let o = keyboard_outcome(Some(Key::Unicode('x')));
    assert!(matches!(o.report, Report::Key(Key::Unicode('x'))));
    assert_eq!(o.ack, Some(33));
    assert_eq!(o.next, Continuation::Resume);

    let mut kb = Decoder::new();
    let o = keyboard_interrupt_handler(&mut kb, 0xE0);
    assert!(matches!(o.report, Report::Nothing));
    assert_eq!(o.ack, Some(33));
    let o = keyboard_interrupt_handler(&mut kb, 0x48);
    assert!(matches!(o.report, Report::Key(_)));
    assert_eq!(o.ack, Some(33));
}

#[test]
fn keyboard_error_reports_nothing_but_still_acknowledges() {
    let mut kb = Decoder::new();
    let o = keyboard_interrupt_handler(&mut kb, 0xE0);
    assert!(matches!(o.report, Report::Nothing));
    let o = keyboard_interrupt_handler(&mut kb, 0x1E);
    assert!(matches!(o.report, Report::Nothing));
    assert_eq!(o.ack, Some(33));
    assert_eq!(o.next, Continuation::Resume);
    let o = keyboard_interrupt_handler(&mut kb, 0x1E);
    assert!(matches!(o.report, Report::Key(Key::Unicode('a'))));
    assert_eq!(o.ack, Some(33));
}

#[test]
fn dispatch_runs_the_bound_handler() {
    let t = init_idt();
    let mut kb = Decoder::new();
    assert!(matches!(handle(&t, &mut kb, delivery(3)).report, Report::Breakpoint));
    assert_eq!(handle(&t, &mut kb, delivery(3)).next, Continuation::Resume);
    assert!(matches!(handle(&t, &mut kb, delivery(8)).report, Report::DoubleFault));
    assert_eq!(handle(&t, &mut kb, delivery(8)).next, Continuation::Halt);
    let d = Delivery { vector: 14, fault_address: 0x1000, error_code: 5, scancode: 0 };
    assert!(matches!(
        handle(&t, &mut kb, d).report,
        Report::PageFault { address: 0x1000, error_code: 5 }
    ));
    assert!(matches!(handle(&t, &mut kb, delivery(32)).report, Report::Tick));
    let d = Delivery { vector: 33, fault_address: 0, error_code: 0, scancode: 0x1E };
    assert!(matches!(handle(&t, &mut kb, d).report, Report::Key(Key::Unicode('a'))));
}

#[test]
fn unbound_vector_is_fatal() {
    let t = init_idt();
    let mut kb = Decoder::new();
    let o = handle(&t, &mut kb, delivery(77));
    assert!(matches!(o.report, Report::Unhandled(77)));
    assert_eq!(o.ack, None);
    assert_eq!(o.next, Continuation::Halt);
    assert_eq!(o.report.title(), "EXCEPTION: UNHANDLED VECTOR");
}

#[test]
fn acknowledgments_match_hardware_deliveries() {
    let t = init_idt();
    let mut kb = Decoder::new();
    let vectors = [32u8, 3, 33, 33, 14, 32, 8, 200, 32];
    let mut acks = Vec::new();
    for v in vectors {
        let o = handle(&t, &mut kb, delivery(v));
        if let Some(a) = o.ack {
            assert_eq!(a, v);
            acks.push(a);
        }
    }
    assert_eq!(acks, vec![32, 33, 33, 32, 32]);
}
