use rust_os::gdt::DOUBLE_FAULT_IST_INDEX;
use rust_os::vectors::{
    init_idt, Entry, Handler, VectorTable, BREAKPOINT_VECTOR, DOUBLE_FAULT_VECTOR,
    PAGE_FAULT_VECTOR, VECTOR_COUNT,
};

const ALL: [Handler; 5] = [
    Handler::Breakpoint,
    Handler::DoubleFault,
    Handler::PageFault,
    Handler::Timer,
    Handler::Keyboard,
];

#[test]
fn kernel_table_binds_each_handler_to_its_vector() {
    let t = init_idt();
    assert_eq!(t.dispatch(BREAKPOINT_VECTOR), Some(Handler::Breakpoint));
    assert_eq!(t.dispatch(DOUBLE_FAULT_VECTOR), Some(Handler::DoubleFault));
    assert_eq!(t.dispatch(PAGE_FAULT_VECTOR), Some(Handler::PageFault));
    assert_eq!(t.dispatch(32), Some(Handler::Timer));
    assert_eq!(t.dispatch(33), Some(Handler::Keyboard));
}

#[test]
fn each_handler_is_reached_from_exactly_one_vector() {
    let t = init_idt();
    for h in ALL {
        let mut hits = 0;
        for v in 0..VECTOR_COUNT {
            if t.dispatch(v as u8) == Some(h) {
                hits += 1;
                assert_eq!(v as u8, h.vector());
            }
        }
        assert_eq!(hits, 1);
    }
}

#[test]
fn unbound_vectors_fall_to_the_default() {
    let t = init_idt();
    let mut bound = 0;
    for v in 0..VECTOR_COUNT {
        if t.dispatch(v as u8).is_some() {
            bound += 1;
        }
    }
    assert_eq!(bound, 5);
    for v in [0u8, 4, 13, 31, 34, 40, 255] {
        assert_eq!(t.dispatch(v), None);
        assert_eq!(t.entry(v), None);
    }
}

#[test]
fn only_the_double_fault_switches_stack() {
    let t = init_idt();
    assert_eq!(
        t.entry(DOUBLE_FAULT_VECTOR),
        Some(Entry { handler: Handler::DoubleFault, stack_index: Some(DOUBLE_FAULT_IST_INDEX) })
    );
    assert_eq!(DOUBLE_FAULT_IST_INDEX, 0);
    for h in ALL {
        let e = t.entry(h.vector()).unwrap();
        assert_eq!(e.stack_index, h.stack_index());
    }
    assert_eq!(t.entry(PAGE_FAULT_VECTOR).unwrap().stack_index, None);
}

#[test]
fn binding_and_stack_index_on_a_fresh_table() {
    let mut t = VectorTable::new();
    for v in 0..VECTOR_COUNT {
        assert_eq!(t.dispatch(v as u8), None);
    }
    t.set_handler(200, Handler::Timer);
    assert_eq!(t.entry(200), Some(Entry { handler: Handler::Timer, stack_index: None }));
    t.set_stack_index(200, 3);
    assert_eq!(t.entry(200), Some(Entry { handler: Handler::Timer, stack_index: Some(3) }));
    t.set_handler(200, Handler::Keyboard);
    assert_eq!(t.entry(200), Some(Entry { handler: Handler::Keyboard, stack_index: None }));
    assert_eq!(t.dispatch(199), None);
}
