use rost::gdt::Gdt;
use rost::gdt::GdtEntry;
use rost::gdt::GdtPtr;
use rost::gdt::TssEntry;
use rost::idt::HandlerSlot;
use rost::idt::Idt;
use rost::idt::IdtEntry;
use rost::idt::InterruptHandler;
use rost::idt::Registers;
use rost::machine::Machine;
use rost::machine::PortWrite;

struct Recorder {
    seen: Vec<(u32, u32)>,
}

impl Recorder {
    fn new() -> Recorder {
        Recorder { seen: Vec::new() }
    }
}

impl InterruptHandler for Recorder {
    fn handle(&mut self, regs: &Registers) {
        self.seen.push((regs.int_no, regs.err_code));
    }
}

fn snapshot(int_no: u32, err_code: u32) -> Registers {
    Registers {
        ds: 0x10,
        edi: 1,
        esi: 2,
        ebp: 3,
        esp: 4,
        ebx: 5,
        edx: 6,
        ecx: 7,
        eax: 8,
        int_no,
        err_code,
        eip: 0x1000,
        cs: 0x08,
        eflags: 0x202,
        useresp: 0x9000,
        ss: 0x10,
    }
}

fn stub_table() -> Vec<u32> {
    let mut stubs = Vec::new();
    for i in 0..256u32 {
        stubs.push(0x0010_0000 + i * 16);
    }
    stubs
}

#[test]
fn gate_encoding_splits_handler_address() {
    let gate = IdtEntry::new(0xDEAD_BEEF, 0x08, 0x8E);
    assert_eq!(gate.handler_low, 0xBEEF);
    assert_eq!(gate.handler_high, 0xDEAD);
    assert_eq!(gate.selector, 0x08);
    assert_eq!(gate.always0, 0);
    assert_eq!(gate.flags, 0x8E);
    assert_eq!(gate.handler(), 0xDEAD_BEEF);
}

#[test]
fn segment_encoding_packs_fields() {
    let entry = GdtEntry::new(0x1234_5678, 0xA_BCDE, 0x9A, 0xC0);
    assert_eq!(entry.base_low, 0x5678);
    assert_eq!(entry.base_middle, 0x34);
    assert_eq!(entry.base_high, 0x12);
    assert_eq!(entry.limit_low, 0xBCDE);
    assert_eq!(entry.granularity, 0xCA);
    assert_eq!(entry.access, 0x9A);
}

#[test]
fn segment_encoding_boundary_round_trips() {
    let flat = GdtEntry::new(0, 0xFFFF_FFFF, 0x9A, 0xC0);
    assert_eq!(flat.decode(), (0, 0xFFFF_FFFF, 0x9A, 0xC0));

    let high_base = GdtEntry::new(0xFFFF_FFFF, 0, 0x92, 0x00);
    assert_eq!(high_base.decode(), (0xFFFF_FFFF, 0, 0x92, 0x00));
}

#[test]
fn segment_encoding_byte_granularity_round_trips() {
    let entry = GdtEntry::new(0x00AB_CDEF, 0x000F_F0F0, 0x89, 0x40);
    assert_eq!(entry.decode(), (0x00AB_CDEF, 0x000F_F0F0, 0x89, 0x40));
}

#[test]
fn table_pointers_carry_size_and_base() {
    let gdt_ptr = GdtPtr::new(0x8000);
    assert_eq!(gdt_ptr.limit, 48);
    assert_eq!(gdt_ptr.base, 0x8000);

    let mut idt: Idt<Recorder> = Idt::new();
    let mut hw = Machine::new();
    idt.init(&mut hw, &stub_table(), 0x9000);
    let idt_ptr = rost::idt::IdtPtr::new(&idt.entries, 0x9000);
    assert_eq!(idt_ptr.limit, 2047);
    assert_eq!(idt_ptr.base, 0x9000);
}

#[test]
fn idt_init_builds_every_gate() {
    let stubs = stub_table();
    let mut hw = Machine::new();
    let mut idt: Idt<Recorder> = Idt::new();
    idt.init(&mut hw, &stubs, 0x0020_0000);

    assert_eq!(idt.entries.len(), 256);
    for v in 0..256usize {
        let gate = &idt.entries[v];
        assert_eq!(gate.handler(), stubs[v]);
        assert_eq!(gate.selector, 0x08);
        assert_eq!(gate.flags, 0x8E);
        assert_eq!(gate.always0, 0);
    }
    assert_eq!(idt.handlers.len(), 256);
    for v in 0..256usize {
        assert!(matches!(idt.handlers[v], HandlerSlot::Nop));
    }
    assert_eq!(hw.idtr_limit, 2047);
    assert_eq!(hw.idtr_base, 0x0020_0000);
    assert!(hw.idtr_loaded);
    assert!(hw.interrupts_enabled);
}

#[test]
fn pic_remap_writes_exact_sequence() {
    let mut hw = Machine::new();
    let mut idt: Idt<Recorder> = Idt::new();
    idt.init(&mut hw, &stub_table(), 0x0020_0000);

    let expected = [
        (0x20, 0x11),
        (0xA0, 0x11),
        (0x21, 0x20),
        (0xA1, 0x28),
        (0x21, 0x04),
        (0xA1, 0x02),
        (0x21, 0x01),
        (0xA1, 0x01),
        (0x21, 0x00),
        (0xA1, 0x00),
    ];
    assert_eq!(hw.port_log.len(), expected.len());
    for (write, (port, value)) in hw.port_log.iter().zip(expected.iter()) {
        assert_eq!(write, &PortWrite { port: *port, value: *value });
    }
}

#[test]
fn dispatch_timer_unregistered_acks_master_only() {
    let mut hw = Machine::new();
    let mut idt: Idt<Recorder> = Idt::new();
    idt.isr_handler(&mut hw, &snapshot(32, 0));

    assert_eq!(hw.port_log, vec![PortWrite { port: 0x20, value: 0x20 }]);
    assert!(hw.port_log.iter().all(|w| w.port != 0xA0));
    assert!(matches!(idt.handlers[32], HandlerSlot::Nop));
}

#[test]
fn dispatch_slave_line_acks_both_controllers() {
    for v in [40u32, 47u32] {
        let mut hw = Machine::new();
        let mut idt: Idt<Recorder> = Idt::new();
        idt.isr_handler(&mut hw, &snapshot(v, 0));
        assert_eq!(
            hw.port_log,
            vec![
                PortWrite { port: 0x20, value: 0x20 },
                PortWrite { port: 0xA0, value: 0x20 },
            ]
        );
    }
}

#[test]
fn dispatch_master_lines_ack_master_only() {
    for v in 33..40u32 {
        let mut hw = Machine::new();
        let mut idt: Idt<Recorder> = Idt::new();
        idt.isr_handler(&mut hw, &snapshot(v, 0));
        assert_eq!(hw.port_log, vec![PortWrite { port: 0x20, value: 0x20 }]);
    }
}

#[test]
fn dispatch_exception_touches_no_ports() {
    let mut hw = Machine::new();
    let mut idt: Idt<Recorder> = Idt::new();
    idt.register_isr_handler(14, Recorder::new());
    idt.isr_handler(&mut hw, &snapshot(14, 0x2));

    assert!(hw.port_log.is_empty());
    match &idt.handlers[14] {
        HandlerSlot::Custom(recorder) => assert_eq!(recorder.seen, vec![(14, 0x2)]),
        HandlerSlot::Nop => panic!("handler slot lost its registration"),
    }
}

#[test]
fn register_then_dispatch_invokes_exactly_that_handler() {
    let mut hw = Machine::new();
    let mut idt: Idt<Recorder> = Idt::new();
    idt.register_isr_handler(14, Recorder::new());
    idt.register_isr_handler(15, Recorder::new());
    idt.isr_handler(&mut hw, &snapshot(14, 7));

    match &idt.handlers[14] {
        HandlerSlot::Custom(recorder) => assert_eq!(recorder.seen, vec![(14, 7)]),
        HandlerSlot::Nop => panic!("handler slot lost its registration"),
    }
    match &idt.handlers[15] {
        HandlerSlot::Custom(recorder) => assert!(recorder.seen.is_empty()),
        HandlerSlot::Nop => panic!("handler slot lost its registration"),
    }
}

#[test]
fn nop_handler_type_dispatches_quietly() {
    let mut hw = Machine::new();
    let mut idt: Idt<rost::idt::NopHandler> = Idt::new();
    idt.register_isr_handler(33, rost::idt::NopHandler);
    idt.isr_handler(&mut hw, &snapshot(33, 0));
    assert_eq!(hw.port_log, vec![PortWrite { port: 0x20, value: 0x20 }]);
    assert!(matches!(idt.handlers[33], HandlerSlot::Custom(_)));
}

#[test]
fn register_overwrites_previous_handler() {
    let mut hw = Machine::new();
    let mut idt: Idt<Recorder> = Idt::new();
    idt.register_isr_handler(3, Recorder::new());
    idt.isr_handler(&mut hw, &snapshot(3, 0));
    idt.register_isr_handler(3, Recorder::new());
    match &idt.handlers[3] {
        HandlerSlot::Custom(recorder) => assert!(recorder.seen.is_empty()),
        HandlerSlot::Nop => panic!("handler slot lost its registration"),
    }
}

#[test]
fn irq_registration_lands_on_offset_vector() {
    let mut by_irq: Idt<Recorder> = Idt::new();
    let mut by_vector: Idt<Recorder> = Idt::new();
    by_irq.register_irq_handler(3, Recorder::new());
    by_vector.register_isr_handler(35, Recorder::new());

    for v in 0..256usize {
        match (&by_irq.handlers[v], &by_vector.handlers[v]) {
            (HandlerSlot::Nop, HandlerSlot::Nop) => {}
            (HandlerSlot::Custom(_), HandlerSlot::Custom(_)) => assert_eq!(v, 35),
            _ => panic!("registries differ at vector {}", v),
        }
    }

    let mut hw = Machine::new();
    by_irq.isr_handler(&mut hw, &snapshot(35, 0));
    match &by_irq.handlers[35] {
        HandlerSlot::Custom(recorder) => assert_eq!(recorder.seen, vec![(35, 0)]),
        HandlerSlot::Nop => panic!("handler slot lost its registration"),
    }
}

#[test]
fn timer_scenario_one_master_ack_no_slave() {
    let stubs = stub_table();
    let mut hw = Machine::new();
    let mut idt: Idt<Recorder> = Idt::new();
    idt.init(&mut hw, &stubs, 0x0020_0000);
    let writes_after_init = hw.port_log.len();

    idt.isr_handler(&mut hw, &snapshot(32, 0));

    let new_writes: Vec<PortWrite> = hw.port_log[writes_after_init..].to_vec();
    assert_eq!(new_writes, vec![PortWrite { port: 0x20, value: 0x20 }]);
    assert_eq!(
        hw.port_log.iter().filter(|w| w.port == 0xA0 && w.value == 0x20).count(),
        0
    );
    assert!(matches!(idt.handlers[32], HandlerSlot::Nop));
}

#[test]
fn page_fault_scenario_records_error_code() {
    let stubs = stub_table();
    let mut hw = Machine::new();
    let mut idt: Idt<Recorder> = Idt::new();
    idt.init(&mut hw, &stubs, 0x0020_0000);
    idt.register_isr_handler(14, Recorder::new());
    let writes_after_init = hw.port_log.len();

    idt.isr_handler(&mut hw, &snapshot(14, 0x2));

    assert_eq!(hw.port_log.len(), writes_after_init);
    match &idt.handlers[14] {
        HandlerSlot::Custom(recorder) => assert_eq!(recorder.seen, vec![(14, 0x2)]),
        HandlerSlot::Nop => panic!("handler slot lost its registration"),
    }
}

#[test]
fn gdt_init_builds_six_descriptors() {
    let mut hw = Machine::new();
    let mut gdt = Gdt::new();
    gdt.init(&mut hw, 0x8000, 0x7000);

    assert_eq!(gdt.entries.len(), 6);
    let null = &gdt.entries[0];
    assert_eq!(
        (null.limit_low, null.base_low, null.base_middle, null.access, null.granularity,
         null.base_high),
        (0, 0, 0, 0, 0, 0)
    );
    assert_eq!(gdt.entries[1].access, 0x9A);
    assert_eq!(gdt.entries[2].access, 0x92);
    assert_eq!(gdt.entries[3].access, 0xFA);
    assert_eq!(gdt.entries[4].access, 0xF2);
    for slot in 1..5usize {
        assert_eq!(gdt.entries[slot].decode().0, 0);
        assert_eq!(gdt.entries[slot].decode().1, 0xFFFF_FFFF);
        assert_eq!(gdt.entries[slot].granularity & 0xF0, 0xC0);
    }
    let tss_descriptor = &gdt.entries[5];
    assert_eq!(tss_descriptor.decode().0, 0x7000);
    assert_eq!(tss_descriptor.decode().1, 104);
    assert_eq!(tss_descriptor.access, 0x89);

    assert_eq!(gdt.tss.ss0, 0x10);
    assert_eq!(gdt.tss.esp0, 0);
    assert_eq!(gdt.tss.iomap_base, 104);

    assert_eq!((hw.gdtr_limit, hw.gdtr_base, hw.gdtr_loaded), (48, 0x8000, true));
    assert_eq!(hw.cs, 0x08);
    assert_eq!((hw.ds, hw.es, hw.fs, hw.gs, hw.ss), (0x10, 0x10, 0x10, 0x10, 0x10));
    assert_eq!(hw.tr, 0x2B);
    assert!(hw.port_log.is_empty());
    assert!(!hw.interrupts_enabled);
}

#[test]
fn gdt_init_is_idempotent_and_slot_zero_stays_null() {
    let mut hw = Machine::new();
    let mut gdt = Gdt::new();
    gdt.init(&mut hw, 0x8000, 0x7000);
    let first: Vec<GdtEntry> = gdt.entries.clone();
    gdt.set_kernel_stack(0xCAFE_0000);
    gdt.init(&mut hw, 0x8000, 0x7000);

    assert_eq!(gdt.entries, first);
    let null = &gdt.entries[0];
    assert_eq!(
        (null.limit_low, null.base_low, null.base_middle, null.access, null.granularity,
         null.base_high),
        (0, 0, 0, 0, 0, 0)
    );
    assert_eq!(gdt.tss.esp0, 0);
}

#[test]
fn set_kernel_stack_changes_only_the_ring0_stack_pointer() {
    let mut hw = Machine::new();
    let mut gdt = Gdt::new();
    gdt.init(&mut hw, 0x8000, 0x7000);

    let before: TssEntry = gdt.tss;
    let entries_before: Vec<GdtEntry> = gdt.entries.clone();
    gdt.set_kernel_stack(0xCAFE_BABE);

    let expected = TssEntry { esp0: 0xCAFE_BABE, ..before };
    assert_eq!(gdt.tss, expected);
    assert_eq!(gdt.entries, entries_before);
}

#[test]
fn set_segments_reloads_data_segments_only() {
    let mut hw = Machine::new();
    hw.ss = 0x77;
    rost::gdt::set_segments(&mut hw, 0x10);
    assert_eq!((hw.ds, hw.es, hw.fs, hw.gs), (0x10, 0x10, 0x10, 0x10));
    assert_eq!(hw.ss, 0x77);
    assert_eq!(hw.cs, 0);
}

#[test]
fn machine_out_appends_to_the_log() {
    let mut hw = Machine::new();
    hw.out(0x20, 0x11);
    hw.out(0xA1, 0x00);
    assert_eq!(
        hw.port_log,
        vec![
            PortWrite { port: 0x20, value: 0x11 },
            PortWrite { port: 0xA1, value: 0x00 },
        ]
    );
}
