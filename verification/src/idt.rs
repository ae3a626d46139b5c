//! Interrupt table setup and the dispatch core.
//!
//! The table holds one gate per vector — all 256 of them, so the processor
//! never finds a hole — each pointing at the vector's low-level entry stub.
//! Before the table is loaded, the two programmable interrupt controllers
//! are reprogrammed so hardware lines 0–15 land on vectors 32–47 instead of
//! colliding with the processor-reserved exception vectors.
//!
//! Dispatch acknowledges the controllers for hardware vectors and then
//! invokes the handler registered for the vector, falling back to a
//! harmless observe-and-ignore default.

use vstd::prelude::*;

use crate::gdt::KERNEL_CODE_SELECTOR;
use crate::machine::Machine;
use crate::machine::PortWrite;

verus! {

/// Number of interrupt vectors, and gates in the table.
pub const IDT_SIZE: usize = 256;

/// Bytes in one packed gate descriptor.
pub const IDT_ENTRY_BYTES: usize = 8;

/// Byte limit of the packed interrupt table (size minus one), as placed in
/// the table register.
pub const IDT_LIMIT: u16 = 2047;

/// Gate type flags: present, ring 0, 32-bit interrupt gate.
pub const GATE_FLAGS: u8 = 0x8E;

/// First vector owned by the hardware interrupt controllers after the remap.
pub const IRQ_BASE_VECTOR: u32 = 32;

/// First vector owned by the slave controller after the remap.
pub const SLAVE_BASE_VECTOR: u32 = 40;

/// Last hardware-interrupt vector.
pub const IRQ_LAST_VECTOR: u32 = 47;

/// Command port of the master interrupt controller.
pub const PIC_MASTER_COMMAND: u16 = 0x20;

/// Data port of the master interrupt controller.
pub const PIC_MASTER_DATA: u16 = 0x21;

/// Command port of the slave interrupt controller.
pub const PIC_SLAVE_COMMAND: u16 = 0xA0;

/// Data port of the slave interrupt controller.
pub const PIC_SLAVE_DATA: u16 = 0xA1;

/// End-of-interrupt command byte.
pub const EOI: u8 = 0x20;

/// One packed interrupt-gate descriptor, laid out exactly as the processor
/// reads it: the 32-bit handler address split over two fields, the code
/// segment selector, a reserved zero byte and the type flags.
#[derive(Clone, Copy, PartialEq, Eq, Debug)]
pub struct IdtEntry {
    pub handler_low: u16,
    pub selector: u16,
    pub always0: u8,
    pub flags: u8,
    pub handler_high: u16,
}

impl IdtEntry {
    /// The packed form of a (handler address, selector, flags) tuple.
    pub open spec fn spec_new(handler: u32, selector: u16, flags: u8) -> IdtEntry {
        IdtEntry {
            handler_low: (handler & 0xFFFF) as u16,
            selector: selector,
            always0: 0,
            flags: flags,
            handler_high: ((handler >> 16) & 0xFFFF) as u16,
        }
    }

    /// Pack a gate descriptor. Total: any 32-bit handler address is valid.
    pub fn new(handler: u32, selector: u16, flags: u8) -> (r: IdtEntry)
        ensures
            r == IdtEntry::spec_new(handler, selector, flags),
    {
        IdtEntry {
            handler_low: (handler & 0xFFFF) as u16,
            selector: selector,
            always0: 0,
            flags: flags,
            handler_high: ((handler >> 16) & 0xFFFF) as u16,
        }
    }

    /// The handler address encoded in the descriptor.
    pub open spec fn spec_handler(self) -> u32 {
        (self.handler_low as u32) | ((self.handler_high as u32) << 16)
    }

    /// Read the handler address back out of the packed gate.
    pub fn handler(&self) -> (r: u32)
        ensures
            r == self.spec_handler(),
    {
        (self.handler_low as u32) | ((self.handler_high as u32) << 16)
    }
}

/// Packing a gate and reading it back recovers the handler address, the
/// selector and the flags, for every 32-bit handler address.
pub proof fn lemma_gate_round_trip(handler: u32, selector: u16, flags: u8)
    ensures
        IdtEntry::spec_new(handler, selector, flags).spec_handler() == handler,
        IdtEntry::spec_new(handler, selector, flags).selector == selector,
        IdtEntry::spec_new(handler, selector, flags).flags == flags,
{
    assert(IdtEntry::spec_new(handler, selector, flags).spec_handler() == handler)
        by (bit_vector);
}

/// The table descriptor handed to the processor's interrupt-table load:
/// the table's byte limit and its base address.
#[derive(Clone, Copy, PartialEq, Eq, Debug)]
pub struct IdtPtr {
    pub limit: u16,
    pub base: u32,
}

impl IdtPtr {
    /// Table descriptor for a full 256-gate table pinned at `base`.
    pub fn new(table: &Vec<IdtEntry>, base: u32) -> (r: IdtPtr)
        requires
            table@.len() == IDT_SIZE,
        ensures
            r.limit == IDT_LIMIT,
            r.base == base,
    {
        IdtPtr { limit: (IDT_ENTRY_BYTES * table.len() - 1) as u16, base }
    }
}

/// The register snapshot the low-level entry stub captures at the moment
/// of interrupt delivery, in its exact stack layout: the saved data
/// segment, the general-purpose registers, the vector number and error
/// code the stub pushed, and the frame the processor pushed.
///
/// Handlers receive it by reference and must not assume it outlives the
/// call.
#[derive(Clone, Copy, PartialEq, Eq, Debug)]
pub struct Registers {
    pub ds: u32,
    pub edi: u32,
    pub esi: u32,
    pub ebp: u32,
    pub esp: u32,
    pub ebx: u32,
    pub edx: u32,
    pub ecx: u32,
    pub eax: u32,
    pub int_no: u32,
    pub err_code: u32,
    pub eip: u32,
    pub cs: u32,
    pub eflags: u32,
    pub useresp: u32,
    pub ss: u32,
}

/// A callback bound to an interrupt vector: anything that accepts a
/// register snapshot. Dispatch passes `&mut self`, so a handler may carry
/// and update its own state.
pub trait InterruptHandler {
    /// What one `handle` call does to the handler's own state: relates the
    /// handler before the call, the snapshot it was invoked with, and the
    /// handler after. Each implementation states here what its handler
    /// records, and [`Idt::isr_handler`]'s contract promises this relation
    /// between the registered handler and the slot dispatch leaves behind.
    /// An implementation that leaves the default states nothing and is
    /// promised nothing.
    open spec fn handled(pre: &Self, regs: Registers, post: &Self) -> bool {
        true
    }

    /// Handle one delivered interrupt, given the captured snapshot.
    fn handle(&mut self, regs: &Registers)
        ensures
            Self::handled(old(self), *regs, final(self)),
    ;
}

/// The library's own observe-and-ignore handler type: handling changes
/// nothing and records nothing.
pub struct NopHandler;

impl InterruptHandler for NopHandler {
    fn handle(&mut self, regs: &Registers) {
        dummy_isr_handler(regs);
    }
}

/// One slot of the handler table: either the documented observe-and-ignore
/// default, or a registered handler.
pub enum HandlerSlot<H> {
    /// No handler registered: dispatch invokes [`dummy_isr_handler`].
    Nop,
    /// A registered handler.
    Custom(H),
}

/// The observe-and-ignore default handler: accepts the snapshot and does
/// nothing with it.
pub fn dummy_isr_handler(_regs: &Registers) {
}

/// The port writes of the controller remap: the standard initialization
/// sequence (ICW1–ICW4 to each controller, then the mask bytes) that moves
/// hardware lines 0–15 onto vectors 32–47.
pub open spec fn remap_sequence() -> Seq<PortWrite> {
    seq![
        (PortWrite { port: 0x20, value: 0x11 }),
        (PortWrite { port: 0xA0, value: 0x11 }),
        (PortWrite { port: 0x21, value: 0x20 }),
        (PortWrite { port: 0xA1, value: 0x28 }),
        (PortWrite { port: 0x21, value: 0x04 }),
        (PortWrite { port: 0xA1, value: 0x02 }),
        (PortWrite { port: 0x21, value: 0x01 }),
        (PortWrite { port: 0xA1, value: 0x01 }),
        (PortWrite { port: 0x21, value: 0x00 }),
        (PortWrite { port: 0xA1, value: 0x00 }),
    ]
}

/// The acknowledgment writes dispatch owes the controllers for a vector:
/// nothing outside the hardware range; the end-of-interrupt byte to the
/// master controller for every hardware vector; the same byte to the slave
/// controller as well when the line is slave-owned.
pub open spec fn eoi_sequence(v: int) -> Seq<PortWrite> {
    if IRQ_BASE_VECTOR <= v && v < SLAVE_BASE_VECTOR {
        seq![(PortWrite { port: 0x20, value: 0x20 })]
    } else if SLAVE_BASE_VECTOR <= v && v <= IRQ_LAST_VECTOR {
        seq![(PortWrite { port: 0x20, value: 0x20 }), (PortWrite { port: 0xA0, value: 0x20 })]
    } else {
        Seq::empty()
    }
}

/// The acknowledgment policy as three plain facts: vectors outside the
/// hardware range owe the controllers nothing; a master-owned vector owes
/// exactly one end-of-interrupt byte, to the master controller; a
/// slave-owned vector owes exactly two, master first, then slave.
pub proof fn lemma_eoi_ack_policy(v: int)
    ensures
        v < IRQ_BASE_VECTOR || v > IRQ_LAST_VECTOR ==> eoi_sequence(v)
            == Seq::<PortWrite>::empty(),
        IRQ_BASE_VECTOR <= v < SLAVE_BASE_VECTOR ==> eoi_sequence(v) == seq![
            (PortWrite { port: PIC_MASTER_COMMAND, value: EOI }),
        ],
        SLAVE_BASE_VECTOR <= v <= IRQ_LAST_VECTOR ==> eoi_sequence(v) == seq![
            (PortWrite { port: PIC_MASTER_COMMAND, value: EOI }),
            (PortWrite { port: PIC_SLAVE_COMMAND, value: EOI }),
        ],
{
}

/// The interrupt context: the 256-gate table and the handler registry,
/// constructed once at boot and shared with the dispatch entry point.
pub struct Idt<H> {
    pub entries: Vec<IdtEntry>,
    pub handlers: Vec<HandlerSlot<H>>,
}

impl<H> Idt<H> {
    /// The handler table covers every vector.
    pub open spec fn wf(self) -> bool {
        self.handlers@.len() == IDT_SIZE
    }

    /// A fresh context: no gates built yet, every vector bound to the
    /// default handler.
    pub fn new() -> (r: Idt<H>)
        ensures
            r.wf(),
            r.entries@.len() == 0,
            forall|i: int| 0 <= i < IDT_SIZE ==> r.handlers@[i] is Nop,
    {
        let mut handlers: Vec<HandlerSlot<H>> = Vec::new();
        let mut i: usize = 0;
        while i < IDT_SIZE
            invariant
                i <= IDT_SIZE,
                handlers@.len() == i,
                forall|j: int| 0 <= j < i ==> handlers@[j] is Nop,
            decreases IDT_SIZE - i,
        {
            handlers.push(HandlerSlot::Nop);
            i = i + 1;
        }
        Idt { entries: Vec::new(), handlers }
    }

    /// Remap the interrupt controllers, build all 256 gates — one per
    /// vector, pointing at that vector's entry stub through the kernel
    /// code segment — load the table register, and enable interrupts.
    ///
    /// `stubs` are the entry-stub addresses supplied by the collaborator,
    /// one per vector; `table_base` is the address at which the interrupt table
    /// is pinned for the lifetime of the program. Registered handlers are
    /// left untouched.
    pub fn init(&mut self, hw: &mut Machine, stubs: &Vec<u32>, table_base: u32)
        requires
            old(self).wf(),
            stubs@.len() == IDT_SIZE,
        ensures
            final(self).wf(),
            final(self).entries@.len() == IDT_SIZE,
            forall|v: int|
                0 <= v < IDT_SIZE ==> final(self).entries@[v] == IdtEntry::spec_new(
                    stubs@[v],
                    KERNEL_CODE_SELECTOR,
                    GATE_FLAGS,
                ),
            final(self).handlers@ == old(self).handlers@,
            final(hw).port_log@ == old(hw).port_log@ + remap_sequence(),
            final(hw).idtr() == (IDT_LIMIT, table_base, true),
            final(hw).interrupts_enabled,
            final(hw).gdtr() == old(hw).gdtr(),
            final(hw).cs == old(hw).cs,
            final(hw).data_segs() == old(hw).data_segs(),
            final(hw).ss == old(hw).ss,
            final(hw).tr == old(hw).tr,
    {
        remap_pic(hw);

        self.entries.clear();
        let mut i: usize = 0;
        while i < IDT_SIZE
            invariant
                i <= IDT_SIZE,
                stubs@.len() == IDT_SIZE,
                self.entries@.len() == i,
                forall|v: int|
                    0 <= v < i ==> self.entries@[v] == IdtEntry::spec_new(
                        stubs@[v],
                        KERNEL_CODE_SELECTOR,
                        GATE_FLAGS,
                    ),
                self.handlers@ == old(self).handlers@,
            decreases IDT_SIZE - i,
        {
            self.entries.push(IdtEntry::new(stubs[i], KERNEL_CODE_SELECTOR, GATE_FLAGS));
            i = i + 1;
        }

        let ptr = IdtPtr::new(&self.entries, table_base);
        idt_flush(hw, &ptr);
        idt_enable(hw);
    }

    /// Bind a handler to an interrupt vector, replacing whatever the slot
    /// held. May be called before or after [`Idt::init`]; a later dispatch
    /// of the vector invokes exactly this handler.
    pub fn register_isr_handler(&mut self, which: usize, f: H)
        requires
            old(self).wf(),
            which < IDT_SIZE,
        ensures
            final(self).wf(),
            final(self).handlers@ == old(self).handlers@.update(
                which as int,
                HandlerSlot::Custom(f),
            ),
            final(self).entries@ == old(self).entries@,
    {
        self.handlers[which] = HandlerSlot::Custom(f);
    }

    /// Bind a handler to a hardware interrupt line: line `which` is vector
    /// `which + 32` after the remap, so this is exactly
    /// [`Idt::register_isr_handler`] on that vector.
    pub fn register_irq_handler(&mut self, which: usize, f: H)
        requires
            old(self).wf(),
            which < 16,
        ensures
            final(self).wf(),
            final(self).handlers@ == old(self).handlers@.update(
                which as int + 32,
                HandlerSlot::Custom(f),
            ),
            final(self).entries@ == old(self).entries@,
    {
        self.register_isr_handler(which + 32, f);
    }
}

impl<H: InterruptHandler> Idt<H> {
    /// The single dispatch entry point, called by the low-level stub for
    /// every delivered vector: acknowledge the interrupt controllers first
    /// (master for every hardware vector, slave as well for slave-owned
    /// lines), then invoke the handler bound to the vector — the default
    /// one if none was registered — with the snapshot.
    ///
    /// For a registered handler the contract promises the handler's own
    /// [`InterruptHandler::handled`] relation between the handler that was
    /// in the slot and the one left there, over exactly this snapshot: the
    /// registered handler, and no other, is invoked with it.
    ///
    /// No other vector's handler is touched, and nothing else of the
    /// machine changes; restoring the interrupted context is the stub's
    /// business, not this core's.
    pub fn isr_handler(&mut self, hw: &mut Machine, regs: &Registers)
        requires
            old(self).wf(),
            regs.int_no < IDT_SIZE,
        ensures
            final(self).wf(),
            final(self).entries@ == old(self).entries@,
            forall|i: int|
                0 <= i < IDT_SIZE && i != regs.int_no ==> final(self).handlers@[i] == old(
                    self,
                ).handlers@[i],
            final(self).handlers@[regs.int_no as int] is Custom <==> old(
                self,
            ).handlers@[regs.int_no as int] is Custom,
            (old(self).handlers@[regs.int_no as int] matches HandlerSlot::Custom(h)
                ==> exists|h2: H|
                final(self).handlers@[regs.int_no as int] == HandlerSlot::Custom(h2)
                    && #[trigger] H::handled(&h, *regs, &h2)),
            old(self).handlers@[regs.int_no as int] is Nop ==> final(self).handlers@ == old(
                self,
            ).handlers@,
            final(hw).port_log@ == old(hw).port_log@ + eoi_sequence(regs.int_no as int),
            final(hw).gdtr() == old(hw).gdtr(),
            final(hw).idtr() == old(hw).idtr(),
            final(hw).cs == old(hw).cs,
            final(hw).data_segs() == old(hw).data_segs(),
            final(hw).ss == old(hw).ss,
            final(hw).tr == old(hw).tr,
            final(hw).interrupts_enabled == old(hw).interrupts_enabled,
    {
        let v = regs.int_no;
        if v >= IRQ_BASE_VECTOR && v <= IRQ_LAST_VECTOR {
            hw.out(PIC_MASTER_COMMAND, EOI);
            if v >= SLAVE_BASE_VECTOR {
                hw.out(PIC_SLAVE_COMMAND, EOI);
            }
        }
        proof {
            assert(hw.port_log@ =~= old(hw).port_log@ + eoi_sequence(v as int));
        }

        let which = v as usize;
        let slot = self.handlers.remove(which);
        match slot {
            HandlerSlot::Nop => {
                dummy_isr_handler(regs);
                self.handlers.insert(which, HandlerSlot::Nop);
                proof {
                    assert(self.handlers@ =~= old(self).handlers@);
                }
            },
            HandlerSlot::Custom(mut h) => {
                let ghost before = h;
                h.handle(regs);
                self.handlers.insert(which, HandlerSlot::Custom(h));
                proof {
                    assert(self.handlers@ =~= old(self).handlers@.update(
                        which as int,
                        HandlerSlot::Custom(h),
                    ));
                    assert(old(self).handlers@[which as int] == HandlerSlot::Custom(before));
                    assert(H::handled(&before, *regs, &h));
                }
            },
        }
    }
}

/// Reprogram the two interrupt controllers with the standard
/// initialization sequence, moving hardware lines 0–15 to vectors 32–47.
fn remap_pic(hw: &mut Machine)
    ensures
        final(hw).port_log@ == old(hw).port_log@ + remap_sequence(),
        final(hw).gdtr() == old(hw).gdtr(),
        final(hw).idtr() == old(hw).idtr(),
        final(hw).cs == old(hw).cs,
        final(hw).data_segs() == old(hw).data_segs(),
        final(hw).ss == old(hw).ss,
        final(hw).tr == old(hw).tr,
        final(hw).interrupts_enabled == old(hw).interrupts_enabled,
{
    hw.out(PIC_MASTER_COMMAND, 0x11);
    hw.out(PIC_SLAVE_COMMAND, 0x11);
    hw.out(PIC_MASTER_DATA, 0x20);
    hw.out(PIC_SLAVE_DATA, 0x28);
    hw.out(PIC_MASTER_DATA, 0x04);
    hw.out(PIC_SLAVE_DATA, 0x02);
    hw.out(PIC_MASTER_DATA, 0x01);
    hw.out(PIC_SLAVE_DATA, 0x01);
    hw.out(PIC_MASTER_DATA, 0x0);
    hw.out(PIC_SLAVE_DATA, 0x0);
    proof {
        assert(hw.port_log@ =~= old(hw).port_log@ + remap_sequence());
    }
}

/// Load the interrupt-table register with the table descriptor.
fn idt_flush(hw: &mut Machine, ptr: &IdtPtr)
    ensures
        final(hw).idtr() == (ptr.limit, ptr.base, true),
        final(hw).port_log@ == old(hw).port_log@,
        final(hw).gdtr() == old(hw).gdtr(),
        final(hw).cs == old(hw).cs,
        final(hw).data_segs() == old(hw).data_segs(),
        final(hw).ss == old(hw).ss,
        final(hw).tr == old(hw).tr,
        final(hw).interrupts_enabled == old(hw).interrupts_enabled,
{
    hw.load_idt(ptr.limit, ptr.base);
}

/// Enable maskable interrupts: the last step of setup, after which
/// dispatch may run at any time.
fn idt_enable(hw: &mut Machine)
    ensures
        final(hw).interrupts_enabled,
        final(hw).port_log@ == old(hw).port_log@,
        final(hw).gdtr() == old(hw).gdtr(),
        final(hw).idtr() == old(hw).idtr(),
        final(hw).cs == old(hw).cs,
        final(hw).data_segs() == old(hw).data_segs(),
        final(hw).ss == old(hw).ss,
        final(hw).tr == old(hw).tr,
{
    hw.enable_interrupts();
}

/// After table setup, every vector has exactly one gate, and it targets
/// exactly that vector's entry stub through the kernel code segment, with
/// the interrupt-gate flags.
pub proof fn lemma_gates_target_stubs(entries: Seq<IdtEntry>, stubs: Seq<u32>)
    requires
        entries.len() == IDT_SIZE,
        stubs.len() == IDT_SIZE,
        forall|v: int|
            0 <= v < IDT_SIZE ==> entries[v] == IdtEntry::spec_new(
                stubs[v],
                KERNEL_CODE_SELECTOR,
                GATE_FLAGS,
            ),
    ensures
        forall|v: int|
            0 <= v < IDT_SIZE ==> (#[trigger] entries[v]).spec_handler() == stubs[v]
                && entries[v].selector == KERNEL_CODE_SELECTOR && entries[v].flags == GATE_FLAGS,
{
    assert forall|v: int| 0 <= v < IDT_SIZE implies (#[trigger] entries[v]).spec_handler()
        == stubs[v] && entries[v].selector == KERNEL_CODE_SELECTOR && entries[v].flags
        == GATE_FLAGS by {
        lemma_gate_round_trip(stubs[v], KERNEL_CODE_SELECTOR, GATE_FLAGS);
    }
}

} // verus!
