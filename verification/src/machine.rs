//! Software model of the privileged processor state that the descriptor
//! subsystem drives.
//!
//! The original hardware operations (an `out` instruction, the two
//! table-load instructions, segment-register reloads, the task-register
//! load, and enabling interrupts) are modelled as ordinary state changes on
//! a [`Machine`] value. Every write to an I/O port is appended to a log, so
//! that contracts can pin down exactly which bytes reach the interrupt
//! controllers and in which order.

use vstd::prelude::*;

verus! {

/// One write of a byte to an x86 I/O port.
#[derive(Clone, Copy, PartialEq, Eq, Debug)]
pub struct PortWrite {
    pub port: u16,
    pub value: u8,
}

/// The privileged processor state touched by this subsystem: the log of
/// I/O port writes, the two table registers, the segment registers, the
/// task register and the interrupt-enable flag.
pub struct Machine {
    /// Every byte written to an I/O port, oldest first.
    pub port_log: Vec<PortWrite>,
    /// Segment-table register: byte limit, base address, and whether a
    /// table has been loaded at all.
    pub gdtr_limit: u16,
    pub gdtr_base: u32,
    pub gdtr_loaded: bool,
    /// Interrupt-table register: byte limit, base address, and whether a
    /// table has been loaded at all.
    pub idtr_limit: u16,
    pub idtr_base: u32,
    pub idtr_loaded: bool,
    /// Segment registers.
    pub cs: u16,
    pub ds: u16,
    pub es: u16,
    pub fs: u16,
    pub gs: u16,
    pub ss: u16,
    /// Task register.
    pub tr: u16,
    /// Whether maskable interrupts are enabled.
    pub interrupts_enabled: bool,
}

impl Machine {
    /// The segment-table register as one value.
    pub open spec fn gdtr(self) -> (u16, u32, bool) {
        (self.gdtr_limit, self.gdtr_base, self.gdtr_loaded)
    }

    /// The interrupt-table register as one value.
    pub open spec fn idtr(self) -> (u16, u32, bool) {
        (self.idtr_limit, self.idtr_base, self.idtr_loaded)
    }

    /// The four data segment registers as one value.
    pub open spec fn data_segs(self) -> (u16, u16, u16, u16) {
        (self.ds, self.es, self.fs, self.gs)
    }

    /// A machine fresh out of reset, before any table is loaded: empty
    /// port log, no tables, zeroed selectors, interrupts masked.
    pub fn new() -> (m: Machine)
        ensures
            m.port_log@ == Seq::<PortWrite>::empty(),
            m.gdtr() == (0u16, 0u32, false),
            m.idtr() == (0u16, 0u32, false),
            m.cs == 0u16,
            m.data_segs() == (0u16, 0u16, 0u16, 0u16),
            m.ss == 0u16,
            m.tr == 0u16,
            !m.interrupts_enabled,
    {
        Machine {
            port_log: Vec::new(),
            gdtr_limit: 0,
            gdtr_base: 0,
            gdtr_loaded: false,
            idtr_limit: 0,
            idtr_base: 0,
            idtr_loaded: false,
            cs: 0,
            ds: 0,
            es: 0,
            fs: 0,
            gs: 0,
            ss: 0,
            tr: 0,
            interrupts_enabled: false,
        }
    }

    /// Write one byte to an I/O port: the write is appended to the log and
    /// nothing else changes.
    pub fn out(&mut self, port: u16, value: u8)
        ensures
            final(self).port_log@ == old(self).port_log@.push((PortWrite { port, value })),
            final(self).gdtr() == old(self).gdtr(),
            final(self).idtr() == old(self).idtr(),
            final(self).cs == old(self).cs,
            final(self).data_segs() == old(self).data_segs(),
            final(self).ss == old(self).ss,
            final(self).tr == old(self).tr,
            final(self).interrupts_enabled == old(self).interrupts_enabled,
    {
        self.port_log.push(PortWrite { port, value });
    }

    /// Point the processor's segment-table register at a table.
    pub fn load_gdt(&mut self, limit: u16, base: u32)
        ensures
            final(self).gdtr() == (limit, base, true),
            final(self).port_log@ == old(self).port_log@,
            final(self).idtr() == old(self).idtr(),
            final(self).cs == old(self).cs,
            final(self).data_segs() == old(self).data_segs(),
            final(self).ss == old(self).ss,
            final(self).tr == old(self).tr,
            final(self).interrupts_enabled == old(self).interrupts_enabled,
    {
        self.gdtr_limit = limit;
        self.gdtr_base = base;
        self.gdtr_loaded = true;
    }

    /// Point the processor's interrupt-table register at a table.
    pub fn load_idt(&mut self, limit: u16, base: u32)
        ensures
            final(self).idtr() == (limit, base, true),
            final(self).port_log@ == old(self).port_log@,
            final(self).gdtr() == old(self).gdtr(),
            final(self).cs == old(self).cs,
            final(self).data_segs() == old(self).data_segs(),
            final(self).ss == old(self).ss,
            final(self).tr == old(self).tr,
            final(self).interrupts_enabled == old(self).interrupts_enabled,
    {
        self.idtr_limit = limit;
        self.idtr_base = base;
        self.idtr_loaded = true;
    }

    /// Reload the code segment register with a selector (the far jump the
    /// boot code performs right after loading the segment table).
    pub fn reload_code_segment(&mut self, selector: u16)
        ensures
            final(self).cs == selector,
            final(self).port_log@ == old(self).port_log@,
            final(self).gdtr() == old(self).gdtr(),
            final(self).idtr() == old(self).idtr(),
            final(self).data_segs() == old(self).data_segs(),
            final(self).ss == old(self).ss,
            final(self).tr == old(self).tr,
            final(self).interrupts_enabled == old(self).interrupts_enabled,
    {
        self.cs = selector;
    }

    /// Load the task register with the selector of the task-state-segment
    /// descriptor.
    pub fn load_task_register(&mut self, selector: u16)
        ensures
            final(self).tr == selector,
            final(self).port_log@ == old(self).port_log@,
            final(self).gdtr() == old(self).gdtr(),
            final(self).idtr() == old(self).idtr(),
            final(self).cs == old(self).cs,
            final(self).data_segs() == old(self).data_segs(),
            final(self).ss == old(self).ss,
            final(self).interrupts_enabled == old(self).interrupts_enabled,
    {
        self.tr = selector;
    }

    /// Enable maskable interrupts.
    pub fn enable_interrupts(&mut self)
        ensures
            final(self).interrupts_enabled,
            final(self).port_log@ == old(self).port_log@,
            final(self).gdtr() == old(self).gdtr(),
            final(self).idtr() == old(self).idtr(),
            final(self).cs == old(self).cs,
            final(self).data_segs() == old(self).data_segs(),
            final(self).ss == old(self).ss,
            final(self).tr == old(self).tr,
    {
        self.interrupts_enabled = true;
    }
}

} // verus!
