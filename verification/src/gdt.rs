//! Segmentation and privilege setup: the six-entry segment table, the task
//! state segment, and their installation on the processor.
//!
//! The kernel uses flat segmentation exclusively: every code and data
//! descriptor covers the whole 4 GiB address space, and the descriptors
//! differ only in privilege ring and in the code/data access bits. The
//! segment table also carries one descriptor for the task state segment,
//! whose base address is the runtime address of the live structure.

use vstd::prelude::*;

use crate::machine::Machine;

verus! {

broadcast use vstd::array::group_array_axioms;

/// Number of slots in the segment table.
pub const GDT_SIZE: usize = 6;

/// Bytes in one packed segment descriptor.
pub const GDT_ENTRY_BYTES: u16 = 8;

/// Byte size of the packed segment table, as placed in the table register.
pub const GDT_BYTES: u16 = GDT_ENTRY_BYTES * 6;

/// Granularity byte for flat descriptors: 4 KiB blocks, 32-bit protected mode.
pub const GRANULARITY: u8 = 0xc0;

/// Access bit: the processor has touched the segment.
pub const ACCESSED: u8 = 1;

/// Access bit: data segments are writable, code segments readable.
pub const RW: u8 = 2;

/// Access bit: the segment holds code.
pub const EXECUTE: u8 = 8;

/// Access bit that is set in every code or data descriptor.
pub const ALWAYS1: u8 = 16;

/// Access bit: the segment is present.
pub const PRESENT: u8 = 128;

/// The unprivileged ring.
pub const RING3: u8 = 3;

/// Privilege bits that mark a descriptor as usable from the unprivileged ring.
pub const USER: u8 = RING3 << 5;

/// Access byte of a kernel code segment.
pub const CODE: u8 = PRESENT | ALWAYS1 | EXECUTE | RW;

/// Access byte of a kernel data segment.
pub const DATA: u8 = PRESENT | ALWAYS1 | RW;

/// Access byte of the task-state-segment descriptor.
pub const TSS_ACCESS: u8 = PRESENT | EXECUTE | ACCESSED;

/// Byte size of the packed task state segment.
pub const TSS_BYTES: u32 = 104;

/// Selector of the kernel code descriptor (slot 1).
pub const KERNEL_CODE_SELECTOR: u16 = 0x08;

/// Selector of the kernel data descriptor (slot 2).
pub const KERNEL_DATA_SELECTOR: u16 = 0x10;

/// Selector of the task-state-segment descriptor (slot 5), with the
/// requestor privilege bits set to the unprivileged ring.
pub const TSS_SELECTOR: u16 = 0x28 | 0x3;

/// One packed segment descriptor, laid out exactly as the processor reads
/// it: a 32-bit base split over three fields, a 20-bit limit split over two,
/// an access byte, and a granularity nibble packed beside the limit's top
/// nibble.
#[derive(Clone, Copy, PartialEq, Eq, Debug)]
pub struct GdtEntry {
    pub limit_low: u16,
    pub base_low: u16,
    pub base_middle: u8,
    pub access: u8,
    pub granularity: u8,
    pub base_high: u8,
}

impl GdtEntry {
    /// The packed form of a (base, limit, access, granularity) tuple.
    pub open spec fn spec_new(base: u32, limit: u32, access: u8, granularity: u8) -> GdtEntry {
        GdtEntry {
            limit_low: (limit & 0xFFFF) as u16,
            base_low: (base & 0xFFFF) as u16,
            base_middle: ((base >> 16) & 0xFF) as u8,
            access: access,
            granularity: (((limit >> 16) & 0x0F) as u8) | (granularity & 0xF0),
            base_high: ((base >> 24) & 0xFF) as u8,
        }
    }

    /// Pack a (base, limit, access, granularity) tuple. Total: any base and
    /// limit are accepted; only the limit's low 20 bits and the
    /// granularity's high nibble are representable in the descriptor.
    pub fn new(base: u32, limit: u32, access: u8, granularity: u8) -> (r: GdtEntry)
        ensures
            r == GdtEntry::spec_new(base, limit, access, granularity),
    {
        GdtEntry {
            limit_low: (limit & 0xFFFF) as u16,
            base_low: (base & 0xFFFF) as u16,
            base_middle: ((base >> 16) & 0xFF) as u8,
            access: access,
            granularity: (((limit >> 16) & 0x0F) as u8) | (granularity & 0xF0),
            base_high: ((base >> 24) & 0xFF) as u8,
        }
    }

    /// The all-zero null descriptor the architecture requires in slot 0.
    pub fn null() -> (r: GdtEntry)
        ensures
            r == GdtEntry::spec_new(0, 0, 0, 0),
    {
        GdtEntry::new(0, 0, 0, 0)
    }

    /// A flat descriptor: base 0, limit covering all of memory.
    pub fn flat(access: u8, granularity: u8) -> (r: GdtEntry)
        ensures
            r == GdtEntry::spec_new(0, 0xFFFFFFFF, access, granularity),
    {
        GdtEntry::new(0, 0xFFFFFFFF, access, granularity)
    }

    /// The base address encoded in the descriptor.
    pub open spec fn spec_base(self) -> u32 {
        (self.base_low as u32) | ((self.base_middle as u32) << 16) | (
        (self.base_high as u32) << 24)
    }

    /// The raw 20-bit limit field of the descriptor.
    pub open spec fn spec_raw_limit(self) -> u32 {
        (self.limit_low as u32) | (((self.granularity & 0x0F) as u32) << 16)
    }

    /// The limit as the processor reads it: scaled to 4 KiB pages when the
    /// granularity bit is set, else in bytes.
    pub open spec fn spec_limit(self) -> u32 {
        if self.granularity & 0x80 != 0 {
            (self.spec_raw_limit() << 12) | 0xFFF
        } else {
            self.spec_raw_limit()
        }
    }

    /// The granularity nibble of the descriptor.
    pub open spec fn spec_granularity(self) -> u8 {
        self.granularity & 0xF0
    }

    /// Read the packed descriptor back as the processor would: the full
    /// base, the (granularity-scaled) limit, the access byte and the
    /// granularity nibble.
    pub fn decode(&self) -> (r: (u32, u32, u8, u8))
        ensures
            r.0 == self.spec_base(),
            r.1 == self.spec_limit(),
            r.2 == self.access,
            r.3 == self.spec_granularity(),
    {
        let base: u32 = (self.base_low as u32) | ((self.base_middle as u32) << 16) | (
        (self.base_high as u32) << 24);
        let raw_limit: u32 = (self.limit_low as u32) | (((self.granularity & 0x0F) as u32) << 16);
        let limit: u32 = if self.granularity & 0x80 != 0 {
            (raw_limit << 12) | 0xFFF
        } else {
            raw_limit
        };
        (base, limit, self.access, self.granularity & 0xF0)
    }
}

/// Encoding then decoding a descriptor recovers the tuple that was packed.
///
/// The descriptor holds only 20 limit bits and the granularity's high
/// nibble, so the law holds for every base and access byte, for every
/// granularity with a clear low nibble, and for every limit the descriptor
/// can represent: any limit under 2^20 at byte granularity, and any limit
/// that equals the page-scaled reading of its own low 20 bits at 4 KiB
/// granularity (the flat 4 GiB limit is one).
pub proof fn lemma_segment_round_trip(base: u32, limit: u32, access: u8, granularity: u8)
    requires
        granularity & 0x0F == 0,
        granularity & 0x80 == 0 ==> limit < 0x100000,
        granularity & 0x80 != 0 ==> limit == ((limit & 0xFFFFF) << 12) | 0xFFF,
    ensures
        GdtEntry::spec_new(base, limit, access, granularity).spec_base() == base,
        GdtEntry::spec_new(base, limit, access, granularity).spec_limit() == limit,
        GdtEntry::spec_new(base, limit, access, granularity).access == access,
        GdtEntry::spec_new(base, limit, access, granularity).spec_granularity() == granularity,
{
    assert(GdtEntry::spec_new(base, limit, access, granularity).spec_base() == base) by (bit_vector);
    assert(GdtEntry::spec_new(base, limit, access, granularity).spec_limit() == limit)
        by (bit_vector)
        requires
            granularity & 0x0F == 0,
            granularity & 0x80 == 0 ==> limit < 0x100000,
            granularity & 0x80 != 0 ==> limit == ((limit & 0xFFFFF) << 12) | 0xFFF,
    ;
    assert(GdtEntry::spec_new(base, limit, access, granularity).spec_granularity() == granularity)
        by (bit_vector)
        requires
            granularity & 0x0F == 0,
    ;
}

/// The null descriptor in slot 0 is all-zero, byte for byte.
pub proof fn lemma_null_descriptor_zero()
    ensures
        GdtEntry::spec_new(0, 0, 0, 0) == (GdtEntry {
            limit_low: 0,
            base_low: 0,
            base_middle: 0,
            access: 0,
            granularity: 0,
            base_high: 0,
        }),
{
    assert((0u32 & 0xFFFF) as u16 == 0) by (bit_vector);
    assert(((0u32 >> 16) & 0xFF) as u8 == 0) by (bit_vector);
    assert(((0u32 >> 16) & 0x0F) as u8 | (0u8 & 0xF0) == 0) by (bit_vector);
    assert(((0u32 >> 24) & 0xFF) as u8 == 0) by (bit_vector);
}

/// The table descriptor handed to the processor's segment-table load: the
/// table's byte size and its base address.
#[derive(Clone, Copy, PartialEq, Eq, Debug)]
pub struct GdtPtr {
    pub limit: u16,
    pub base: u32,
}

impl GdtPtr {
    /// Table descriptor for the six-slot segment table at `base`.
    pub fn new(base: u32) -> (r: GdtPtr)
        ensures
            r.limit == GDT_BYTES,
            r.base == base,
    {
        GdtPtr { limit: GDT_BYTES, base }
    }
}

/// The task state segment: the structure the processor reads on a
/// privilege-level change to find the ring-0 stack. Laid out exactly as
/// the processor expects it, 104 bytes.
#[derive(Clone, Copy, PartialEq, Eq, Debug)]
pub struct TssEntry {
    pub prev_tss: u32,
    /// Ring-0 stack pointer loaded on a privilege transition.
    pub esp0: u32,
    /// Ring-0 stack segment loaded on a privilege transition.
    pub ss0: u32,
    pub unused: [u32; 15],
    pub es: u32,
    pub cs: u32,
    pub ss: u32,
    pub ds: u32,
    pub fs: u32,
    pub gs: u32,
    pub ldt: u32,
    pub trap: u16,
    pub iomap_base: u16,
}

impl TssEntry {
    /// Every field of the task state segment is zero.
    pub open spec fn is_zeroed(self) -> bool {
        &&& self.prev_tss == 0
        &&& self.esp0 == 0
        &&& self.ss0 == 0
        &&& (forall|i: int| 0 <= i < 15 ==> self.unused@[i] == 0)
        &&& self.es == 0
        &&& self.cs == 0
        &&& self.ss == 0
        &&& self.ds == 0
        &&& self.fs == 0
        &&& self.gs == 0
        &&& self.ldt == 0
        &&& self.trap == 0
        &&& self.iomap_base == 0
    }

    /// A zeroed task state segment.
    pub fn new() -> (r: TssEntry)
        ensures
            r.is_zeroed(),
    {
        TssEntry {
            prev_tss: 0,
            esp0: 0,
            ss0: 0,
            unused: [0u32; 15],
            es: 0,
            cs: 0,
            ss: 0,
            ds: 0,
            fs: 0,
            gs: 0,
            ldt: 0,
            trap: 0,
            iomap_base: 0,
        }
    }

    /// The segment descriptor for the live task state segment, given the
    /// address at which the live structure is pinned. The descriptor bakes
    /// in that raw address, so the structure must never move afterwards.
    pub fn as_gdt_entry(&self, base: u32) -> (r: GdtEntry)
        ensures
            r == GdtEntry::spec_new(base, TSS_BYTES, TSS_ACCESS, 0),
    {
        GdtEntry::new(base, TSS_BYTES, TSS_ACCESS, 0)
    }
}

/// The segmentation context: the six-slot segment table and the task state
/// segment it describes. Constructed once at boot and then installed on the
/// processor by [`Gdt::init`].
pub struct Gdt {
    pub entries: Vec<GdtEntry>,
    pub tss: TssEntry,
}

impl Gdt {
    /// A fresh context: no table built yet, task state segment zeroed.
    pub fn new() -> (r: Gdt)
        ensures
            r.entries@ == Seq::<GdtEntry>::empty(),
            r.tss.is_zeroed(),
    {
        Gdt { entries: Vec::new(), tss: TssEntry::new() }
    }

    /// Build the six segment descriptors and install them: load the table
    /// register, reload every segment register with the kernel selectors,
    /// and load the task register.
    ///
    /// `table_base` and `tss_base` are the addresses at which the table and
    /// the task state segment are pinned for the lifetime of the program.
    ///
    /// Whatever the context held before, afterwards slot 0 is the all-zero
    /// null descriptor and the six slots are exactly the flat kernel/user
    /// descriptors and the task-state-segment descriptor: repeated calls
    /// rebuild the same table.
    pub fn init(&mut self, hw: &mut Machine, table_base: u32, tss_base: u32)
        ensures
            final(self).entries@.len() == 6,
            final(self).entries@[0] == GdtEntry::spec_new(0, 0, 0, 0),
            final(self).entries@[1] == GdtEntry::spec_new(0, 0xFFFFFFFF, CODE, GRANULARITY),
            final(self).entries@[2] == GdtEntry::spec_new(0, 0xFFFFFFFF, DATA, GRANULARITY),
            final(self).entries@[3] == GdtEntry::spec_new(0, 0xFFFFFFFF, USER | CODE, GRANULARITY),
            final(self).entries@[4] == GdtEntry::spec_new(0, 0xFFFFFFFF, USER | DATA, GRANULARITY),
            final(self).entries@[5] == GdtEntry::spec_new(tss_base, TSS_BYTES, TSS_ACCESS, 0),
            final(self).tss == (TssEntry {
                ss0: KERNEL_DATA_SELECTOR as u32,
                esp0: 0,
                iomap_base: TSS_BYTES as u16,
                ..old(self).tss
            }),
            final(hw).gdtr() == (GDT_BYTES, table_base, true),
            final(hw).cs == KERNEL_CODE_SELECTOR,
            final(hw).data_segs() == (
                KERNEL_DATA_SELECTOR,
                KERNEL_DATA_SELECTOR,
                KERNEL_DATA_SELECTOR,
                KERNEL_DATA_SELECTOR,
            ),
            final(hw).ss == KERNEL_DATA_SELECTOR,
            final(hw).tr == TSS_SELECTOR,
            final(hw).port_log@ == old(hw).port_log@,
            final(hw).idtr() == old(hw).idtr(),
            final(hw).interrupts_enabled == old(hw).interrupts_enabled,
    {
        self.entries.clear();
        self.entries.push(GdtEntry::null());
        self.entries.push(GdtEntry::flat(CODE, GRANULARITY));
        self.entries.push(GdtEntry::flat(DATA, GRANULARITY));
        self.entries.push(GdtEntry::flat(USER | CODE, GRANULARITY));
        self.entries.push(GdtEntry::flat(USER | DATA, GRANULARITY));
        let tss_descriptor = self.write_tss(KERNEL_DATA_SELECTOR as u32, 0, tss_base);
        self.entries.push(tss_descriptor);

        let ptr = GdtPtr::new(table_base);
        gdt_flush(hw, &ptr);
        tss_flush(hw, TSS_SELECTOR);
    }

    /// Update the ring-0 stack pointer the processor will load on the next
    /// privilege transition. Touches nothing but that one field; the table
    /// register need not be reloaded.
    pub fn set_kernel_stack(&mut self, stack_top: u32)
        ensures
            final(self).tss == (TssEntry { esp0: stack_top, ..old(self).tss }),
            final(self).entries@ == old(self).entries@,
    {
        self.tss.esp0 = stack_top;
    }

    /// Fill in the ring-0 stack fields and the I/O map base of the task
    /// state segment, and return its segment descriptor for `tss_base`.
    fn write_tss(&mut self, ss0: u32, esp0: u32, tss_base: u32) -> (r: GdtEntry)
        ensures
            final(self).tss == (TssEntry {
                ss0: ss0,
                esp0: esp0,
                iomap_base: TSS_BYTES as u16,
                ..old(self).tss
            }),
            final(self).entries@ == old(self).entries@,
            r == GdtEntry::spec_new(tss_base, TSS_BYTES, TSS_ACCESS, 0),
    {
        self.tss.ss0 = ss0;
        self.tss.esp0 = esp0;
        self.tss.iomap_base = TSS_BYTES as u16;
        self.tss.as_gdt_entry(tss_base)
    }
}

/// Reload the four data segment registers with a selector.
pub fn set_segments(hw: &mut Machine, dataseg: u16)
    ensures
        final(hw).data_segs() == (dataseg, dataseg, dataseg, dataseg),
        final(hw).ss == old(hw).ss,
        final(hw).cs == old(hw).cs,
        final(hw).port_log@ == old(hw).port_log@,
        final(hw).gdtr() == old(hw).gdtr(),
        final(hw).idtr() == old(hw).idtr(),
        final(hw).tr == old(hw).tr,
        final(hw).interrupts_enabled == old(hw).interrupts_enabled,
{
    hw.ds = dataseg;
    hw.es = dataseg;
    hw.fs = dataseg;
    hw.gs = dataseg;
}

/// Reload the four data segment registers and the stack segment register.
fn set_all_segments(hw: &mut Machine, dataseg: u16)
    ensures
        final(hw).data_segs() == (dataseg, dataseg, dataseg, dataseg),
        final(hw).ss == dataseg,
        final(hw).cs == old(hw).cs,
        final(hw).port_log@ == old(hw).port_log@,
        final(hw).gdtr() == old(hw).gdtr(),
        final(hw).idtr() == old(hw).idtr(),
        final(hw).tr == old(hw).tr,
        final(hw).interrupts_enabled == old(hw).interrupts_enabled,
{
    set_segments(hw, dataseg);
    hw.ss = dataseg;
}

/// Load the segment-table register, then reload the stack and data segment
/// registers with the kernel data selector and the code segment register
/// with the kernel code selector.
fn gdt_flush(hw: &mut Machine, ptr: &GdtPtr)
    ensures
        final(hw).gdtr() == (ptr.limit, ptr.base, true),
        final(hw).cs == KERNEL_CODE_SELECTOR,
        final(hw).data_segs() == (
            KERNEL_DATA_SELECTOR,
            KERNEL_DATA_SELECTOR,
            KERNEL_DATA_SELECTOR,
            KERNEL_DATA_SELECTOR,
        ),
        final(hw).ss == KERNEL_DATA_SELECTOR,
        final(hw).port_log@ == old(hw).port_log@,
        final(hw).idtr() == old(hw).idtr(),
        final(hw).tr == old(hw).tr,
        final(hw).interrupts_enabled == old(hw).interrupts_enabled,
{
    hw.load_gdt(ptr.limit, ptr.base);
    set_all_segments(hw, KERNEL_DATA_SELECTOR);
    hw.reload_code_segment(KERNEL_CODE_SELECTOR);
}

/// Load the task register with the given selector.
fn tss_flush(hw: &mut Machine, selector: u16)
    ensures
        final(hw).tr == selector,
        final(hw).port_log@ == old(hw).port_log@,
        final(hw).gdtr() == old(hw).gdtr(),
        final(hw).idtr() == old(hw).idtr(),
        final(hw).cs == old(hw).cs,
        final(hw).data_segs() == old(hw).data_segs(),
        final(hw).ss == old(hw).ss,
        final(hw).interrupts_enabled == old(hw).interrupts_enabled,
{
    hw.load_task_register(selector);
}

} // verus!
