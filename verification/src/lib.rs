//! Interrupt- and privilege-descriptor subsystem of a small x86 kernel.
//!
//! The crate builds the processor's descriptor tables (the interrupt table
//! and the segment table with its embedded task state segment), models the
//! privileged instructions that install them, and routes every interrupt
//! vector to a registered handler.
//!
//! All privileged processor state that this subsystem drives (I/O port
//! writes, table registers, segment registers, the interrupt flag) is kept
//! in an explicit [`machine::Machine`] value, so that every table build,
//! controller acknowledgment and register reload is an ordinary, verified
//! state change. A thin unverified backend may replay that state onto real
//! hardware.

pub mod gdt;
pub mod idt;
pub mod machine;
pub mod util;
