//! Hardware-independent core of a BIOS boot chain and early kernel bring-up:
//! descriptor tables, the disk-reading protocol, A20 enablement and CPU mode
//! transitions, each written as plain values and state machines so that the
//! code driving real hardware only performs the steps these modules decide.

pub mod a20;
pub mod boot;
pub mod boot_gdt;
pub mod disk;
pub mod framebuffer;
pub mod gdt;
pub mod idt;
pub mod interrupts;
pub mod modes;
pub mod print;
pub mod test_registry;
