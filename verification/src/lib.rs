//! Bring-up core for a bare-metal AArch64 image.
//!
//! Two subsystems make up the crate: a stage-1 page-table builder that
//! installs 4 KiB, 2 MiB and 1 GiB mappings inside a caller-supplied
//! arena, and GICv3/v4 interrupt-controller initialisation expressed
//! over an in-memory image of the device register windows.  Every
//! public operation carries a contract; the hardware-facing pieces
//! (volatile accesses, barriers, system-register stores) belong to the
//! embedding program, which hands plain values in and out.

pub mod dev_register;
pub mod gic;
pub mod mmu;
pub mod regs;
