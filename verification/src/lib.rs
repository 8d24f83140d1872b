//! Guest-domain construction layer for a Xen-style hypervisor control stack.
//!
//! The crate models the one-time boot sequence of a guest domain: assigning
//! guest-physical RAM banks, populating the physical memory map superpage-first
//! with fallback to smaller page orders, placing boot modules (ramdisk, device
//! tree) into the guest virtual address space, and sequencing the fixed list of
//! boot phases. The hypercall transport itself is asynchronous I/O and lives
//! outside this crate; callers drive the verified per-step decision functions
//! and hand the hypervisor's answers back in.

pub mod domain;
pub mod error;
pub mod geometry;
pub mod orchestrator;
pub mod physmap;
pub mod platform;
