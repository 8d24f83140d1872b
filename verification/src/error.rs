//! Error taxonomy of the construction layer. An alignment or capacity
//! rejection during population is not an error (it is a try-smaller signal);
//! these variants are the fatal conditions that abort a construction.

use vstd::prelude::*;

verus! {

#[derive(Clone, Copy, Debug, PartialEq, Eq, Structural)]
pub enum PlatformError {
    /// Even the native page-size level yielded zero coverage: the hypervisor
    /// has no memory to give and the guest cannot be built with a hole.
    PopulatePhysmapFailed,
    /// The hypercall transport itself reported a failure.
    HypercallFailed,
    /// No candidate region fits the boot modules: the image, ramdisk and
    /// device-tree sizes are incompatible with the bank layout.
    ModulePlacementFailed,
}

impl PlatformError {
    /// A short human-readable name for the error.
    pub fn describe(&self) -> (r: &'static str)
        ensures
            self is PopulatePhysmapFailed ==> r@ == "physmap population failed"@,
            self is HypercallFailed ==> r@ == "hypercall failed"@,
            self is ModulePlacementFailed ==> r@ == "module placement failed"@,
    {
        match self {
            PlatformError::PopulatePhysmapFailed => "physmap population failed",
            PlatformError::HypercallFailed => "hypercall failed",
            PlatformError::ModulePlacementFailed => "module placement failed",
        }
    }
}

} // verus!
