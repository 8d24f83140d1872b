//! The boot construction context: the domain being built, its loaded-image
//! metadata, and the virtual-address segments claimed for boot artifacts.

use vstd::prelude::*;

verus! {

/// A placed, page-backed guest-virtual range. Immutable once created:
/// `vend > vstart`, and `vend - vstart` is the byte size of the artifact.
#[derive(Clone, Copy, Debug, PartialEq, Eq, Structural)]
pub struct DomainSegment {
    pub vstart: u64,
    pub vend: u64,
}

impl DomainSegment {
    /// A segment is well formed when its range is non-empty.
    pub open spec fn wf(self) -> bool {
        self.vstart < self.vend
    }

    /// Two segments are disjoint when one ends before the other begins.
    pub open spec fn disjoint(self, other: DomainSegment) -> bool {
        self.vend <= other.vstart || other.vend <= self.vstart
    }
}

/// Kernel image metadata supplied by the image-loading collaborator before
/// orchestration begins.
#[derive(Clone, Copy, Debug, PartialEq, Eq, Structural)]
pub struct ImageInfo {
    /// Lowest virtual address the kernel occupies.
    pub virt_kstart: u64,
    /// One past the highest virtual address the kernel occupies.
    pub virt_kend: u64,
    /// Virtual entry point.
    pub virt_entry: u64,
}

/// The mutable construction context threaded through every boot phase.
/// One construction flow owns it exclusively from start to finish.
#[derive(Clone, Copy, Debug)]
pub struct BootDomain {
    /// Identifier assigned by the hypervisor before construction begins.
    pub domid: u32,
    /// Total guest page count requested for the domain.
    pub total_pages: u64,
    /// Kernel image metadata.
    pub image_info: ImageInfo,
    /// Byte size of the ramdisk module (zero when absent).
    pub ramdisk_size: u64,
    /// Byte size of the device-tree module (zero when absent).
    pub dtb_size: u64,
    /// Where the ramdisk landed, once placed.
    pub ramdisk_seg: Option<DomainSegment>,
    /// Where the device tree landed, once placed.
    pub devicetree_seg: Option<DomainSegment>,
    /// Physical frame of the shared-info page, once allocated.
    pub shared_info_frame: u64,
}

impl BootDomain {
    /// Every placed segment is well formed and disjoint from every other.
    pub open spec fn segments_disjoint(self) -> bool {
        &&& (self.ramdisk_seg matches Some(s) ==> s.wf())
        &&& (self.devicetree_seg matches Some(s) ==> s.wf())
        &&& match (self.ramdisk_seg, self.devicetree_seg) {
            (Some(r), Some(d)) => r.disjoint(d),
            _ => true,
        }
    }

    /// A fresh context for a domain of `total_pages` pages: nothing placed yet.
    pub fn new(domid: u32, total_pages: u64, image_info: ImageInfo, ramdisk_size: u64, dtb_size: u64) -> (r: BootDomain)
        ensures
            r.domid == domid,
            r.total_pages == total_pages,
            r.image_info == image_info,
            r.ramdisk_size == ramdisk_size,
            r.dtb_size == dtb_size,
            r.ramdisk_seg is None,
            r.devicetree_seg is None,
            r.shared_info_frame == 0,
            r.segments_disjoint(),
    {
        BootDomain {
            domid,
            total_pages,
            image_info,
            ramdisk_size,
            dtb_size,
            ramdisk_seg: None,
            devicetree_seg: None,
            shared_info_frame: 0,
        }
    }
}

} // verus!
