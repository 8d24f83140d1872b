//! Static memory geometry for the ARM guest platform: native page size,
//! guest-physical RAM bank layout, and the superpage shift hierarchy.

use vstd::prelude::*;

verus! {

/// Log2 of the native guest page size in bytes.
pub const XEN_PAGE_SHIFT: u64 = 12;

/// Native guest page size in bytes (1 << XEN_PAGE_SHIFT).
pub const XEN_PAGE_SIZE: u64 = 0x1000;

/// Guest-physical base address of the first RAM bank.
pub const GUEST_RAM0_BASE: u64 = 0x4000_0000;

/// Maximum byte size of the first RAM bank.
pub const GUEST_RAM0_SIZE: u64 = 0xc000_0000;

/// Guest-physical base address of the second RAM bank.
pub const GUEST_RAM1_BASE: u64 = 0x02_0000_0000;

/// Maximum byte size of the second RAM bank.
pub const GUEST_RAM1_SIZE: u64 = 0xfe_0000_0000;

/// Maximum page count of the first RAM bank (GUEST_RAM0_SIZE >> XEN_PAGE_SHIFT).
pub const GUEST_RAM0_PAGES: u64 = 0xc_0000;

/// Maximum page count of the second RAM bank (GUEST_RAM1_SIZE >> XEN_PAGE_SHIFT).
pub const GUEST_RAM1_PAGES: u64 = 0xfe0_0000;

/// First frame number of the first RAM bank (GUEST_RAM0_BASE >> XEN_PAGE_SHIFT).
pub const GUEST_RAM0_BASE_PFN: u64 = 0x4_0000;

/// First frame number of the second RAM bank (GUEST_RAM1_BASE >> XEN_PAGE_SHIFT).
pub const GUEST_RAM1_BASE_PFN: u64 = 0x20_0000;

/// Each page-table level covers 2^9 more frames than the one below it.
pub const LPAE_SHIFT: u64 = 9;

/// Allocation level shifts (log2 frames per extent), smallest to largest:
/// 4 KiB pages, 2 MiB, 1 GiB and 512 GiB superpages.
pub const PFN_4K_SHIFT: u64 = 0;
pub const PFN_2M_SHIFT: u64 = PFN_4K_SHIFT + LPAE_SHIFT;
pub const PFN_1G_SHIFT: u64 = PFN_2M_SHIFT + LPAE_SHIFT;
pub const PFN_512G_SHIFT: u64 = PFN_1G_SHIFT + LPAE_SHIFT;

/// Frame numbers index a 64-bit physical address space in 4 KiB units, so
/// every meaningful frame number stays below 2^52.
pub const PFN_LIMIT: u64 = 0x10_0000_0000_0000;

/// A shift is valid when it is one of the geometry's hierarchy levels.
pub open spec fn is_level_shift(shift: u64) -> bool {
    shift == PFN_4K_SHIFT || shift == PFN_2M_SHIFT || shift == PFN_1G_SHIFT
        || shift == PFN_512G_SHIFT
}

/// Frames covered by one extent at the given level (2^shift).
pub open spec fn spec_level_pages(shift: u64) -> u64 {
    if shift == PFN_4K_SHIFT {
        1
    } else if shift == PFN_2M_SHIFT {
        0x200
    } else if shift == PFN_1G_SHIFT {
        0x4_0000
    } else {
        0x800_0000
    }
}

/// Frames covered by one extent at the next-coarser level.
pub open spec fn spec_next_level_pages(shift: u64) -> u64 {
    (spec_level_pages(shift) * 0x200) as u64
}

/// Smallest multiple of `pages` that is at least `pfn`.
pub open spec fn spec_align_up(pfn: int, pages: int) -> int {
    if pfn % pages == 0 {
        pfn
    } else {
        (pfn / pages) * pages + pages
    }
}

/// Frames covered by one extent at the given level.
pub fn level_pages(shift: u64) -> (r: u64)
    requires
        is_level_shift(shift),
    ensures
        r == spec_level_pages(shift),
        r >= 1,
{
    if shift == PFN_4K_SHIFT {
        1
    } else if shift == PFN_2M_SHIFT {
        0x200
    } else if shift == PFN_1G_SHIFT {
        0x4_0000
    } else {
        0x800_0000
    }
}

/// The smaller of two page counts.
pub open spec fn min64(a: u64, b: u64) -> u64 {
    if a < b {
        a
    } else {
        b
    }
}

} // verus!
