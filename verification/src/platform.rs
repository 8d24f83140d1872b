//! The ARM guest platform: geometry constants, bank assignment, boot-module
//! placement, and the per-phase operations the boot orchestrator drives.
//! Phases that have nothing to do on this platform succeed without effect.

use vstd::prelude::*;
use crate::domain::BootDomain;
use crate::domain::DomainSegment;
use crate::error::PlatformError;
use crate::geometry::GUEST_RAM0_BASE;
use crate::geometry::GUEST_RAM0_BASE_PFN;
use crate::geometry::GUEST_RAM0_PAGES;
use crate::geometry::GUEST_RAM1_BASE_PFN;
use crate::geometry::GUEST_RAM1_PAGES;
use crate::geometry::XEN_PAGE_SHIFT;
use crate::geometry::XEN_PAGE_SIZE;
use crate::geometry::min64;
use crate::physmap::BatchRecord;
use crate::physmap::ScriptedHypervisor;
use crate::physmap::covers_exactly;
use crate::physmap::populate_guest_memory;
use crate::physmap::spec_replay;

verus! {

/// Domain-creation flag asking the hypervisor to grant the domain IOMMU
/// access (bit 5 of the creation flags, as the hypervisor ABI defines it).
pub const XEN_DOMCTL_CDF_IOMMU: u64 = 0x20;

/// Fixed offset into the first RAM bank (128 MiB) preferred for boot
/// modules when the kernel sits below it.
pub const MODULE_PLACEMENT_OFFSET: u64 = 0x800_0000;

/// Guest physical address width the platform asks for, in bits.
pub const ARM_ADDRESS_BITS: u32 = 64;

/// End address of the first bank when it holds `bank0_pages` pages.
pub open spec fn spec_bank0_end(bank0_pages: u64) -> int {
    GUEST_RAM0_BASE + bank0_pages * XEN_PAGE_SIZE
}

/// Whether any of the three candidate regions fits `modsize` bytes of boot
/// modules: (a) the fixed 128 MiB offset into the first bank, if the bank
/// reaches past the modules and the kernel sits below the offset; (b) the
/// tail of the first bank, if it stays above the kernel's end; (c) the gap
/// below the kernel's load base, if large enough. Candidate (a) tests only
/// the kernel's start address: it assumes the whole image sits below the
/// offset, so a kernel that straddles the 128 MiB mark is the caller's to
/// rule out.
pub open spec fn spec_has_placement(bank0_end: int, kstart: int, kend: int, modsize: int) -> bool {
    ||| (bank0_end >= GUEST_RAM0_BASE + MODULE_PLACEMENT_OFFSET + modsize && kstart
        < GUEST_RAM0_BASE + MODULE_PLACEMENT_OFFSET)
    ||| bank0_end - modsize > kend
    ||| kstart - GUEST_RAM0_BASE > modsize
}

/// The module base the candidate chain selects, tried in the order (a),
/// (b), (c) above. Meaningful only when `spec_has_placement` holds.
pub open spec fn spec_module_base(bank0_end: int, kstart: int, kend: int, modsize: int) -> int {
    if bank0_end >= GUEST_RAM0_BASE + MODULE_PLACEMENT_OFFSET + modsize && kstart < GUEST_RAM0_BASE
        + MODULE_PLACEMENT_OFFSET {
        GUEST_RAM0_BASE + MODULE_PLACEMENT_OFFSET
    } else if bank0_end - modsize > kend {
        bank0_end - modsize
    } else {
        kstart - modsize
    }
}

/// How `place_modules` fills the two module segments on success, given the
/// selected module base: each module with a nonzero size claims the next
/// contiguous range, in order ramdisk then device tree; a module with size
/// zero is left untouched.
pub open spec fn spec_modules_placed(
    before: BootDomain,
    after: BootDomain,
    module_base: int,
) -> bool {
    &&& (before.ramdisk_size > 0 ==> (after.ramdisk_seg matches Some(s) && s.vstart == module_base
        && s.vend == module_base + before.ramdisk_size))
    &&& (before.ramdisk_size == 0 ==> after.ramdisk_seg == before.ramdisk_seg)
    &&& (before.dtb_size > 0 ==> (after.devicetree_seg matches Some(s) && s.vstart == module_base
        + before.ramdisk_size && s.vend == module_base + before.ramdisk_size + before.dtb_size))
    &&& (before.dtb_size == 0 ==> after.devicetree_seg == before.devicetree_seg)
    &&& after.domid == before.domid
    &&& after.total_pages == before.total_pages
    &&& after.image_info == before.image_info
    &&& after.ramdisk_size == before.ramdisk_size
    &&& after.dtb_size == before.dtb_size
    &&& after.shared_info_frame == before.shared_info_frame
}

/// The whole memory-initialization population run, read off the script:
/// the per-bank batch traces, the final script position, and whether both
/// banks were fully populated. Bank order is fixed; a failing bank stops
/// the run at its own script position, so no later bank is touched.
pub open spec fn spec_initialize_memory_replay(total: u64, resp: Seq<u64>, idx: int) -> (
    (Seq<BatchRecord>, Seq<BatchRecord>),
    int,
    bool,
) {
    let bank0 = min64(total, GUEST_RAM0_PAGES);
    let bank1 = min64((total - bank0) as u64, GUEST_RAM1_PAGES);
    let r0 = spec_replay(GUEST_RAM0_BASE_PFN, bank0, resp, 0, idx);
    if !r0.2 {
        ((r0.0, Seq::empty()), r0.1, false)
    } else {
        let r1 = spec_replay(GUEST_RAM1_BASE_PFN, bank1, resp, 0, r0.1);
        ((r0.0, r1.0), r1.1, r1.2)
    }
}

/// The ARM platform: its only mutable state is the page count assigned to
/// each guest RAM bank during memory initialization.
#[derive(Clone, Copy, Debug, Default, PartialEq, Eq, Structural)]
pub struct ArmPlatform {
    pub rambank0_size: u64,
    pub rambank1_size: u64,
}

impl ArmPlatform {
    /// A platform with no bank pages assigned yet.
    pub fn new() -> (r: Self)
        ensures
            r.rambank0_size == 0,
            r.rambank1_size == 0,
    {
        ArmPlatform { rambank0_size: 0, rambank1_size: 0 }
    }

    /// Creation flags for the new domain: only the IOMMU bit is optional on
    /// this platform. Pure; the hypercall itself is the caller's.
    pub fn create_domain(&self, enable_iommu: bool) -> (flags: u64)
        ensures
            flags == if enable_iommu {
                XEN_DOMCTL_CDF_IOMMU
            } else {
                0u64
            },
    {
        if enable_iommu {
            XEN_DOMCTL_CDF_IOMMU
        } else {
            0
        }
    }

    pub fn page_size(&self) -> (r: u64)
        ensures
            r == XEN_PAGE_SIZE,
    {
        XEN_PAGE_SIZE
    }

    pub fn page_shift(&self) -> (r: u64)
        ensures
            r == XEN_PAGE_SHIFT,
    {
        XEN_PAGE_SHIFT
    }

    pub fn needs_early_kernel(&self) -> (r: bool)
        ensures
            !r,
    {
        false
    }

    pub fn hvm(&self) -> (r: bool)
        ensures
            !r,
    {
        false
    }

    /// Guest address width the memory-initialization phase asks the
    /// hypervisor to set before populating.
    pub fn address_bits(&self) -> (r: u32)
        ensures
            r == ARM_ADDRESS_BITS,
    {
        ARM_ADDRESS_BITS
    }

    /// Assign each bank `min(remaining request, bank maximum)` pages, in
    /// bank order, decrementing the remaining request: the sum of the
    /// assignments is `min(total request, total bank capacity)`, and a bank
    /// after exhaustion is assigned zero.
    pub fn assign_bank_sizes(&mut self, total_pages: u64)
        ensures
            final(self).rambank0_size == min64(total_pages, GUEST_RAM0_PAGES),
            final(self).rambank1_size == min64(
                (total_pages - final(self).rambank0_size) as u64,
                GUEST_RAM1_PAGES,
            ),
            final(self).rambank0_size + final(self).rambank1_size == min64(
                total_pages,
                (GUEST_RAM0_PAGES + GUEST_RAM1_PAGES) as u64,
            ),
            final(self).rambank0_size < GUEST_RAM0_PAGES ==> final(self).rambank1_size == 0,
            final(self).rambank0_size <= GUEST_RAM0_PAGES,
            final(self).rambank1_size <= GUEST_RAM1_PAGES,
    {
        let bank0: u64 = if total_pages < GUEST_RAM0_PAGES {
            total_pages
        } else {
            GUEST_RAM0_PAGES
        };
        let remaining: u64 = total_pages - bank0;
        let bank1: u64 = if remaining < GUEST_RAM1_PAGES {
            remaining
        } else {
            GUEST_RAM1_PAGES
        };
        self.rambank0_size = bank0;
        self.rambank1_size = bank1;
    }

    /// Place the ramdisk and device-tree modules contiguously, in order, at
    /// the first fitting candidate region; with no fitting candidate the
    /// configuration is rejected as fatal. On success the placed segments
    /// are disjoint.
    pub fn place_modules(&self, domain: &mut BootDomain, bank0_pages: u64) -> (r: Result<
        (),
        PlatformError,
    >)
        requires
            bank0_pages <= GUEST_RAM0_PAGES,
            old(domain).ramdisk_size + old(domain).dtb_size <= u64::MAX,
            old(domain).ramdisk_seg is None,
            old(domain).devicetree_seg is None,
        ensures
            (r is Ok) == spec_has_placement(
                spec_bank0_end(bank0_pages),
                old(domain).image_info.virt_kstart as int,
                old(domain).image_info.virt_kend as int,
                old(domain).ramdisk_size + old(domain).dtb_size,
            ),
            r is Ok ==> spec_modules_placed(
                *old(domain),
                *final(domain),
                spec_module_base(
                    spec_bank0_end(bank0_pages),
                    old(domain).image_info.virt_kstart as int,
                    old(domain).image_info.virt_kend as int,
                    old(domain).ramdisk_size + old(domain).dtb_size,
                ),
            ),
            r is Ok ==> final(domain).segments_disjoint(),
            r matches Err(e) ==> (e == PlatformError::ModulePlacementFailed && *final(domain)
                == *old(domain)),
    {
        let rd: u64 = domain.ramdisk_size;
        let dtb: u64 = domain.dtb_size;
        let modsize: u64 = rd + dtb;
        let bank0_end: u64 = GUEST_RAM0_BASE + bank0_pages * XEN_PAGE_SIZE;
        let ram128mb: u64 = GUEST_RAM0_BASE + MODULE_PLACEMENT_OFFSET;
        let kstart: u64 = domain.image_info.virt_kstart;
        let kend: u64 = domain.image_info.virt_kend;
        let mut module_base: u64;
        if bank0_end >= ram128mb && bank0_end - ram128mb >= modsize && kstart < ram128mb {
            module_base = ram128mb;
        } else if modsize <= bank0_end && bank0_end - modsize > kend {
            module_base = bank0_end - modsize;
        } else if kstart >= GUEST_RAM0_BASE && kstart - GUEST_RAM0_BASE > modsize {
            module_base = kstart - modsize;
        } else {
            return Err(PlatformError::ModulePlacementFailed);
        }
        if rd != 0 {
            domain.ramdisk_seg = Some(DomainSegment { vstart: module_base, vend: module_base + rd });
            module_base = module_base + rd;
        }
        if dtb != 0 {
            domain.devicetree_seg = Some(
                DomainSegment { vstart: module_base, vend: module_base + dtb },
            );
        }
        Ok(())
    }

    /// The memory-initialization phase: assign the banks, populate each
    /// nonzero bank's frame range in bank order (propagating the first
    /// failure), then place the boot modules. On success the returned pair
    /// of traces partitions each bank's assigned range exactly, and the
    /// module segments are placed and disjoint. The caller has already set
    /// the domain's address width to `ARM_ADDRESS_BITS`.
    pub fn initialize_memory(&mut self, domain: &mut BootDomain, hv: &mut ScriptedHypervisor) -> (r:
        Result<(Vec<BatchRecord>, Vec<BatchRecord>), PlatformError>)
        requires
            old(hv).wf(),
            old(domain).ramdisk_size + old(domain).dtb_size <= u64::MAX,
            old(domain).ramdisk_seg is None,
            old(domain).devicetree_seg is None,
        ensures
            final(hv).wf(),
            final(hv).responses == old(hv).responses,
            old(hv).next <= final(hv).next,
            (r matches Err(e) && e == PlatformError::PopulatePhysmapFailed) ==> exists|k: int|
                old(hv).next <= k < old(hv).responses@.len() && old(hv).responses@[k] == 0,
            final(self).rambank0_size == min64(old(domain).total_pages, GUEST_RAM0_PAGES),
            final(self).rambank0_size + final(self).rambank1_size == min64(
                old(domain).total_pages,
                (GUEST_RAM0_PAGES + GUEST_RAM1_PAGES) as u64,
            ),
            final(self).rambank0_size < GUEST_RAM0_PAGES ==> final(self).rambank1_size == 0,
            r matches Ok(traces) ==> ({
                &&& covers_exactly(traces.0@, GUEST_RAM0_BASE_PFN, final(self).rambank0_size)
                &&& covers_exactly(traces.1@, GUEST_RAM1_BASE_PFN, final(self).rambank1_size)
                &&& spec_modules_placed(
                    *old(domain),
                    *final(domain),
                    spec_module_base(
                        spec_bank0_end(final(self).rambank0_size),
                        old(domain).image_info.virt_kstart as int,
                        old(domain).image_info.virt_kend as int,
                        old(domain).ramdisk_size + old(domain).dtb_size,
                    ),
                )
                &&& final(domain).segments_disjoint()
            }),
            r matches Err(e) ==> (e == PlatformError::PopulatePhysmapFailed || e
                == PlatformError::ModulePlacementFailed),
            r is Err ==> *final(domain) == *old(domain),
            (r matches Err(e) && e == PlatformError::ModulePlacementFailed) ==> !spec_has_placement(
                spec_bank0_end(min64(old(domain).total_pages, GUEST_RAM0_PAGES)),
                old(domain).image_info.virt_kstart as int,
                old(domain).image_info.virt_kend as int,
                old(domain).ramdisk_size + old(domain).dtb_size,
            ),
            ((forall|k: int|
                0 <= k < old(hv).responses@.len() ==> old(hv).responses@[k] >= 1)
                && spec_has_placement(
                spec_bank0_end(min64(old(domain).total_pages, GUEST_RAM0_PAGES)),
                old(domain).image_info.virt_kstart as int,
                old(domain).image_info.virt_kend as int,
                old(domain).ramdisk_size + old(domain).dtb_size,
            )) ==> r is Ok,
            ({
                let m = spec_initialize_memory_replay(
                    old(domain).total_pages,
                    old(hv).responses@,
                    old(hv).next as int,
                );
                &&& final(hv).next == m.1
                &&& (!m.2 ==> (r matches Err(e) && e == PlatformError::PopulatePhysmapFailed))
                &&& (m.2 ==> (r is Ok) == spec_has_placement(
                    spec_bank0_end(min64(old(domain).total_pages, GUEST_RAM0_PAGES)),
                    old(domain).image_info.virt_kstart as int,
                    old(domain).image_info.virt_kend as int,
                    old(domain).ramdisk_size + old(domain).dtb_size,
                ))
                &&& (r matches Ok(traces) ==> (traces.0@ == m.0.0 && traces.1@ == m.0.1))
            }),
    {
        self.assign_bank_sizes(domain.total_pages);
        let trace0: Vec<BatchRecord>;
        if self.rambank0_size > 0 {
            match populate_guest_memory(GUEST_RAM0_BASE_PFN, self.rambank0_size, hv) {
                Ok(t) => {
                    trace0 = t;
                },
                Err(e) => {
                    return Err(e);
                },
            }
        } else {
            trace0 = Vec::new();
        }
        let trace1: Vec<BatchRecord>;
        if self.rambank1_size > 0 {
            match populate_guest_memory(GUEST_RAM1_BASE_PFN, self.rambank1_size, hv) {
                Ok(t) => {
                    trace1 = t;
                },
                Err(e) => {
                    return Err(e);
                },
            }
        } else {
            trace1 = Vec::new();
        }
        match self.place_modules(domain, self.rambank0_size) {
            Ok(_) => Ok((trace0, trace1)),
            Err(e) => Err(e),
        }
    }

    /// Nothing to do before memory initialization on this platform.
    pub fn initialize_early(&mut self, domain: &mut BootDomain) -> (r: Result<(), PlatformError>)
        ensures
            r is Ok,
            *final(domain) == *old(domain),
            *final(self) == *old(self),
    {
        Ok(())
    }

    /// This platform builds no explicit page tables at boot.
    pub fn alloc_page_tables(&mut self, domain: &mut BootDomain) -> (r: Result<
        Option<DomainSegment>,
        PlatformError,
    >)
        ensures
            r matches Ok(s) && s is None,
            *final(domain) == *old(domain),
            *final(self) == *old(self),
    {
        Ok(None)
    }

    /// This platform keeps no physical-to-machine table segment.
    pub fn alloc_p2m_segment(&mut self, domain: &mut BootDomain) -> (r: Result<
        Option<DomainSegment>,
        PlatformError,
    >)
        ensures
            r matches Ok(s) && s is None,
            *final(domain) == *old(domain),
            *final(self) == *old(self),
    {
        Ok(None)
    }

    /// Nothing to do for magic pages on this platform.
    pub fn alloc_magic_pages(&mut self, domain: &mut BootDomain) -> (r: Result<(), PlatformError>)
        ensures
            r is Ok,
            *final(domain) == *old(domain),
            *final(self) == *old(self),
    {
        Ok(())
    }

    /// Nothing to do: the hypervisor maintains this platform's page tables.
    pub fn setup_page_tables(&mut self, domain: &mut BootDomain) -> (r: Result<(), PlatformError>)
        ensures
            r is Ok,
            *final(domain) == *old(domain),
            *final(self) == *old(self),
    {
        Ok(())
    }

    /// Nothing to do for the shared-info page on this platform.
    pub fn setup_shared_info(&mut self, domain: &mut BootDomain, shared_info_frame: u64) -> (r:
        Result<(), PlatformError>)
        ensures
            r is Ok,
            *final(domain) == *old(domain),
            *final(self) == *old(self),
    {
        Ok(())
    }

    /// Nothing to do for the start-info page on this platform.
    pub fn setup_start_info(&mut self, domain: &mut BootDomain, shared_info_frame: u64) -> (r:
        Result<(), PlatformError>)
        ensures
            r is Ok,
            *final(domain) == *old(domain),
            *final(self) == *old(self),
    {
        Ok(())
    }

    /// Nothing to do late in boot on this platform.
    pub fn bootlate(&mut self, domain: &mut BootDomain) -> (r: Result<(), PlatformError>)
        ensures
            r is Ok,
            *final(domain) == *old(domain),
            *final(self) == *old(self),
    {
        Ok(())
    }

    /// Nothing to seed in the grant table on this platform.
    pub fn gnttab_seed(&mut self, domain: &mut BootDomain) -> (r: Result<(), PlatformError>)
        ensures
            r is Ok,
            *final(domain) == *old(domain),
            *final(self) == *old(self),
    {
        Ok(())
    }

    /// Nothing to set in the virtual CPU context on this platform.
    pub fn vcpu(&mut self, domain: &mut BootDomain) -> (r: Result<(), PlatformError>)
        ensures
            r is Ok,
            *final(domain) == *old(domain),
            *final(self) == *old(self),
    {
        Ok(())
    }

    /// No hypercall page is installed on this platform.
    pub fn setup_hypercall_page(&mut self, domain: &mut BootDomain) -> (r: Result<
        (),
        PlatformError,
    >)
        ensures
            r is Ok,
            *final(domain) == *old(domain),
            *final(self) == *old(self),
    {
        Ok(())
    }
}

} // verus!
