use xenplatform::domain::{BootDomain, DomainSegment, ImageInfo};
use xenplatform::error::PlatformError;
use xenplatform::geometry::{
    GUEST_RAM0_BASE_PFN, GUEST_RAM0_PAGES, GUEST_RAM1_BASE_PFN, GUEST_RAM1_PAGES, PFN_1G_SHIFT,
    PFN_2M_SHIFT, PFN_4K_SHIFT, PFN_512G_SHIFT, XEN_PAGE_SHIFT, XEN_PAGE_SIZE,
};
use xenplatform::orchestrator::{
    advance, first_state, next_phase, run_arm_construction, BootPhase, BootState,
};
use xenplatform::physmap::{
    covered_frames, fallback_shifts, next_cursor, plan_level, populate_guest_memory,
    populate_one_size, round_batch_cap,
    LevelCoverage, LevelPlan, ScriptedHypervisor,
};
use xenplatform::platform::{ArmPlatform, XEN_DOMCTL_CDF_IOMMU};

fn demo_domain(total_pages: u64, kstart: u64, kend: u64, rd: u64, dtb: u64) -> BootDomain {
    BootDomain::new(
        7,
        total_pages,
        ImageInfo {
            virt_kstart: kstart,
            virt_kend: kend,
            virt_entry: kstart,
        },
        rd,
        dtb,
    )
}

#[test]
fn pure_capability_queries() {
    let p = ArmPlatform::new();
    assert_eq!(p.page_size(), XEN_PAGE_SIZE);
    assert_eq!(p.page_shift(), XEN_PAGE_SHIFT);
    assert!(!p.hvm());
    assert!(!p.needs_early_kernel());
    assert_eq!(p.address_bits(), 64);
}

#[test]
fn create_domain_flags() {
    let p = ArmPlatform::new();
    assert_eq!(p.create_domain(true), XEN_DOMCTL_CDF_IOMMU);
    assert_eq!(p.create_domain(true), 0x20);
    assert_eq!(p.create_domain(false), 0);
}

#[test]
fn bank_assignment_small_request() {
    let mut p = ArmPlatform::new();
    p.assign_bank_sizes(4096);
    assert_eq!(p.rambank0_size, 4096);
    assert_eq!(p.rambank1_size, 0);
}

#[test]
fn bank_assignment_spills_into_second_bank() {
    let mut p = ArmPlatform::new();
    p.assign_bank_sizes(GUEST_RAM0_PAGES + 123);
    assert_eq!(p.rambank0_size, GUEST_RAM0_PAGES);
    assert_eq!(p.rambank1_size, 123);
}

#[test]
fn bank_assignment_caps_at_total_capacity() {
    let mut p = ArmPlatform::new();
    p.assign_bank_sizes(u64::MAX);
    assert_eq!(p.rambank0_size, GUEST_RAM0_PAGES);
    assert_eq!(p.rambank1_size, GUEST_RAM1_PAGES);
    // sum of assignments is min(total, capacity)
    assert_eq!(
        p.rambank0_size + p.rambank1_size,
        GUEST_RAM0_PAGES + GUEST_RAM1_PAGES
    );
}

#[test]
fn plan_level_skips_degenerate_top_level() {
    assert!(matches!(
        plan_level(PFN_512G_SHIFT, GUEST_RAM0_BASE_PFN, 0x1000_0000),
        LevelPlan::Skip
    ));
}

#[test]
fn plan_level_skips_misaligned_base() {
    // base not a multiple of 512 frames: the 2 MiB level must refuse
    assert!(matches!(
        plan_level(PFN_2M_SHIFT, 0x40001, 100),
        LevelPlan::Skip
    ));
    assert!(matches!(
        plan_level(PFN_1G_SHIFT, 0x40200, 0x10_0000),
        LevelPlan::Skip
    ));
}

#[test]
fn plan_level_clamps_at_next_coarser_boundary() {
    // base 0x40200 is 2 MiB-aligned but not 1 GiB-aligned; a 1 MiB-frame
    // request must be clamped at the next 1 GiB boundary (frame 0x80000)
    match plan_level(PFN_2M_SHIFT, 0x40200, 0x10_0000) {
        LevelPlan::Batch { extents } => {
            assert_eq!(extents.len(), 511);
            assert_eq!(extents[0], 0x40200);
            assert_eq!(extents[1], 0x40400);
            assert_eq!(extents[510], 0x80000 - 512);
        }
        LevelPlan::Skip => panic!("expected a batch"),
    }
}

#[test]
fn plan_level_native_level_takes_any_base() {
    match plan_level(PFN_4K_SHIFT, 0x40001, 3) {
        LevelPlan::Batch { extents } => {
            assert_eq!(extents, vec![0x40001, 0x40002, 0x40003]);
        }
        LevelPlan::Skip => panic!("expected a batch"),
    }
}

#[test]
fn populate_single_2m_batch_for_aligned_16mib() {
    // 4096 pages (16 MiB) at a 2 MiB-aligned base: exactly one batch at the
    // 2 MiB level, no fallback to the native page size
    let mut hv = ScriptedHypervisor::new(Vec::new());
    let trace = populate_guest_memory(GUEST_RAM0_BASE_PFN, 4096, &mut hv).unwrap();
    assert_eq!(trace.len(), 1);
    assert_eq!(trace[0].shift, PFN_2M_SHIFT);
    assert_eq!(trace[0].start_pfn, GUEST_RAM0_BASE_PFN);
    assert_eq!(trace[0].frames, 4096);
}

#[test]
fn populate_odd_base_falls_back_to_native_pages() {
    // 3 pages at an odd base: immediate fallback to 4 KiB, one batch of
    // 3 extents, full coverage
    let mut hv = ScriptedHypervisor::new(Vec::new());
    let trace = populate_guest_memory(0x40001, 3, &mut hv).unwrap();
    assert_eq!(trace.len(), 1);
    assert_eq!(trace[0].shift, PFN_4K_SHIFT);
    assert_eq!(trace[0].start_pfn, 0x40001);
    assert_eq!(trace[0].frames, 3);
}

#[test]
fn populate_zero_grants_at_every_level_is_fatal() {
    // the hypervisor grants nothing at the 2 MiB level nor at the native
    // level: the dedicated fatal error, after trying every level once
    let mut hv = ScriptedHypervisor::new(vec![0, 0]);
    let r = populate_guest_memory(GUEST_RAM0_BASE_PFN, 4096, &mut hv);
    assert_eq!(r.unwrap_err(), PlatformError::PopulatePhysmapFailed);
    // both scripted answers were consumed: one batch per level was issued
    assert_eq!(hv.next, 2);
}

#[test]
fn populate_partial_grant_advances_and_retries() {
    // 8 extents asked at the 2 MiB level, 5 granted: the cursor advances by
    // 2560 frames and a second, smaller 2 MiB batch finishes the range
    let mut hv = ScriptedHypervisor::new(vec![5]);
    let trace = populate_guest_memory(GUEST_RAM0_BASE_PFN, 4096, &mut hv).unwrap();
    assert_eq!(trace.len(), 2);
    assert_eq!(trace[0].shift, PFN_2M_SHIFT);
    assert_eq!(trace[0].frames, 2560);
    assert_eq!(trace[1].shift, PFN_2M_SHIFT);
    assert_eq!(trace[1].start_pfn, GUEST_RAM0_BASE_PFN + 2560);
    assert_eq!(trace[1].frames, 1536);
    let total: u64 = trace.iter().map(|b| b.frames).sum();
    assert_eq!(total, 4096);
}

#[test]
fn populate_large_range_uses_1g_level() {
    // 2 Mi frames (8 GiB) at the 1 GiB-aligned second bank base: each round
    // is capped at 1 Mi frames and covered by one 1 GiB-level batch
    let mut hv = ScriptedHypervisor::new(Vec::new());
    let trace = populate_guest_memory(GUEST_RAM1_BASE_PFN, 0x20_0000, &mut hv).unwrap();
    assert_eq!(trace.len(), 2);
    assert_eq!(trace[0].shift, PFN_1G_SHIFT);
    assert_eq!(trace[0].frames, 0x10_0000);
    assert_eq!(trace[1].shift, PFN_1G_SHIFT);
    assert_eq!(trace[1].start_pfn, GUEST_RAM1_BASE_PFN + 0x10_0000);
    assert_eq!(trace[1].frames, 0x10_0000);
}

#[test]
fn populate_one_size_rejects_misaligned_base() {
    // a request-shape rejection: no batch is issued, no script consumed
    let mut hv = ScriptedHypervisor::new(Vec::new());
    let r = populate_one_size(PFN_2M_SHIFT, 0x40001, 100, &mut hv);
    assert_eq!(r, LevelCoverage::NotApplicable);
    assert_eq!(hv.next, 0);
}

#[test]
fn populate_one_size_distinguishes_empty_grant_from_rejection() {
    // an issued batch granted zero extents is not a shape rejection: the
    // script entry is consumed and the grant is reported as zero frames
    let mut hv = ScriptedHypervisor::new(vec![0]);
    let r = populate_one_size(PFN_2M_SHIFT, GUEST_RAM0_BASE_PFN, 4096, &mut hv);
    assert_eq!(r, LevelCoverage::Granted { frames: 0 });
    assert_eq!(hv.next, 1);
}

#[test]
fn populate_one_size_reports_granted_frames() {
    let mut hv = ScriptedHypervisor::new(Vec::new());
    let r = populate_one_size(PFN_2M_SHIFT, GUEST_RAM0_BASE_PFN, 4096, &mut hv);
    assert_eq!(r, LevelCoverage::Granted { frames: 4096 });
}

#[test]
fn fallback_order_is_largest_first() {
    assert_eq!(
        fallback_shifts(),
        vec![PFN_512G_SHIFT, PFN_1G_SHIFT, PFN_2M_SHIFT, PFN_4K_SHIFT]
    );
}

#[test]
fn round_cap_limits_each_round() {
    assert_eq!(round_batch_cap(100), 100);
    assert_eq!(round_batch_cap(0x200_0000), 0x10_0000);
    assert_eq!(round_batch_cap(0x10_0000), 0x10_0000);
}

#[test]
fn cursor_advances_or_fails_fatally() {
    assert_eq!(next_cursor(10, 100, 5), Ok(15));
    assert_eq!(
        next_cursor(10, 100, 0),
        Err(PlatformError::PopulatePhysmapFailed)
    );
}

#[test]
fn covered_frames_scales_by_level() {
    assert_eq!(covered_frames(PFN_2M_SHIFT, 8), 4096);
    assert_eq!(covered_frames(PFN_4K_SHIFT, 3), 3);
    assert_eq!(covered_frames(PFN_1G_SHIFT, 4), 0x10_0000);
}

#[test]
fn modules_placed_at_128mib_offset() {
    // kernel start below the 128 MiB mark and bank one large enough:
    // ramdisk then device tree, contiguously from the 128 MiB offset
    let p = ArmPlatform::new();
    let mut d = demo_domain(GUEST_RAM0_PAGES, 0x4008_0000, 0x4200_0000, 0x40_0000, 0x1_0000);
    p.place_modules(&mut d, GUEST_RAM0_PAGES).unwrap();
    assert_eq!(
        d.ramdisk_seg,
        Some(DomainSegment {
            vstart: 0x4800_0000,
            vend: 0x4840_0000,
        })
    );
    assert_eq!(
        d.devicetree_seg,
        Some(DomainSegment {
            vstart: 0x4840_0000,
            vend: 0x4841_0000,
        })
    );
}

#[test]
fn modules_placed_at_bank_tail_when_kernel_high() {
    // kernel above the 128 MiB mark: the tail of the first bank is used
    let p = ArmPlatform::new();
    let mut d = demo_domain(GUEST_RAM0_PAGES, 0x5000_0000, 0x5020_0000, 0x40_0000, 0);
    p.place_modules(&mut d, GUEST_RAM0_PAGES).unwrap();
    assert_eq!(
        d.ramdisk_seg,
        Some(DomainSegment {
            vstart: 0xffc0_0000,
            vend: 0x1_0000_0000,
        })
    );
    assert_eq!(d.devicetree_seg, None);
}

#[test]
fn modules_placed_below_kernel_as_last_resort() {
    // small bank whose tail overlaps the kernel: the gap below the kernel
    // base is the remaining candidate
    let p = ArmPlatform::new();
    let mut d = demo_domain(0x8000, 0x4400_0000, 0x47f0_0000, 0x40_0000, 0);
    p.place_modules(&mut d, 0x8000).unwrap();
    assert_eq!(
        d.ramdisk_seg,
        Some(DomainSegment {
            vstart: 0x43c0_0000,
            vend: 0x4400_0000,
        })
    );
}

#[test]
fn module_placement_without_fit_is_fatal() {
    // a tiny bank fully covered by the kernel: no candidate region fits
    let p = ArmPlatform::new();
    let mut d = demo_domain(0x100, 0x4000_0000, 0x4010_0000, 0x40_0000, 0x1_0000);
    let r = p.place_modules(&mut d, 0x100);
    assert_eq!(r.unwrap_err(), PlatformError::ModulePlacementFailed);
    assert_eq!(d.ramdisk_seg, None);
    assert_eq!(d.devicetree_seg, None);
}

#[test]
fn placed_segments_do_not_overlap() {
    let p = ArmPlatform::new();
    let mut d = demo_domain(GUEST_RAM0_PAGES, 0x4008_0000, 0x4200_0000, 0x123_4567, 0x8_9ab);
    p.place_modules(&mut d, GUEST_RAM0_PAGES).unwrap();
    let r = d.ramdisk_seg.unwrap();
    let t = d.devicetree_seg.unwrap();
    assert!(r.vstart < r.vend);
    assert!(t.vstart < t.vend);
    assert!(r.vend <= t.vstart || t.vend <= r.vstart);
}

#[test]
fn initialize_memory_populates_and_places() {
    // a 16 MiB domain: its one bank ends at 0x4100_0000, so the modules
    // land at the bank tail, above the kernel's end
    let mut p = ArmPlatform::new();
    let mut hv = ScriptedHypervisor::new(Vec::new());
    let mut d = demo_domain(4096, 0x4008_0000, 0x4040_0000, 0x10_0000, 0x1_0000);
    let (t0, t1) = p.initialize_memory(&mut d, &mut hv).unwrap();
    assert_eq!(p.rambank0_size, 4096);
    assert_eq!(p.rambank1_size, 0);
    assert_eq!(t0.len(), 1);
    assert_eq!(t0[0].start_pfn, GUEST_RAM0_BASE_PFN);
    assert_eq!(t0[0].frames, 4096);
    assert!(t1.is_empty());
    assert_eq!(
        d.ramdisk_seg,
        Some(DomainSegment {
            vstart: 0x40ef_0000,
            vend: 0x40ff_0000,
        })
    );
    assert_eq!(
        d.devicetree_seg,
        Some(DomainSegment {
            vstart: 0x40ff_0000,
            vend: 0x4100_0000,
        })
    );
}

#[test]
fn initialize_memory_spills_into_second_bank() {
    // a request 100 pages beyond the first bank's capacity: the first bank
    // is covered by one three-extent 1 GiB batch, the second by one native
    // batch of the 100 remaining pages at its own base
    let mut p = ArmPlatform::new();
    let mut hv = ScriptedHypervisor::new(Vec::new());
    let mut d = demo_domain(GUEST_RAM0_PAGES + 100, 0x4008_0000, 0x4040_0000, 0x10_0000, 0x1_0000);
    let (t0, t1) = p.initialize_memory(&mut d, &mut hv).unwrap();
    assert_eq!(p.rambank0_size, GUEST_RAM0_PAGES);
    assert_eq!(p.rambank1_size, 100);
    assert_eq!(t0.len(), 1);
    assert_eq!(t0[0].shift, PFN_1G_SHIFT);
    assert_eq!(t0[0].frames, GUEST_RAM0_PAGES);
    assert_eq!(t1.len(), 1);
    assert_eq!(t1[0].shift, PFN_4K_SHIFT);
    assert_eq!(t1[0].start_pfn, GUEST_RAM1_BASE_PFN);
    assert_eq!(t1[0].frames, 100);
}

#[test]
fn initialize_memory_propagates_population_failure() {
    let mut p = ArmPlatform::new();
    let mut hv = ScriptedHypervisor::new(vec![0, 0]);
    let mut d = demo_domain(4096, 0x4008_0000, 0x4200_0000, 0x40_0000, 0x1_0000);
    let r = p.initialize_memory(&mut d, &mut hv);
    assert_eq!(r.unwrap_err(), PlatformError::PopulatePhysmapFailed);
    // the failure aborts before placement
    assert_eq!(d.ramdisk_seg, None);
}

#[test]
fn construction_run_succeeds_end_to_end() {
    let mut p = ArmPlatform::new();
    let mut hv = ScriptedHypervisor::new(Vec::new());
    let mut d = demo_domain(4096, 0x4008_0000, 0x4040_0000, 0x10_0000, 0x1_0000);
    let (t0, t1) = run_arm_construction(&mut p, &mut d, &mut hv).unwrap();
    let covered: u64 = t0.iter().map(|b| b.frames).sum();
    assert_eq!(covered, 4096);
    assert!(t1.is_empty());
    assert!(d.ramdisk_seg.is_some());
    assert!(d.devicetree_seg.is_some());
}

#[test]
fn construction_run_reports_failing_phase() {
    let mut p = ArmPlatform::new();
    let mut hv = ScriptedHypervisor::new(vec![0, 0]);
    let mut d = demo_domain(4096, 0x4008_0000, 0x4200_0000, 0x40_0000, 0x1_0000);
    let f = run_arm_construction(&mut p, &mut d, &mut hv).unwrap_err();
    assert_eq!(f.phase, BootPhase::InitMemory);
    assert_eq!(f.error, PlatformError::PopulatePhysmapFailed);
}

#[test]
fn phase_sequence_is_linear_and_complete() {
    let order = [
        BootPhase::CreateDomain,
        BootPhase::EarlyInit,
        BootPhase::InitMemory,
        BootPhase::AllocPageTables,
        BootPhase::AllocP2m,
        BootPhase::AllocMagicPages,
        BootPhase::SetupPageTables,
        BootPhase::SetupSharedInfo,
        BootPhase::SetupStartInfo,
        BootPhase::HypercallPage,
        BootPhase::GrantTableSeed,
        BootPhase::VcpuSetup,
        BootPhase::BootLate,
    ];
    let mut s = first_state();
    for p in order {
        assert_eq!(s, BootState::InPhase(p));
        s = advance(s, Ok(()));
    }
    assert_eq!(s, BootState::Done);
    assert_eq!(next_phase(BootPhase::BootLate), None);
}

#[test]
fn phase_failure_aborts_and_absorbs() {
    let s = BootState::InPhase(BootPhase::InitMemory);
    let failed = advance(s, Err(PlatformError::PopulatePhysmapFailed));
    assert_eq!(
        failed,
        BootState::Failed(BootPhase::InitMemory, PlatformError::PopulatePhysmapFailed)
    );
    // terminal states never change again
    assert_eq!(advance(failed, Ok(())), failed);
    assert_eq!(advance(BootState::Done, Err(PlatformError::HypercallFailed)), BootState::Done);
}

#[test]
fn error_descriptions() {
    assert_eq!(
        PlatformError::PopulatePhysmapFailed.describe(),
        "physmap population failed"
    );
    assert_eq!(PlatformError::HypercallFailed.describe(), "hypercall failed");
    assert_eq!(
        PlatformError::ModulePlacementFailed.describe(),
        "module placement failed"
    );
}

#[test]
fn scripted_hypervisor_grants_cap_requests() {
    let mut hv = ScriptedHypervisor::new(vec![3, 10]);
    assert_eq!(hv.grant(8), 3);
    assert_eq!(hv.grant(8), 8);
    // exhausted script grants in full
    assert_eq!(hv.grant(100), 100);
}
