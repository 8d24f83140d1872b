//! The boot orchestrator: a linear state machine over the fixed phase
//! sequence, aborting on the first failure, plus the full construction run
//! for the ARM platform. The orchestrator performs no rollback: cleanup of
//! a half-constructed domain is its caller's responsibility.

use vstd::prelude::*;
use crate::domain::BootDomain;
use crate::error::PlatformError;
use crate::geometry::GUEST_RAM0_BASE_PFN;
use crate::geometry::GUEST_RAM0_PAGES;
use crate::geometry::GUEST_RAM1_BASE_PFN;
use crate::geometry::GUEST_RAM1_PAGES;
use crate::geometry::min64;
use crate::physmap::BatchRecord;
use crate::physmap::ScriptedHypervisor;
use crate::physmap::covers_exactly;
use crate::platform::ArmPlatform;
use crate::platform::spec_bank0_end;
use crate::platform::spec_has_placement;
use crate::platform::spec_initialize_memory_replay;
use crate::platform::spec_module_base;
use crate::platform::spec_modules_placed;

verus! {

/// The ordered boot phases. Construction visits them in exactly this
/// order and never loops or branches between them.
#[derive(Clone, Copy, Debug, PartialEq, Eq, Structural)]
pub enum BootPhase {
    CreateDomain,
    EarlyInit,
    InitMemory,
    AllocPageTables,
    AllocP2m,
    AllocMagicPages,
    SetupPageTables,
    SetupSharedInfo,
    SetupStartInfo,
    HypercallPage,
    GrantTableSeed,
    VcpuSetup,
    BootLate,
}

/// Position of a phase in the fixed order.
pub open spec fn spec_phase_index(p: BootPhase) -> int {
    match p {
        BootPhase::CreateDomain => 0,
        BootPhase::EarlyInit => 1,
        BootPhase::InitMemory => 2,
        BootPhase::AllocPageTables => 3,
        BootPhase::AllocP2m => 4,
        BootPhase::AllocMagicPages => 5,
        BootPhase::SetupPageTables => 6,
        BootPhase::SetupSharedInfo => 7,
        BootPhase::SetupStartInfo => 8,
        BootPhase::HypercallPage => 9,
        BootPhase::GrantTableSeed => 10,
        BootPhase::VcpuSetup => 11,
        BootPhase::BootLate => 12,
    }
}

/// The phase after `p`, or `None` after the last one.
pub open spec fn spec_next_phase(p: BootPhase) -> Option<BootPhase> {
    match p {
        BootPhase::CreateDomain => Some(BootPhase::EarlyInit),
        BootPhase::EarlyInit => Some(BootPhase::InitMemory),
        BootPhase::InitMemory => Some(BootPhase::AllocPageTables),
        BootPhase::AllocPageTables => Some(BootPhase::AllocP2m),
        BootPhase::AllocP2m => Some(BootPhase::AllocMagicPages),
        BootPhase::AllocMagicPages => Some(BootPhase::SetupPageTables),
        BootPhase::SetupPageTables => Some(BootPhase::SetupSharedInfo),
        BootPhase::SetupSharedInfo => Some(BootPhase::SetupStartInfo),
        BootPhase::SetupStartInfo => Some(BootPhase::HypercallPage),
        BootPhase::HypercallPage => Some(BootPhase::GrantTableSeed),
        BootPhase::GrantTableSeed => Some(BootPhase::VcpuSetup),
        BootPhase::VcpuSetup => Some(BootPhase::BootLate),
        BootPhase::BootLate => None,
    }
}

/// Where a construction stands: in a phase, finished, or aborted in a phase
/// with the error that stopped it. The last two are terminal.
#[derive(Clone, Copy, Debug, PartialEq, Eq, Structural)]
pub enum BootState {
    InPhase(BootPhase),
    Done,
    Failed(BootPhase, PlatformError),
}

/// The transition function: a phase's success moves to the next phase (or
/// to `Done` after the last), its failure aborts the whole sequence, and
/// terminal states absorb every outcome.
pub open spec fn spec_advance(s: BootState, outcome: Result<(), PlatformError>) -> BootState {
    match s {
        BootState::InPhase(p) => match outcome {
            Ok(_) => match spec_next_phase(p) {
                Some(q) => BootState::InPhase(q),
                None => BootState::Done,
            },
            Err(e) => BootState::Failed(p, e),
        },
        _ => s,
    }
}

/// The state a construction starts in.
pub fn first_state() -> (r: BootState)
    ensures
        r == BootState::InPhase(BootPhase::CreateDomain),
{
    BootState::InPhase(BootPhase::CreateDomain)
}

/// The phase after `p` in the fixed order.
pub fn next_phase(p: BootPhase) -> (r: Option<BootPhase>)
    ensures
        r == spec_next_phase(p),
{
    match p {
        BootPhase::CreateDomain => Some(BootPhase::EarlyInit),
        BootPhase::EarlyInit => Some(BootPhase::InitMemory),
        BootPhase::InitMemory => Some(BootPhase::AllocPageTables),
        BootPhase::AllocPageTables => Some(BootPhase::AllocP2m),
        BootPhase::AllocP2m => Some(BootPhase::AllocMagicPages),
        BootPhase::AllocMagicPages => Some(BootPhase::SetupPageTables),
        BootPhase::SetupPageTables => Some(BootPhase::SetupSharedInfo),
        BootPhase::SetupSharedInfo => Some(BootPhase::SetupStartInfo),
        BootPhase::SetupStartInfo => Some(BootPhase::HypercallPage),
        BootPhase::HypercallPage => Some(BootPhase::GrantTableSeed),
        BootPhase::GrantTableSeed => Some(BootPhase::VcpuSetup),
        BootPhase::VcpuSetup => Some(BootPhase::BootLate),
        BootPhase::BootLate => None,
    }
}

/// Apply one phase outcome to the construction state.
pub fn advance(s: BootState, outcome: Result<(), PlatformError>) -> (r: BootState)
    ensures
        r == spec_advance(s, outcome),
{
    match s {
        BootState::InPhase(p) => match outcome {
            Ok(_) => match next_phase(p) {
                Some(q) => BootState::InPhase(q),
                None => BootState::Done,
            },
            Err(e) => BootState::Failed(p, e),
        },
        _ => s,
    }
}

/// The phase order is strictly linear: each successful step moves exactly
/// one position forward, so no phase is revisited and none is skipped.
pub proof fn lemma_phase_order_linear(p: BootPhase)
    ensures
        spec_next_phase(p) matches Some(q) ==> spec_phase_index(q) == spec_phase_index(p) + 1,
        spec_next_phase(p) is None ==> spec_phase_index(p) == 12,
{
}

/// A terminal state never changes again, whatever outcomes arrive.
pub proof fn lemma_terminal_states_absorb(s: BootState, outcome: Result<(), PlatformError>)
    requires
        s is Done || s is Failed,
    ensures
        spec_advance(s, outcome) == s,
{
}

/// Why a construction run aborted: the phase and its error.
#[derive(Clone, Copy, Debug, PartialEq, Eq, Structural)]
pub struct BootFailure {
    pub phase: BootPhase,
    pub error: PlatformError,
}

/// Drive a whole ARM construction in phase order against a scripted
/// hypervisor, aborting on the first failure. The domain identifier was
/// allocated by the hypervisor before construction begins (the
/// create-domain hypercall, issued with `ArmPlatform::create_domain`
/// flags, is the caller's); every later phase decision runs here. On
/// success every assigned bank frame is covered exactly once and the boot
/// modules are placed disjointly.
pub fn run_arm_construction(
    platform: &mut ArmPlatform,
    domain: &mut BootDomain,
    hv: &mut ScriptedHypervisor,
) -> (r: Result<(Vec<BatchRecord>, Vec<BatchRecord>), BootFailure>)
    requires
        old(hv).wf(),
        old(domain).ramdisk_size + old(domain).dtb_size <= u64::MAX,
        old(domain).ramdisk_seg is None,
        old(domain).devicetree_seg is None,
    ensures
        final(hv).wf(),
        final(hv).responses == old(hv).responses,
        final(platform).rambank0_size == min64(old(domain).total_pages, GUEST_RAM0_PAGES),
        r matches Ok(traces) ==> ({
            &&& covers_exactly(traces.0@, GUEST_RAM0_BASE_PFN, final(platform).rambank0_size)
            &&& covers_exactly(traces.1@, GUEST_RAM1_BASE_PFN, final(platform).rambank1_size)
            &&& final(platform).rambank0_size + final(platform).rambank1_size == min64(
                old(domain).total_pages,
                (GUEST_RAM0_PAGES + GUEST_RAM1_PAGES) as u64,
            )
            &&& spec_modules_placed(
                *old(domain),
                *final(domain),
                spec_module_base(
                    spec_bank0_end(final(platform).rambank0_size),
                    old(domain).image_info.virt_kstart as int,
                    old(domain).image_info.virt_kend as int,
                    old(domain).ramdisk_size + old(domain).dtb_size,
                ),
            )
            &&& final(domain).segments_disjoint()
        }),
        r matches Err(f) ==> (f.phase == BootPhase::InitMemory && (f.error
            == PlatformError::PopulatePhysmapFailed || f.error
            == PlatformError::ModulePlacementFailed)),
        (r matches Err(f) && f.error == PlatformError::PopulatePhysmapFailed) ==> exists|k: int|
            old(hv).next <= k < old(hv).responses@.len() && old(hv).responses@[k] == 0,
        r is Err ==> *final(domain) == *old(domain),
        (r matches Err(f) && f.error == PlatformError::ModulePlacementFailed)
            ==> !spec_has_placement(
            spec_bank0_end(min64(old(domain).total_pages, GUEST_RAM0_PAGES)),
            old(domain).image_info.virt_kstart as int,
            old(domain).image_info.virt_kend as int,
            old(domain).ramdisk_size + old(domain).dtb_size,
        ),
        ((forall|k: int|
            0 <= k < old(hv).responses@.len() ==> old(hv).responses@[k] >= 1)
            && spec_has_placement(
            spec_bank0_end(min64(old(domain).total_pages, GUEST_RAM0_PAGES)),
            old(domain).image_info.virt_kstart as int,
            old(domain).image_info.virt_kend as int,
            old(domain).ramdisk_size + old(domain).dtb_size,
        )) ==> r is Ok,
        ({
            let m = spec_initialize_memory_replay(
                old(domain).total_pages,
                old(hv).responses@,
                old(hv).next as int,
            );
            &&& final(hv).next == m.1
            &&& (!m.2 ==> (r matches Err(f) && f.error == PlatformError::PopulatePhysmapFailed))
            &&& (m.2 ==> (r is Ok) == spec_has_placement(
                spec_bank0_end(min64(old(domain).total_pages, GUEST_RAM0_PAGES)),
                old(domain).image_info.virt_kstart as int,
                old(domain).image_info.virt_kend as int,
                old(domain).ramdisk_size + old(domain).dtb_size,
            ))
            &&& (r matches Ok(traces) ==> (traces.0@ == m.0.0 && traces.1@ == m.0.1))
        }),
{
    if let Err(e) = platform.initialize_early(domain) {
        return Err(BootFailure { phase: BootPhase::EarlyInit, error: e });
    }
    let traces = match platform.initialize_memory(domain, hv) {
        Ok(t) => t,
        Err(e) => {
            return Err(BootFailure { phase: BootPhase::InitMemory, error: e });
        },
    };
    if let Err(e) = platform.alloc_page_tables(domain) {
        return Err(BootFailure { phase: BootPhase::AllocPageTables, error: e });
    }
    if let Err(e) = platform.alloc_p2m_segment(domain) {
        return Err(BootFailure { phase: BootPhase::AllocP2m, error: e });
    }
    if let Err(e) = platform.alloc_magic_pages(domain) {
        return Err(BootFailure { phase: BootPhase::AllocMagicPages, error: e });
    }
    if let Err(e) = platform.setup_page_tables(domain) {
        return Err(BootFailure { phase: BootPhase::SetupPageTables, error: e });
    }
    let shared_info_frame: u64 = domain.shared_info_frame;
    if let Err(e) = platform.setup_shared_info(domain, shared_info_frame) {
        return Err(BootFailure { phase: BootPhase::SetupSharedInfo, error: e });
    }
    if let Err(e) = platform.setup_start_info(domain, shared_info_frame) {
        return Err(BootFailure { phase: BootPhase::SetupStartInfo, error: e });
    }
    if let Err(e) = platform.setup_hypercall_page(domain) {
        return Err(BootFailure { phase: BootPhase::HypercallPage, error: e });
    }
    if let Err(e) = platform.gnttab_seed(domain) {
        return Err(BootFailure { phase: BootPhase::GrantTableSeed, error: e });
    }
    if let Err(e) = platform.vcpu(domain) {
        return Err(BootFailure { phase: BootPhase::VcpuSetup, error: e });
    }
    if let Err(e) = platform.bootlate(domain) {
        return Err(BootFailure { phase: BootPhase::BootLate, error: e });
    }
    Ok(traces)
}

} // verus!
