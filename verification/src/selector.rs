//! Backend-selection policy: from static host facts, decide whether the GPU
//! benchmark runs against the unified-memory backend (one implicit device)
//! or enumerates indexed discrete devices.

use vstd::prelude::*;

verus! {

/// Static facts about the host, handed in by the OS-information collaborator.
/// Sub-fields the collaborator could not determine are absent.
#[derive(Clone, Debug, PartialEq, Eq)]
pub struct CpuStaticFacts {
    pub os: String,
    pub os_version: Option<String>,
    pub architecture: Option<String>,
    pub cpu_count: u64,
    pub total_memory: u64,
    pub used_memory: u64,
    pub total_swap: u64,
    pub used_swap: u64,
}

/// How the GPU benchmark will run: once against the unified-memory backend,
/// or once per indexed discrete device of which `count` were enumerated.
#[derive(Clone, Copy, Debug, PartialEq, Eq, Structural)]
pub enum GpuPlan {
    RunUnified,
    RunIndexed(u64),
}

/// The one host class whose integrated accelerator is reached through the
/// unified-memory backend: an arm64 machine running macos. Everything else
/// goes through indexed enumeration.
pub open spec fn spec_unified_selected(facts: CpuStaticFacts) -> bool {
    &&& facts.architecture matches Some(a) && a@ == "arm64"@
    &&& facts.os@ == "macos"@
}

/// Backend selection. Returns `RunUnified` exactly when the host reports the
/// arm64/macos combination (an absent architecture never selects it), and
/// otherwise `RunIndexed(discovered)`, where `discovered` is the device count
/// the GPU-inventory collaborator reported — zero devices is a valid plan,
/// not an error.
pub fn select_gpu_plan(facts: &CpuStaticFacts, discovered: u64) -> (r: GpuPlan)
    ensures
        spec_unified_selected(*facts) ==> r == GpuPlan::RunUnified,
        !spec_unified_selected(*facts) ==> r == GpuPlan::RunIndexed(discovered),
{
    let arm64: String = "arm64".to_owned();
    let macos: String = "macos".to_owned();
    let is_arm64 = match &facts.architecture {
        Some(a) => *a == arm64,
        None => false,
    };
    if is_arm64 && facts.os == macos {
        GpuPlan::RunUnified
    } else {
        GpuPlan::RunIndexed(discovered)
    }
}

} // verus!
