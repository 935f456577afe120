//! Aggregation of one benchmark invocation into a single report value.
//!
//! Every section is independently optional: a collaborator failure or a
//! failed sample degrades to absence of that section or entry, never to a
//! failure of the whole build. GPU entries keep enumeration order.

use vstd::prelude::*;

use crate::device::{Device, ThroughputUnit};
use crate::sampler::{
    sample_from_elapsed, spec_sample, SampleError, ThroughputSample, MAX_ITERATIONS,
    MAX_MATRIX_SIZE,
};
use crate::selector::{select_gpu_plan, spec_unified_selected, CpuStaticFacts, GpuPlan};

verus! {

/// Per-device facts from the GPU-inventory collaborator; sub-fields it could
/// not determine are absent.
#[derive(Clone, Debug, PartialEq, Eq)]
pub struct GpuDeviceFacts {
    pub device: Device,
    pub name: Option<String>,
    pub total_memory: Option<u64>,
    pub free_memory: Option<u64>,
    pub used_memory: Option<u64>,
}

/// Facts from the power collaborator.
#[derive(Clone, Copy, Debug, PartialEq, Eq)]
pub struct BatteryFacts {
    pub has_battery: bool,
    pub charge_percent: Option<u8>,
    pub is_charging: Option<bool>,
    pub wh_capacity: Option<u64>,
}

/// Facts from the network collaborators; every probe is independently
/// fallible, so every sub-field is optional. Speeds are carried in hundredths
/// of a megabit per second.
#[derive(Clone, Debug, PartialEq, Eq)]
pub struct NetworkFacts {
    pub ping_ms: Option<u32>,
    pub public_ip: Option<String>,
    pub download_centi_mbps: Option<u64>,
    pub upload_centi_mbps: Option<u64>,
}

/// Whether any network probe produced a value; a report never carries an
/// all-absent network section.
pub open spec fn spec_network_has_data(n: NetworkFacts) -> bool {
    ||| n.ping_ms is Some
    ||| n.public_ip is Some
    ||| n.download_centi_mbps is Some
    ||| n.upload_centi_mbps is Some
}

/// The CPU section: static host facts plus the one CPU sample.
#[derive(Clone, Debug, PartialEq, Eq)]
pub struct CpuSection {
    pub facts: CpuStaticFacts,
    pub sample: ThroughputSample,
}

/// One GPU entry: the device's inventory facts paired with its sample.
#[derive(Clone, Debug, PartialEq, Eq)]
pub struct GpuEntry {
    pub facts: GpuDeviceFacts,
    pub sample: ThroughputSample,
}

/// Which feature categories one invocation asked for.
#[derive(Clone, Copy, Debug, PartialEq, Eq, Structural)]
pub struct Categories {
    pub cpu: bool,
    pub gpu: bool,
    pub battery: bool,
    pub network: bool,
}

/// The aggregate handed to presentation. Section order is fixed by this
/// struct; GPU entries are in enumeration order.
#[derive(Clone, Debug, PartialEq, Eq)]
pub struct Report {
    pub cpu: Option<CpuSection>,
    pub gpu: Option<Vec<GpuEntry>>,
    pub battery: Option<BatteryFacts>,
    pub network: Option<NetworkFacts>,
}

/// The fixed facts of the unified-memory backend's single implicit device:
/// nothing is enumerated for it, so nothing beyond its identity is known.
pub open spec fn spec_unified_facts() -> GpuDeviceFacts {
    GpuDeviceFacts {
        device: Device::UnifiedGpu,
        name: Option::None,
        total_memory: Option::None,
        free_memory: Option::None,
        used_memory: Option::None,
    }
}

/// Whether the host facts, when present, select the unified-memory backend.
pub open spec fn spec_unified_from_opt(facts: Option<CpuStaticFacts>) -> bool {
    facts matches Some(f) && spec_unified_selected(f)
}

/// The entry one device contributes: its facts paired with the sample of its
/// timed run, or nothing if the run failed or took no measurable time.
pub open spec fn spec_gpu_entry(
    facts: GpuDeviceFacts,
    run: Result<u64, SampleError>,
    iterations: u64,
    size: u64,
) -> Option<GpuEntry> {
    match run {
        Ok(e) => if e > 0 {
            Some(
                GpuEntry {
                    sample: spec_sample(facts.device, iterations, size, e),
                    facts,
                },
            )
        } else {
            None
        },
        Err(_) => None,
    }
}

/// The GPU section of the indexed path: enumeration order kept, one entry per
/// device whose run succeeded, failed devices silently dropped.
pub open spec fn spec_gpu_entries(
    inv: Seq<GpuDeviceFacts>,
    runs: Seq<Result<u64, SampleError>>,
    iterations: u64,
    size: u64,
) -> Seq<GpuEntry>
    recommends
        inv.len() == runs.len(),
    decreases inv.len(),
{
    if inv.len() == 0 {
        Seq::<GpuEntry>::empty()
    } else {
        let prefix = spec_gpu_entries(inv.drop_last(), runs.drop_last(), iterations, size);
        match spec_gpu_entry(inv.last(), runs[inv.len() - 1], iterations, size) {
            Some(x) => prefix.push(x),
            None => prefix,
        }
    }
}

/// The GPU section of the unified path: one entry when the single run
/// succeeded, none otherwise.
pub open spec fn spec_unified_entries(
    run: Result<u64, SampleError>,
    iterations: u64,
    size: u64,
) -> Seq<GpuEntry> {
    match spec_gpu_entry(spec_unified_facts(), run, iterations, size) {
        Some(x) => seq![x],
        None => Seq::<GpuEntry>::empty(),
    }
}

/// Decides the unified-or-indexed question from optional host facts, the way
/// the aggregator does before pairing runs with devices.
pub fn unified_from_opt(facts: &Option<CpuStaticFacts>) -> (r: bool)
    ensures
        r == spec_unified_from_opt(*facts),
{
    match facts {
        Some(f) => select_gpu_plan(f, 0) == GpuPlan::RunUnified,
        None => false,
    }
}

/// Copies one device's facts, field by field, preserving the value exactly.
fn clone_gpu_facts(f: &GpuDeviceFacts) -> (r: GpuDeviceFacts)
    ensures
        r == *f,
{
    GpuDeviceFacts {
        device: f.device,
        name: match &f.name {
            Some(s) => Some(s.clone()),
            None => None,
        },
        total_memory: f.total_memory,
        free_memory: f.free_memory,
        used_memory: f.used_memory,
    }
}

/// Builds the report for one invocation from the collaborators' data and the
/// timed runs. Exactly the requested sections can be present; within them:
///
/// - the CPU section is present iff the host facts arrived and the CPU run
///   measured a positive elapsed time, and then holds exactly those facts and
///   the sample derived from that run;
/// - the GPU section under the unified plan holds the single implicit
///   device's entry (or is empty if its run failed); under the indexed plan
///   it pairs inventory facts with runs in enumeration order, dropping only
///   the devices whose runs failed — zero enumerated devices give an empty,
///   present section, while a failed inventory collaborator gives an absent
///   one;
/// - battery facts pass through verbatim; network facts pass through unless
///   every probe failed, in which case the section is absent.
pub fn build_report(
    requested: Categories,
    cpu_facts: Option<CpuStaticFacts>,
    cpu_run: Result<u64, SampleError>,
    cpu_iterations: u64,
    cpu_size: u64,
    gpu_inventory: Option<Vec<GpuDeviceFacts>>,
    gpu_runs: Vec<Result<u64, SampleError>>,
    gpu_iterations: u64,
    gpu_size: u64,
    battery: Option<BatteryFacts>,
    network: Option<NetworkFacts>,
) -> (r: Report)
    requires
        1 <= cpu_size <= MAX_MATRIX_SIZE,
        1 <= cpu_iterations <= MAX_ITERATIONS,
        1 <= gpu_size <= MAX_MATRIX_SIZE,
        1 <= gpu_iterations <= MAX_ITERATIONS,
        requested.gpu && spec_unified_from_opt(cpu_facts) ==> gpu_runs@.len() == 1,
        requested.gpu && !spec_unified_from_opt(cpu_facts) ==> (gpu_inventory matches Some(inv)
            ==> gpu_runs@.len() == inv@.len()),
    ensures
        r.cpu is Some <==> requested.cpu && cpu_facts is Some && (cpu_run matches Ok(e)
            && e > 0),
        r.cpu matches Some(sec) ==> {
            &&& cpu_facts matches Some(f) && sec.facts == f
            &&& cpu_run matches Ok(e) && sec.sample == spec_sample(
                Device::Cpu,
                cpu_iterations,
                cpu_size,
                e,
            )
            &&& sec.sample.wf()
            &&& sec.sample.unit == ThroughputUnit::Gflops
        },
        !requested.gpu ==> r.gpu is None,
        requested.gpu && spec_unified_from_opt(cpu_facts) ==> (r.gpu matches Some(v) && v@
            == spec_unified_entries(gpu_runs@[0], gpu_iterations, gpu_size)),
        requested.gpu && !spec_unified_from_opt(cpu_facts) && gpu_inventory is None ==> r.gpu
            is None,
        requested.gpu && !spec_unified_from_opt(cpu_facts) ==> (gpu_inventory matches Some(inv)
            ==> (r.gpu matches Some(v) && v@ == spec_gpu_entries(
            inv@,
            gpu_runs@,
            gpu_iterations,
            gpu_size,
        ))),
        requested.gpu && !spec_unified_from_opt(cpu_facts) ==> (gpu_inventory matches Some(inv)
            ==> (inv@.len() == 0 ==> (r.gpu matches Some(v) && v@.len() == 0))),
        requested.gpu && spec_unified_from_opt(cpu_facts) && (gpu_runs@[0] matches Ok(e) && e
            > 0) ==> (r.gpu matches Some(v) && v@.len() == 1 && v@[0].facts.device
            == Device::UnifiedGpu && v@[0].sample.unit == ThroughputUnit::Tflops),
        r.battery == (if requested.battery {
            battery
        } else {
            Option::<BatteryFacts>::None
        }),
        r.network is Some <==> requested.network && (network matches Some(n)
            && spec_network_has_data(n)),
        r.network matches Some(n) ==> network == Some(n),
{
    let unified = unified_from_opt(&cpu_facts);

    let gpu_section: Option<Vec<GpuEntry>> = if !requested.gpu {
        None
    } else if unified {
        let mut v: Vec<GpuEntry> = Vec::new();
        match gpu_runs[0] {
            Ok(e) => {
                match sample_from_elapsed(Device::UnifiedGpu, gpu_iterations, gpu_size, e) {
                    Ok(s) => {
                        v.push(
                            GpuEntry {
                                facts: GpuDeviceFacts {
                                    device: Device::UnifiedGpu,
                                    name: None,
                                    total_memory: None,
                                    free_memory: None,
                                    used_memory: None,
                                },
                                sample: s,
                            },
                        );
                    },
                    Err(_) => {},
                }
            },
            Err(_) => {},
        }
        proof {
            assert(v@ =~= spec_unified_entries(gpu_runs@[0], gpu_iterations, gpu_size));
        }
        Some(v)
    } else {
        match &gpu_inventory {
            Some(inv) => {
                let mut v: Vec<GpuEntry> = Vec::new();
                let n = inv.len();
                let mut i: usize = 0;
                while i < n
                    invariant
                        n == inv@.len(),
                        gpu_runs@.len() == n,
                        0 <= i <= n,
                        1 <= gpu_size <= MAX_MATRIX_SIZE,
                        1 <= gpu_iterations <= MAX_ITERATIONS,
                        v@ == spec_gpu_entries(
                            inv@.take(i as int),
                            gpu_runs@.take(i as int),
                            gpu_iterations,
                            gpu_size,
                        ),
                    decreases n - i,
                {
                    let ghost prev = v@;
                    match gpu_runs[i] {
                        Ok(e) => {
                            match sample_from_elapsed(
                                inv[i].device,
                                gpu_iterations,
                                gpu_size,
                                e,
                            ) {
                                Ok(s) => {
                                    v.push(GpuEntry { facts: clone_gpu_facts(&inv[i]), sample: s });
                                },
                                Err(_) => {},
                            }
                        },
                        Err(_) => {},
                    }
                    proof {
                        let j = i as int;
                        assert(inv@.take(j + 1).drop_last() =~= inv@.take(j));
                        assert(gpu_runs@.take(j + 1).drop_last() =~= gpu_runs@.take(j));
                        assert(inv@.take(j + 1).last() == inv@[j]);
                        assert(gpu_runs@.take(j + 1)[j] == gpu_runs@[j]);
                        assert(v@ =~= spec_gpu_entries(
                            inv@.take(j + 1),
                            gpu_runs@.take(j + 1),
                            gpu_iterations,
                            gpu_size,
                        ));
                    }
                    i = i + 1;
                }
                proof {
                    assert(inv@.take(n as int) =~= inv@);
                    assert(gpu_runs@.take(n as int) =~= gpu_runs@);
                }
                Some(v)
            },
            None => None,
        }
    };

    let cpu_section: Option<CpuSection> = if requested.cpu {
        match cpu_facts {
            Some(f) => {
                match cpu_run {
                    Ok(e) => {
                        match sample_from_elapsed(Device::Cpu, cpu_iterations, cpu_size, e) {
                            Ok(s) => Some(CpuSection { facts: f, sample: s }),
                            Err(_) => None,
                        }
                    },
                    Err(_) => None,
                }
            },
            None => None,
        }
    } else {
        None
    };

    let battery_section: Option<BatteryFacts> = if requested.battery {
        battery
    } else {
        None
    };

    let network_section: Option<NetworkFacts> = if requested.network {
        match network {
            Some(n) => {
                let has_data = n.ping_ms.is_some() || n.public_ip.is_some()
                    || n.download_centi_mbps.is_some() || n.upload_centi_mbps.is_some();
                if has_data {
                    Some(n)
                } else {
                    None
                }
            },
            None => None,
        }
    } else {
        None
    };

    Report { cpu: cpu_section, gpu: gpu_section, battery: battery_section, network: network_section }
}

} // verus!
