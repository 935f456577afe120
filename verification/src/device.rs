//! The closed set of compute targets the engine can run against, and the
//! throughput unit each one reports in.

use vstd::prelude::*;

verus! {

/// A pure identifier for a compute target: the host CPU, a unified-memory
/// accelerator (one implicit device, never enumerated), or a discrete
/// accelerator reached by a dense zero-based index.
#[derive(Clone, Copy, Debug, PartialEq, Eq, Structural)]
pub enum Device {
    Cpu,
    UnifiedGpu,
    IndexedGpu(u64),
}

/// The unit a throughput figure is scaled to for display.
#[derive(Clone, Copy, Debug, PartialEq, Eq, Structural)]
pub enum ThroughputUnit {
    Gflops,
    Tflops,
}

/// The unit a sample on `device` is reported in: GFLOPS for the host CPU,
/// TFLOPS for either GPU backend.
pub open spec fn spec_unit_for(device: Device) -> ThroughputUnit {
    match device {
        Device::Cpu => ThroughputUnit::Gflops,
        _ => ThroughputUnit::Tflops,
    }
}

/// Picks the reporting unit for a device.
pub fn unit_for(device: Device) -> (r: ThroughputUnit)
    ensures
        r == spec_unit_for(device),
{
    match device {
        Device::Cpu => ThroughputUnit::Gflops,
        _ => ThroughputUnit::Tflops,
    }
}

} // verus!
