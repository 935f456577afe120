use system_benchmark::device::{Device, ThroughputUnit};
use system_benchmark::report::{
    build_report, BatteryFacts, Categories, GpuDeviceFacts, NetworkFacts,
};
use system_benchmark::sampler::SampleError;
use system_benchmark::selector::CpuStaticFacts;

fn facts(os: &str, arch: Option<&str>) -> CpuStaticFacts {
    CpuStaticFacts {
        os: os.to_string(),
        os_version: Some("6.1".to_string()),
        architecture: arch.map(|a| a.to_string()),
        cpu_count: 8,
        total_memory: 16000,
        used_memory: 8000,
        total_swap: 2000,
        used_swap: 100,
    }
}

fn gpu_facts(i: u64) -> GpuDeviceFacts {
    GpuDeviceFacts {
        device: Device::IndexedGpu(i),
        name: Some(format!("gpu{}", i)),
        total_memory: Some(8000),
        free_memory: Some(6000),
        used_memory: Some(2000),
    }
}

fn only(cpu: bool, gpu: bool, battery: bool, network: bool) -> Categories {
    Categories { cpu, gpu, battery, network }
}

#[test]
fn cpu_only_report_has_only_a_cpu_section() {
    let r = build_report(
        only(true, false, false, false),
        Some(facts("linux", Some("x86_64"))),
        Ok(1_000_000_000),
        5,
        10,
        None,
        vec![],
        1,
        1,
        None,
        None,
    );
    let cpu = r.cpu.expect("cpu section");
    assert_eq!(cpu.facts.os, "linux");
    assert_eq!(cpu.sample.device, Device::Cpu);
    assert_eq!(cpu.sample.unit, ThroughputUnit::Gflops);
    assert_eq!(cpu.sample.flops_per_sec, 10_000);
    assert!(r.gpu.is_none());
    assert!(r.battery.is_none());
    assert!(r.network.is_none());
}

#[test]
fn failed_cpu_sample_degrades_to_an_absent_section() {
    let r = build_report(
        only(true, false, false, false),
        Some(facts("linux", Some("x86_64"))),
        Err(SampleError::DeviceUnavailable),
        5,
        10,
        None,
        vec![],
        1,
        1,
        None,
        None,
    );
    assert!(r.cpu.is_none());
    let r = build_report(
        only(true, false, false, false),
        Some(facts("linux", Some("x86_64"))),
        Ok(0),
        5,
        10,
        None,
        vec![],
        1,
        1,
        None,
        None,
    );
    assert!(r.cpu.is_none());
}

#[test]
fn unified_hosts_get_exactly_one_gpu_entry() {
    let r = build_report(
        only(false, true, false, false),
        Some(facts("macos", Some("arm64"))),
        Ok(1),
        1,
        1,
        None,
        vec![Ok(500_000_000)],
        100,
        100,
        None,
        None,
    );
    let gpu = r.gpu.expect("gpu section");
    assert_eq!(gpu.len(), 1);
    assert_eq!(gpu[0].facts.device, Device::UnifiedGpu);
    assert_eq!(gpu[0].facts.name, None);
    assert_eq!(gpu[0].sample.unit, ThroughputUnit::Tflops);
    // 2 * 100^3 * 100 = 2e8 flops in half a second
    assert_eq!(gpu[0].sample.flops_per_sec, 400_000_000);
    assert!(r.cpu.is_none());
}

#[test]
fn unified_run_failure_leaves_an_empty_gpu_section() {
    let r = build_report(
        only(false, true, false, false),
        Some(facts("macos", Some("arm64"))),
        Ok(1),
        1,
        1,
        None,
        vec![Err(SampleError::DeviceUnavailable)],
        100,
        100,
        None,
        None,
    );
    assert_eq!(r.gpu.expect("gpu section").len(), 0);
}

#[test]
fn zero_enumerated_devices_give_an_empty_present_section() {
    let r = build_report(
        only(false, true, false, false),
        Some(facts("linux", Some("x86_64"))),
        Ok(1),
        1,
        1,
        Some(vec![]),
        vec![],
        100,
        100,
        None,
        None,
    );
    let gpu = r.gpu.expect("gpu section present");
    assert_eq!(gpu.len(), 0);
}

#[test]
fn failed_inventory_collaborator_gives_an_absent_gpu_section() {
    let r = build_report(
        only(false, true, false, false),
        Some(facts("linux", Some("x86_64"))),
        Ok(1),
        1,
        1,
        None,
        vec![],
        100,
        100,
        None,
        None,
    );
    assert!(r.gpu.is_none());
}

#[test]
fn one_failed_device_of_three_leaves_the_other_two() {
    let r = build_report(
        only(false, true, false, false),
        Some(facts("linux", Some("x86_64"))),
        Ok(1),
        1,
        1,
        Some(vec![gpu_facts(0), gpu_facts(1), gpu_facts(2)]),
        vec![Ok(1_000_000), Err(SampleError::DeviceUnavailable), Ok(2_000_000)],
        100,
        100,
        None,
        None,
    );
    let gpu = r.gpu.expect("gpu section");
    assert_eq!(gpu.len(), 2);
    assert_eq!(gpu[0].facts.device, Device::IndexedGpu(0));
    assert_eq!(gpu[0].facts.name, Some("gpu0".to_string()));
    assert_eq!(gpu[1].facts.device, Device::IndexedGpu(2));
    assert_eq!(gpu[1].facts.name, Some("gpu2".to_string()));
}

#[test]
fn zero_elapsed_device_run_is_dropped_like_a_failure() {
    let r = build_report(
        only(false, true, false, false),
        Some(facts("linux", Some("x86_64"))),
        Ok(1),
        1,
        1,
        Some(vec![gpu_facts(0), gpu_facts(1)]),
        vec![Ok(0), Ok(3_000_000)],
        100,
        100,
        None,
        None,
    );
    let gpu = r.gpu.expect("gpu section");
    assert_eq!(gpu.len(), 1);
    assert_eq!(gpu[0].facts.device, Device::IndexedGpu(1));
}

#[test]
fn battery_facts_pass_through_verbatim() {
    let b = BatteryFacts {
        has_battery: true,
        charge_percent: Some(85),
        is_charging: Some(false),
        wh_capacity: Some(56),
    };
    let r = build_report(
        only(false, false, true, false),
        None,
        Ok(1),
        1,
        1,
        None,
        vec![],
        1,
        1,
        Some(b),
        None,
    );
    assert_eq!(r.battery, Some(b));
    assert!(r.cpu.is_none() && r.gpu.is_none() && r.network.is_none());
}

#[test]
fn unrequested_battery_is_absent_even_when_reported() {
    let b = BatteryFacts {
        has_battery: false,
        charge_percent: None,
        is_charging: None,
        wh_capacity: None,
    };
    let r = build_report(
        only(false, false, false, false),
        None,
        Ok(1),
        1,
        1,
        None,
        vec![],
        1,
        1,
        Some(b),
        None,
    );
    assert!(r.battery.is_none());
}

#[test]
fn network_section_with_any_probe_result_is_kept() {
    let n = NetworkFacts {
        ping_ms: Some(34),
        public_ip: None,
        download_centi_mbps: None,
        upload_centi_mbps: None,
    };
    let r = build_report(
        only(false, false, false, true),
        None,
        Ok(1),
        1,
        1,
        None,
        vec![],
        1,
        1,
        None,
        Some(n.clone()),
    );
    assert_eq!(r.network, Some(n));
}

#[test]
fn network_section_with_every_probe_failed_is_absent() {
    let n = NetworkFacts {
        ping_ms: None,
        public_ip: None,
        download_centi_mbps: None,
        upload_centi_mbps: None,
    };
    let r = build_report(
        only(false, false, false, true),
        None,
        Ok(1),
        1,
        1,
        None,
        vec![],
        1,
        1,
        None,
        Some(n),
    );
    assert!(r.network.is_none());
}
