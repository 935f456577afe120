use system_benchmark::device::Device;
use system_benchmark::report::{
    BatteryFacts, CpuSection, GpuDeviceFacts, GpuEntry, NetworkFacts, Report,
};
use system_benchmark::sampler::sample_from_elapsed;
use system_benchmark::selector::CpuStaticFacts;
use system_benchmark::textfmt::{
    format_battery_info, format_cpu_info, format_cuda_gpus_info, format_general_info,
    format_memory_info, format_mps_gpu_info, generate_plain_output,
};

fn facts(os: &str, arch: Option<&str>) -> CpuStaticFacts {
    CpuStaticFacts {
        os: os.to_string(),
        os_version: Some("6.1".to_string()),
        architecture: arch.map(|a| a.to_string()),
        cpu_count: 8,
        total_memory: 16000,
        used_memory: 8000,
        total_swap: 2000,
        used_swap: 100,
    }
}

#[test]
fn general_info_text() {
    let s = format_general_info(&facts("linux", Some("x86_64")));
    assert_eq!(s, "=> General:\nOS          : linux\nOS version  : 6.1\n\n");
}

#[test]
fn general_info_without_a_version() {
    let mut f = facts("macos", None);
    f.os_version = None;
    let s = format_general_info(&f);
    assert_eq!(s, "=> General:\nOS          : macos\nOS version  : Not available\n\n");
}

#[test]
fn memory_info_text() {
    let s = format_memory_info(&facts("linux", None));
    assert_eq!(
        s,
        "=> Memory:\nTotal       : 16000 mb\nUsed        : 8000 mb\nSwap Total  : 2000 mb\nSwap Used   : 100 mb\n\n"
    );
}

#[test]
fn cpu_info_text() {
    // 2 * 1000^3 * 5 = 1e10 flops in 2 s: 5e9 flops/s, shown as 5.00 GFLOPS.
    let sample = sample_from_elapsed(Device::Cpu, 5, 1000, 2_000_000_000).unwrap();
    let s = format_cpu_info(&facts("linux", Some("x86_64")), &sample);
    assert_eq!(
        s,
        "=> CPU:\nArchitecture: x86_64\nCount       : 8\nFLOPS       : 5.00 GFLOPS\nBenchmark duration: 2.00 seconds\n\n"
    );
}

#[test]
fn cpu_info_without_an_architecture() {
    let sample = sample_from_elapsed(Device::Cpu, 5, 1000, 2_000_000_000).unwrap();
    let s = format_cpu_info(&facts("linux", None), &sample);
    assert!(s.starts_with("=> CPU:\nArchitecture: Not available\n"));
}

#[test]
fn battery_info_text() {
    let s = format_battery_info(&BatteryFacts {
        has_battery: true,
        charge_percent: Some(85),
        is_charging: Some(false),
        wh_capacity: Some(56),
    });
    assert_eq!(
        s,
        "=> Power:\nBattery         : true\nState of charge : 85%\nCharging        : false\nCapacity        : 56 Wh\n\n"
    );
}

#[test]
fn battery_info_with_absent_subfields() {
    let s = format_battery_info(&BatteryFacts {
        has_battery: false,
        charge_percent: None,
        is_charging: None,
        wh_capacity: None,
    });
    assert_eq!(
        s,
        "=> Power:\nBattery         : false\nState of charge : None\nCharging        : false\nCapacity        : None\n\n"
    );
}

#[test]
fn mps_gpu_text() {
    // 2 * 1000^3 * 1000 = 2e12 flops in 1 s: 2.00 TFLOPS.
    let sample = sample_from_elapsed(Device::UnifiedGpu, 1000, 1000, 1_000_000_000).unwrap();
    let s = format_mps_gpu_info(&sample);
    assert_eq!(
        s,
        "=> GPU:\nGPU: integrated (MPS)\nGPU FLOPS: 2.00 TFLOPS\nGPU benchmark duration: 1.00 seconds\n\n"
    );
}

#[test]
fn cuda_gpu_text_lists_devices_in_order() {
    let mk = |i: u64, elapsed: u64| GpuEntry {
        facts: GpuDeviceFacts {
            device: Device::IndexedGpu(i),
            name: if i == 0 { Some("front".to_string()) } else { None },
            total_memory: Some(8000),
            free_memory: Some(6000),
            used_memory: None,
        },
        sample: sample_from_elapsed(Device::IndexedGpu(i), 1000, 1000, elapsed).unwrap(),
    };
    let s = format_cuda_gpus_info(&vec![mk(0, 2_000_000_000), mk(1, 1_000_000_000)]);
    assert_eq!(
        s,
        "CUDA Device 0 Information:\nDevice: IndexedGpu(0)\nName: front\nTotal Memory: 8000\nFree Memory: 6000\nUsed Memory: 0\nGPU Estimated FLOPS: 1.00 TFLOPS\nGPU benchmark duration: 2.00 seconds\n\
         CUDA Device 1 Information:\nDevice: IndexedGpu(1)\nName: Not available\nTotal Memory: 8000\nFree Memory: 6000\nUsed Memory: 0\nGPU Estimated FLOPS: 2.00 TFLOPS\nGPU benchmark duration: 1.00 seconds\n"
    );
}

#[test]
fn cuda_gpu_text_of_no_devices_is_empty() {
    assert_eq!(format_cuda_gpus_info(&vec![]), "");
}

#[test]
fn plain_output_concatenates_sections_in_order() {
    let f = facts("linux", Some("x86_64"));
    let sample = sample_from_elapsed(Device::Cpu, 5, 1000, 2_000_000_000).unwrap();
    let b = BatteryFacts {
        has_battery: true,
        charge_percent: Some(50),
        is_charging: Some(true),
        wh_capacity: None,
    };
    let report = Report {
        cpu: Some(CpuSection { facts: f.clone(), sample }),
        gpu: None,
        battery: Some(b),
        network: None,
    };
    let expected = format!(
        "{}{}{}{}",
        format_general_info(&f),
        format_memory_info(&f),
        format_cpu_info(&f, &sample),
        format_battery_info(&b),
    );
    assert_eq!(generate_plain_output(&report), expected);
}

#[test]
fn plain_output_renders_network_lines() {
    let report = Report {
        cpu: None,
        gpu: None,
        battery: None,
        network: Some(NetworkFacts {
            ping_ms: Some(34),
            public_ip: Some("203.0.113.9".to_string()),
            download_centi_mbps: Some(12345),
            upload_centi_mbps: Some(678),
        }),
    };
    assert_eq!(
        generate_plain_output(&report),
        "=> Network:\nInternet Ping: 34 ms\nPublic IP: 203.0.113.9\nDownload speed: 123.45 Mbps (minimum)\nUpload speed: 6.78 Mbps (minimum)\n"
    );
}

#[test]
fn plain_output_of_an_empty_report_is_empty() {
    let report = Report { cpu: None, gpu: None, battery: None, network: None };
    assert_eq!(generate_plain_output(&report), "");
}

#[test]
fn plain_output_picks_the_unified_block_for_the_implicit_device() {
    let sample = sample_from_elapsed(Device::UnifiedGpu, 1000, 1000, 1_000_000_000).unwrap();
    let report = Report {
        cpu: None,
        gpu: Some(vec![GpuEntry {
            facts: GpuDeviceFacts {
                device: Device::UnifiedGpu,
                name: None,
                total_memory: None,
                free_memory: None,
                used_memory: None,
            },
            sample,
        }]),
        battery: None,
        network: None,
    };
    let out = generate_plain_output(&report);
    assert!(out.starts_with("=> GPU:\nGPU: integrated (MPS)\n"));
}
