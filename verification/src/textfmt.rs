//! Plain-text rendering of a report, verified character by character: every
//! formatter's output is pinned to a spec-level sequence built from literal
//! text, exact decimal digits, and hundredth-scaled fixed-point values.

use vstd::prelude::*;
use vstd::string::StringExecFns;

use crate::device::{Device, ThroughputUnit};
use crate::report::{BatteryFacts, GpuEntry, NetworkFacts, Report};
use crate::sampler::ThroughputSample;
use crate::selector::CpuStaticFacts;

verus! {

/// The character for one decimal digit.
pub open spec fn spec_digit_char(d: int) -> char {
    if d == 0 {
        '0'
    } else if d == 1 {
        '1'
    } else if d == 2 {
        '2'
    } else if d == 3 {
        '3'
    } else if d == 4 {
        '4'
    } else if d == 5 {
        '5'
    } else if d == 6 {
        '6'
    } else if d == 7 {
        '7'
    } else if d == 8 {
        '8'
    } else {
        '9'
    }
}

/// The usual decimal rendering of a natural number, no leading zeros.
pub open spec fn spec_decimal(n: nat) -> Seq<char>
    decreases n,
{
    if n < 10 {
        seq![spec_digit_char(n as int)]
    } else {
        spec_decimal(n / 10) + seq![spec_digit_char((n % 10) as int)]
    }
}

/// Two decimal digits, zero-padded: the fractional part of a value carried
/// in hundredths.
pub open spec fn spec_two_digits(n: nat) -> Seq<char>
    recommends
        n < 100,
{
    seq![spec_digit_char((n / 10) as int), spec_digit_char((n % 10) as int)]
}

/// A value carried in hundredths, rendered with two decimals.
pub open spec fn spec_centi(c: nat) -> Seq<char> {
    spec_decimal(c / 100) + "."@ + spec_two_digits(c % 100)
}

fn digit_str(d: u128) -> (r: &'static str)
    requires
        d < 10,
    ensures
        r@ == seq![spec_digit_char(d as int)],
{
    proof {
        reveal_strlit("0");
        reveal_strlit("1");
        reveal_strlit("2");
        reveal_strlit("3");
        reveal_strlit("4");
        reveal_strlit("5");
        reveal_strlit("6");
        reveal_strlit("7");
        reveal_strlit("8");
        reveal_strlit("9");
        assert(("0")@ =~= seq!['0']);
        assert(("1")@ =~= seq!['1']);
        assert(("2")@ =~= seq!['2']);
        assert(("3")@ =~= seq!['3']);
        assert(("4")@ =~= seq!['4']);
        assert(("5")@ =~= seq!['5']);
        assert(("6")@ =~= seq!['6']);
        assert(("7")@ =~= seq!['7']);
        assert(("8")@ =~= seq!['8']);
        assert(("9")@ =~= seq!['9']);
    }
    if d == 0 {
        "0"
    } else if d == 1 {
        "1"
    } else if d == 2 {
        "2"
    } else if d == 3 {
        "3"
    } else if d == 4 {
        "4"
    } else if d == 5 {
        "5"
    } else if d == 6 {
        "6"
    } else if d == 7 {
        "7"
    } else if d == 8 {
        "8"
    } else {
        "9"
    }
}

/// Appends the decimal rendering of `n`.
fn push_decimal(s: &mut String, n: u128)
    ensures
        final(s)@ == old(s)@ + spec_decimal(n as nat),
    decreases n,
{
    if n >= 10 {
        push_decimal(s, n / 10);
        s.append(digit_str(n % 10));
        proof {
            assert(final(s)@ =~= old(s)@ + spec_decimal(n as nat));
        }
    } else {
        s.append(digit_str(n));
    }
}

/// Appends two zero-padded decimal digits.
fn push_two_digits(s: &mut String, n: u128)
    requires
        n < 100,
    ensures
        final(s)@ == old(s)@ + spec_two_digits(n as nat),
{
    s.append(digit_str(n / 10));
    s.append(digit_str(n % 10));
    proof {
        assert(final(s)@ =~= old(s)@ + spec_two_digits(n as nat));
    }
}

/// Appends a hundredth-scaled value with two decimals.
fn push_centi(s: &mut String, c: u128)
    ensures
        final(s)@ == old(s)@ + spec_centi(c as nat),
{
    push_decimal(s, c / 100);
    s.append(".");
    push_two_digits(s, c % 100);
    proof {
        assert(final(s)@ =~= old(s)@ + spec_centi(c as nat));
    }
}

/// An optional string, or the fixed placeholder when it is absent.
pub open spec fn spec_opt_str(o: Option<String>) -> Seq<char> {
    match o {
        Some(s) => s@,
        None => "Not available"@,
    }
}

fn push_opt_str(s: &mut String, o: &Option<String>)
    ensures
        final(s)@ == old(s)@ + spec_opt_str(*o),
{
    match o {
        Some(v) => s.append(v.as_str()),
        None => s.append("Not available"),
    }
}

/// A `bool` the way debug formatting shows it.
pub open spec fn spec_bool_text(b: bool) -> Seq<char> {
    if b {
        "true"@
    } else {
        "false"@
    }
}

/// The divisor that scales a flops-per-second rate to hundredths of the
/// sample's display unit.
pub open spec fn spec_unit_centi_divisor(u: ThroughputUnit) -> int {
    match u {
        ThroughputUnit::Gflops => 10_000_000,
        ThroughputUnit::Tflops => 10_000_000_000,
    }
}

/// A sample's rate in hundredths of its display unit, rounded down.
pub open spec fn spec_centi_rate(s: ThroughputSample) -> int {
    s.flops_per_sec as int / spec_unit_centi_divisor(s.unit)
}

/// A sample's elapsed time in hundredths of a second, rounded down.
pub open spec fn spec_centi_seconds(s: ThroughputSample) -> int {
    s.elapsed_nanos as int / 10_000_000
}

fn push_centi_rate(s: &mut String, sample: &ThroughputSample)
    ensures
        final(s)@ == old(s)@ + spec_centi(spec_centi_rate(*sample) as nat),
{
    let d: u128 = match sample.unit {
        ThroughputUnit::Gflops => 10_000_000,
        ThroughputUnit::Tflops => 10_000_000_000,
    };
    push_centi(s, sample.flops_per_sec / d);
}

fn push_centi_seconds(s: &mut String, sample: &ThroughputSample)
    ensures
        final(s)@ == old(s)@ + spec_centi(spec_centi_seconds(*sample) as nat),
{
    push_centi(s, (sample.elapsed_nanos as u128) / 10_000_000);
}

/// The general section: operating system and its version.
pub open spec fn spec_general_info(info: CpuStaticFacts) -> Seq<char> {
    "=> General:\nOS          : "@ + info.os@ + "\nOS version  : "@ + spec_opt_str(
        info.os_version,
    ) + "\n\n"@
}

/// Renders the general section.
pub fn format_general_info(cpu_info: &CpuStaticFacts) -> (r: String)
    ensures
        r@ == spec_general_info(*cpu_info),
{
    let mut s = String::new();
    s.append("=> General:\nOS          : ");
    s.append(cpu_info.os.as_str());
    s.append("\nOS version  : ");
    push_opt_str(&mut s, &cpu_info.os_version);
    s.append("\n\n");
    proof {
        assert(s@ =~= spec_general_info(*cpu_info));
    }
    s
}

/// The memory section: totals and use of memory and swap, in megabytes.
pub open spec fn spec_memory_info(info: CpuStaticFacts) -> Seq<char> {
    "=> Memory:\nTotal       : "@ + spec_decimal(info.total_memory as nat)
        + " mb\nUsed        : "@ + spec_decimal(info.used_memory as nat)
        + " mb\nSwap Total  : "@ + spec_decimal(info.total_swap as nat)
        + " mb\nSwap Used   : "@ + spec_decimal(info.used_swap as nat) + " mb\n\n"@
}

/// Renders the memory section.
pub fn format_memory_info(cpu_info: &CpuStaticFacts) -> (r: String)
    ensures
        r@ == spec_memory_info(*cpu_info),
{
    let mut s = String::new();
    s.append("=> Memory:\nTotal       : ");
    push_decimal(&mut s, cpu_info.total_memory as u128);
    s.append(" mb\nUsed        : ");
    push_decimal(&mut s, cpu_info.used_memory as u128);
    s.append(" mb\nSwap Total  : ");
    push_decimal(&mut s, cpu_info.total_swap as u128);
    s.append(" mb\nSwap Used   : ");
    push_decimal(&mut s, cpu_info.used_swap as u128);
    s.append(" mb\n\n");
    proof {
        assert(s@ =~= spec_memory_info(*cpu_info));
    }
    s
}

/// The unit suffix a rate is shown with.
pub open spec fn spec_unit_label(u: ThroughputUnit) -> Seq<char> {
    match u {
        ThroughputUnit::Gflops => " GFLOPS"@,
        ThroughputUnit::Tflops => " TFLOPS"@,
    }
}

fn push_unit_label(s: &mut String, u: ThroughputUnit)
    ensures
        final(s)@ == old(s)@ + spec_unit_label(u),
{
    match u {
        ThroughputUnit::Gflops => s.append(" GFLOPS"),
        ThroughputUnit::Tflops => s.append(" TFLOPS"),
    }
}

/// The CPU section: architecture, logical count, and the measured rate with
/// its run duration.
pub open spec fn spec_cpu_info(info: CpuStaticFacts, sample: ThroughputSample) -> Seq<char> {
    "=> CPU:\nArchitecture: "@ + spec_opt_str(info.architecture) + "\nCount       : "@
        + spec_decimal(info.cpu_count as nat) + "\nFLOPS       : "@ + spec_centi(
        spec_centi_rate(sample) as nat,
    ) + spec_unit_label(sample.unit) + "\nBenchmark duration: "@ + spec_centi(
        spec_centi_seconds(sample) as nat,
    ) + " seconds\n\n"@
}

/// Renders the CPU section.
pub fn format_cpu_info(cpu_info: &CpuStaticFacts, sample: &ThroughputSample) -> (r: String)
    ensures
        r@ == spec_cpu_info(*cpu_info, *sample),
{
    let mut s = String::new();
    s.append("=> CPU:\nArchitecture: ");
    push_opt_str(&mut s, &cpu_info.architecture);
    s.append("\nCount       : ");
    push_decimal(&mut s, cpu_info.cpu_count as u128);
    s.append("\nFLOPS       : ");
    push_centi_rate(&mut s, sample);
    push_unit_label(&mut s, sample.unit);
    s.append("\nBenchmark duration: ");
    push_centi_seconds(&mut s, sample);
    s.append(" seconds\n\n");
    proof {
        assert(s@ =~= spec_cpu_info(*cpu_info, *sample));
    }
    s
}

/// A charge percentage, or the placeholder when none was reported.
pub open spec fn spec_charge_text(o: Option<u8>) -> Seq<char> {
    match o {
        Some(p) => spec_decimal(p as nat) + "%"@,
        None => "None"@,
    }
}

/// A watt-hour capacity, or the placeholder when none was reported.
pub open spec fn spec_capacity_text(o: Option<u64>) -> Seq<char> {
    match o {
        Some(w) => spec_decimal(w as nat) + " Wh"@,
        None => "None"@,
    }
}

/// The power section: presence, state of charge, charging flag (absent read
/// as not charging), and capacity.
pub open spec fn spec_battery_info(b: BatteryFacts) -> Seq<char> {
    "=> Power:\nBattery         : "@ + spec_bool_text(b.has_battery)
        + "\nState of charge : "@ + spec_charge_text(b.charge_percent)
        + "\nCharging        : "@ + spec_bool_text(
        b.is_charging matches Some(true),
    ) + "\nCapacity        : "@ + spec_capacity_text(b.wh_capacity) + "\n\n"@
}

/// Renders the power section.
pub fn format_battery_info(battery_info: &BatteryFacts) -> (r: String)
    ensures
        r@ == spec_battery_info(*battery_info),
{
    let mut s = String::new();
    s.append("=> Power:\nBattery         : ");
    if battery_info.has_battery {
        s.append("true");
    } else {
        s.append("false");
    }
    s.append("\nState of charge : ");
    match battery_info.charge_percent {
        Some(p) => {
            push_decimal(&mut s, p as u128);
            s.append("%");
        },
        None => s.append("None"),
    }
    s.append("\nCharging        : ");
    let charging = match battery_info.is_charging {
        Some(c) => c,
        None => false,
    };
    if charging {
        s.append("true");
    } else {
        s.append("false");
    }
    s.append("\nCapacity        : ");
    match battery_info.wh_capacity {
        Some(w) => {
            push_decimal(&mut s, w as u128);
            s.append(" Wh");
        },
        None => s.append("None"),
    }
    s.append("\n\n");
    proof {
        assert(s@ =~= spec_battery_info(*battery_info));
    }
    s
}

/// The GPU section of the unified path.
pub open spec fn spec_mps_gpu_info(sample: ThroughputSample) -> Seq<char> {
    "=> GPU:\nGPU: integrated (MPS)\nGPU FLOPS: "@ + spec_centi(spec_centi_rate(sample) as nat)
        + " TFLOPS\nGPU benchmark duration: "@ + spec_centi(spec_centi_seconds(sample) as nat)
        + " seconds\n\n"@
}

/// Renders the GPU section of the unified path.
pub fn format_mps_gpu_info(sample: &ThroughputSample) -> (r: String)
    ensures
        r@ == spec_mps_gpu_info(*sample),
{
    let mut s = String::new();
    s.append("=> GPU:\nGPU: integrated (MPS)\nGPU FLOPS: ");
    push_centi_rate(&mut s, sample);
    s.append(" TFLOPS\nGPU benchmark duration: ");
    push_centi_seconds(&mut s, sample);
    s.append(" seconds\n\n");
    proof {
        assert(s@ =~= spec_mps_gpu_info(*sample));
    }
    s
}

/// The index shown for a device: its enumeration index, zero for the
/// non-enumerated kinds.
pub open spec fn spec_device_index(d: Device) -> nat {
    match d {
        Device::IndexedGpu(i) => i as nat,
        _ => 0,
    }
}

/// A device identity as text.
pub open spec fn spec_device_text(d: Device) -> Seq<char> {
    match d {
        Device::Cpu => "Cpu"@,
        Device::UnifiedGpu => "UnifiedGpu"@,
        Device::IndexedGpu(i) => "IndexedGpu("@ + spec_decimal(i as nat) + ")"@,
    }
}

/// An optional count, absent shown as zero.
pub open spec fn spec_opt_num(o: Option<u64>) -> Seq<char> {
    match o {
        Some(v) => spec_decimal(v as nat),
        None => "0"@,
    }
}

fn push_opt_num(s: &mut String, o: Option<u64>)
    ensures
        final(s)@ == old(s)@ + spec_opt_num(o),
{
    match o {
        Some(v) => push_decimal(s, v as u128),
        None => {
            proof {
                reveal_strlit("0");
                assert(("0")@ =~= seq!['0']);
                assert(spec_decimal(0) == seq![spec_digit_char(0)]);
            }
            s.append("0");
        },
    }
}

/// One indexed device's block in the GPU section.
pub open spec fn spec_cuda_entry_text(e: GpuEntry) -> Seq<char> {
    "CUDA Device "@ + spec_decimal(spec_device_index(e.facts.device)) + " Information:\nDevice: "@
        + spec_device_text(e.facts.device) + "\nName: "@ + spec_opt_str(e.facts.name)
        + "\nTotal Memory: "@ + spec_opt_num(e.facts.total_memory) + "\nFree Memory: "@
        + spec_opt_num(e.facts.free_memory) + "\nUsed Memory: "@ + spec_opt_num(
        e.facts.used_memory,
    ) + "\nGPU Estimated FLOPS: "@ + spec_centi(spec_centi_rate(e.sample) as nat)
        + " TFLOPS\nGPU benchmark duration: "@ + spec_centi(spec_centi_seconds(e.sample) as nat)
        + " seconds\n"@
}

/// The GPU section of the indexed path: the devices' blocks in order.
pub open spec fn spec_cuda_gpus_info(entries: Seq<GpuEntry>) -> Seq<char>
    decreases entries.len(),
{
    if entries.len() == 0 {
        Seq::<char>::empty()
    } else {
        spec_cuda_gpus_info(entries.drop_last()) + spec_cuda_entry_text(entries.last())
    }
}

fn push_device_text(s: &mut String, d: Device)
    ensures
        final(s)@ == old(s)@ + spec_device_text(d),
{
    match d {
        Device::Cpu => s.append("Cpu"),
        Device::UnifiedGpu => s.append("UnifiedGpu"),
        Device::IndexedGpu(i) => {
            s.append("IndexedGpu(");
            push_decimal(s, i as u128);
            s.append(")");
            proof {
                assert(final(s)@ =~= old(s)@ + spec_device_text(d));
            }
        },
    }
}

#[verifier::rlimit(50)]
fn push_cuda_entry(s: &mut String, e: &GpuEntry)
    ensures
        final(s)@ == old(s)@ + spec_cuda_entry_text(*e),
{
    s.append("CUDA Device ");
    let idx: u64 = match e.facts.device {
        Device::IndexedGpu(i) => i,
        _ => 0,
    };
    push_decimal(s, idx as u128);
    s.append(" Information:\nDevice: ");
    push_device_text(s, e.facts.device);
    s.append("\nName: ");
    push_opt_str(s, &e.facts.name);
    s.append("\nTotal Memory: ");
    push_opt_num(s, e.facts.total_memory);
    s.append("\nFree Memory: ");
    push_opt_num(s, e.facts.free_memory);
    s.append("\nUsed Memory: ");
    push_opt_num(s, e.facts.used_memory);
    s.append("\nGPU Estimated FLOPS: ");
    push_centi_rate(s, &e.sample);
    s.append(" TFLOPS\nGPU benchmark duration: ");
    push_centi_seconds(s, &e.sample);
    s.append(" seconds\n");
    proof {
        assert(final(s)@ =~= old(s)@ + spec_cuda_entry_text(*e));
    }
}

/// Renders the GPU section of the indexed path.
pub fn format_cuda_gpus_info(entries: &Vec<GpuEntry>) -> (r: String)
    ensures
        r@ == spec_cuda_gpus_info(entries@),
{
    let mut s = String::new();
    let mut i: usize = 0;
    while i < entries.len()
        invariant
            0 <= i <= entries@.len(),
            s@ == spec_cuda_gpus_info(entries@.take(i as int)),
        decreases entries@.len() - i,
    {
        push_cuda_entry(&mut s, &entries[i]);
        proof {
            let j = i as int;
            assert(entries@.take(j + 1).drop_last() =~= entries@.take(j));
            assert(entries@.take(j + 1).last() == entries@[j]);
        }
        i = i + 1;
    }
    proof {
        assert(entries@.take(entries@.len() as int) =~= entries@);
    }
    s
}

/// The ping line, with the section header tied to it.
pub open spec fn spec_ping_text(o: Option<u32>) -> Seq<char> {
    match o {
        Some(p) => "=> Network:\nInternet Ping: "@ + spec_decimal(p as nat) + " ms\n"@,
        None => Seq::<char>::empty(),
    }
}

/// The public-address line.
pub open spec fn spec_ip_text(o: Option<String>) -> Seq<char> {
    match o {
        Some(ip) => "Public IP: "@ + ip@ + "\n"@,
        None => Seq::<char>::empty(),
    }
}

/// The download-speed line.
pub open spec fn spec_download_text(o: Option<u64>) -> Seq<char> {
    match o {
        Some(d) => "Download speed: "@ + spec_centi(d as nat) + " Mbps (minimum)\n"@,
        None => Seq::<char>::empty(),
    }
}

/// The upload-speed line.
pub open spec fn spec_upload_text(o: Option<u64>) -> Seq<char> {
    match o {
        Some(u) => "Upload speed: "@ + spec_centi(u as nat) + " Mbps (minimum)\n"@,
        None => Seq::<char>::empty(),
    }
}

/// The network section: one line per probe that produced a value, with the
/// header tied to the ping line.
pub open spec fn spec_network_info(n: NetworkFacts) -> Seq<char> {
    spec_ping_text(n.ping_ms) + spec_ip_text(n.public_ip) + spec_download_text(
        n.download_centi_mbps,
    ) + spec_upload_text(n.upload_centi_mbps)
}

fn push_ping(s: &mut String, o: Option<u32>)
    ensures
        final(s)@ == old(s)@ + spec_ping_text(o),
{
    match o {
        Some(p) => {
            s.append("=> Network:\nInternet Ping: ");
            push_decimal(s, p as u128);
            s.append(" ms\n");
            proof {
                assert(final(s)@ =~= old(s)@ + spec_ping_text(o));
            }
        },
        None => {
            proof {
                assert(final(s)@ =~= old(s)@ + spec_ping_text(o));
            }
        },
    }
}

fn push_ip(s: &mut String, o: &Option<String>)
    ensures
        final(s)@ == old(s)@ + spec_ip_text(*o),
{
    match o {
        Some(ip) => {
            s.append("Public IP: ");
            s.append(ip.as_str());
            s.append("\n");
            proof {
                assert(final(s)@ =~= old(s)@ + spec_ip_text(*o));
            }
        },
        None => {
            proof {
                assert(final(s)@ =~= old(s)@ + spec_ip_text(*o));
            }
        },
    }
}

fn push_download(s: &mut String, o: Option<u64>)
    ensures
        final(s)@ == old(s)@ + spec_download_text(o),
{
    match o {
        Some(d) => {
            s.append("Download speed: ");
            push_centi(s, d as u128);
            s.append(" Mbps (minimum)\n");
            proof {
                assert(final(s)@ =~= old(s)@ + spec_download_text(o));
            }
        },
        None => {
            proof {
                assert(final(s)@ =~= old(s)@ + spec_download_text(o));
            }
        },
    }
}

fn push_upload(s: &mut String, o: Option<u64>)
    ensures
        final(s)@ == old(s)@ + spec_upload_text(o),
{
    match o {
        Some(u) => {
            s.append("Upload speed: ");
            push_centi(s, u as u128);
            s.append(" Mbps (minimum)\n");
            proof {
                assert(final(s)@ =~= old(s)@ + spec_upload_text(o));
            }
        },
        None => {
            proof {
                assert(final(s)@ =~= old(s)@ + spec_upload_text(o));
            }
        },
    }
}

fn push_network_info(s: &mut String, n: &NetworkFacts)
    ensures
        final(s)@ == old(s)@ + spec_network_info(*n),
{
    push_ping(s, n.ping_ms);
    push_ip(s, &n.public_ip);
    push_download(s, n.download_centi_mbps);
    push_upload(s, n.upload_centi_mbps);
    proof {
        assert(final(s)@ =~= old(s)@ + spec_network_info(*n));
    }
}

/// The GPU section's text: the unified device's block when the section holds
/// the single implicit device, the indexed devices' blocks otherwise.
pub open spec fn spec_gpu_section_text(v: Seq<GpuEntry>) -> Seq<char> {
    if v.len() > 0 && v[0].facts.device == Device::UnifiedGpu {
        spec_mps_gpu_info(v[0].sample)
    } else {
        spec_cuda_gpus_info(v)
    }
}

/// The whole plain rendering of a report: absent sections contribute
/// nothing, and present ones appear in the fixed order general, memory,
/// cpu, gpu, battery, network.
pub open spec fn spec_plain_output(r: Report) -> Seq<char> {
    (match r.cpu {
        Some(sec) => spec_general_info(sec.facts) + spec_memory_info(sec.facts) + spec_cpu_info(
            sec.facts,
            sec.sample,
        ),
        None => Seq::<char>::empty(),
    }) + (match r.gpu {
        Some(v) => spec_gpu_section_text(v@),
        None => Seq::<char>::empty(),
    }) + (match r.battery {
        Some(b) => spec_battery_info(b),
        None => Seq::<char>::empty(),
    }) + (match r.network {
        Some(n) => spec_network_info(n),
        None => Seq::<char>::empty(),
    })
}

/// Renders a whole report as plain text.
pub fn generate_plain_output(report: &Report) -> (r: String)
    ensures
        r@ == spec_plain_output(*report),
{
    let mut s = String::new();
    match &report.cpu {
        Some(sec) => {
            let part = format_general_info(&sec.facts);
            s.append(part.as_str());
            let part = format_memory_info(&sec.facts);
            s.append(part.as_str());
            let part = format_cpu_info(&sec.facts, &sec.sample);
            s.append(part.as_str());
        },
        None => {},
    }
    match &report.gpu {
        Some(v) => {
            if v.len() > 0 && v[0].facts.device == Device::UnifiedGpu {
                let part = format_mps_gpu_info(&v[0].sample);
                s.append(part.as_str());
            } else {
                let part = format_cuda_gpus_info(v);
                s.append(part.as_str());
            }
        },
        None => {},
    }
    match &report.battery {
        Some(b) => {
            let part = format_battery_info(b);
            s.append(part.as_str());
        },
        None => {},
    }
    match &report.network {
        Some(n) => push_network_info(&mut s, n),
        None => {},
    }
    proof {
        assert(s@ =~= spec_plain_output(*report));
    }
    s
}

} // verus!
