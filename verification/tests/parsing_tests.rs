//! Text parsing: diagnostic-tool output, times and versions.

use wattmon::gpu::{
    estimate_cpu_tdp, parse_dpm_clock, parse_nvidia_csv_metrics, parse_nvidia_csv_power, GpuSource,
};
use wattmon::parse::{extract_power_from_line, parse_milli, parse_u64, split_bytes, trim_bytes};
use wattmon::pricing::parse_time;
use wattmon::version::version_is_newer;

#[test]
fn test_cpu_tdp_estimation() {
    assert_eq!(estimate_cpu_tdp(2), 35_000);
    assert_eq!(estimate_cpu_tdp(4), 65_000);
    assert_eq!(estimate_cpu_tdp(8), 105_000);
    assert_eq!(estimate_cpu_tdp(16), 150_000);
    assert_eq!(estimate_cpu_tdp(32), 200_000);
}

#[test]
fn test_power_line_extraction() {
    assert_eq!(
        extract_power_from_line("Average Graphics Package Power (W): 45.5"),
        Some(45_500)
    );
    assert_eq!(extract_power_from_line("Power: 100W"), Some(100_000));
}

#[test]
fn test_power_line_with_tabs() {
    // Tabs and line ends separate words just as spaces do.
    assert_eq!(extract_power_from_line("Power:\t100W"), Some(100_000));
    assert_eq!(extract_power_from_line("label\t45.5\tW"), Some(45_500));
}

#[test]
fn test_power_line_without_number() {
    assert_eq!(extract_power_from_line("no power here"), None);
    assert_eq!(extract_power_from_line(""), None);
}

#[test]
fn test_gpu_source_display() {
    assert_eq!(format!("{:?}", GpuSource::Nvidia), "Nvidia");
    assert_eq!(format!("{:?}", GpuSource::Amd), "Amd");
    assert_eq!(format!("{:?}", GpuSource::NoGpu), "NoGpu");
}

#[test]
fn test_parse_u64_values() {
    assert_eq!(parse_u64(b"0"), Some(0));
    assert_eq!(parse_u64(b"18446744073709551615"), Some(u64::MAX));
    assert_eq!(parse_u64(b"18446744073709551616"), None);
    assert_eq!(parse_u64(b""), None);
    assert_eq!(parse_u64(b"12a"), None);
}

#[test]
fn test_parse_milli_values() {
    assert_eq!(parse_milli(b"45"), Some(45_000));
    assert_eq!(parse_milli(b"45.5"), Some(45_500));
    assert_eq!(parse_milli(b"45.527"), Some(45_527));
    assert_eq!(parse_milli(b"45.5279"), Some(45_527));
    assert_eq!(parse_milli(b".5"), Some(500));
    assert_eq!(parse_milli(b"45."), Some(45_000));
    assert_eq!(parse_milli(b"1.2.3"), None);
    assert_eq!(parse_milli(b""), None);
    assert_eq!(parse_milli(b"x5"), None);
}

#[test]
fn test_split_and_trim() {
    let parts = split_bytes(b"a,b,,c", b',');
    assert_eq!(parts.len(), 4);
    assert_eq!(parts[0], b"a");
    assert_eq!(parts[2], b"");
    assert_eq!(trim_bytes(b"  hi \t"), b"hi");
    assert_eq!(trim_bytes(b""), b"");
}

#[test]
fn test_nvidia_power_csv() {
    let r = parse_nvidia_csv_power("45.5, NVIDIA GeForce RTX 3080").unwrap();
    assert_eq!(r.0, 45_500);
    assert_eq!(r.1, "NVIDIA GeForce RTX 3080");
    assert!(parse_nvidia_csv_power("no commas here").is_none());
}

#[test]
fn test_nvidia_metrics_csv() {
    let line = "NVIDIA GeForce RTX 3080, 45, 120.5, 67, 4096, 10240, 1800, 9500, 55";
    let m = parse_nvidia_csv_metrics(line).unwrap();
    assert_eq!(m.name, "NVIDIA GeForce RTX 3080");
    assert_eq!(m.usage_pm, Some(450));
    assert_eq!(m.power_mw, Some(120_500));
    assert_eq!(m.temperature_mc, Some(67_000));
    assert_eq!(m.vram_used_mb, Some(4096));
    assert_eq!(m.vram_total_mb, Some(10_240));
    assert_eq!(m.clock_mhz, Some(1800));
    assert_eq!(m.memory_clock_mhz, Some(9500));
    assert_eq!(m.fan_speed_percent, Some(55));
    assert_eq!(m.source, "nvidia-smi");
}

#[test]
fn test_nvidia_metrics_csv_not_available_fields() {
    // Laptops without fans report "[N/A]"; those fields parse to nothing.
    let line = "NVIDIA T600, 3, 12.1, 41, 512, 4096, 900, [N/A], [N/A]";
    let m = parse_nvidia_csv_metrics(line).unwrap();
    assert_eq!(m.memory_clock_mhz, None);
    assert_eq!(m.fan_speed_percent, None);
    assert!(parse_nvidia_csv_metrics("too, few, fields").is_none());
}

#[test]
fn test_dpm_clock_parsing() {
    let table = "0: 500Mhz\n1: 1800Mhz *\n2: 2100Mhz";
    assert_eq!(parse_dpm_clock(table), Some(1800));
    assert_eq!(parse_dpm_clock("0: 500Mhz\n1: 800Mhz"), None);
    assert_eq!(parse_dpm_clock(""), None);
}

#[test]
fn test_parse_time_values() {
    assert_eq!(parse_time("22:00"), 1320);
    assert_eq!(parse_time("06:30"), 390);
    assert_eq!(parse_time("bad"), 0);
    assert_eq!(parse_time("1:2:3"), 0);
}

#[test]
fn test_version_is_newer() {
    assert!(version_is_newer("1.2.3", "1.2.4"));
    assert!(version_is_newer("v1.2.3", "v2.0.0"));
    assert!(!version_is_newer("1.2.3", "1.2.3"));
    assert!(!version_is_newer("2.0.0", "1.9.9"));
    assert!(version_is_newer("1.9", "1.10.0"));
}
