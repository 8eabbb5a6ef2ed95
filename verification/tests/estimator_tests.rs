//! TDP profiles, CPU categorization and the estimation backend.

use wattmon::monitor::{PowerBackend, PowerMonitor, TickInput};
use wattmon::tdp::{get_tdp_profile, CpuCategory, CpuSpecs, EstimationMonitor};

#[test]
fn test_tdp_profiles() {
    let profile = get_tdp_profile(CpuCategory::IntelDesktopI7);
    assert!(profile.tdp_mw > 0);
    assert!(profile.idle_ratio_pm > 0 && profile.idle_ratio_pm < 1000);
    assert!(profile.max_power_ratio_pm >= 1000);
    assert!(profile.idle_power() < profile.tdp_mw);
    assert!(profile.max_power() >= profile.tdp_mw);
}

#[test]
fn test_cpu_categorization() {
    // Intel laptop part.
    let (cat, _is_laptop) = CpuSpecs::categorize_cpu("Intel Core i7-1165G7 @ 2.80GHz", 4);
    assert!(matches!(
        cat,
        CpuCategory::IntelDesktopI7 | CpuCategory::IntelLaptopU | CpuCategory::IntelLaptopP
    ));

    // Intel desktop.
    let (cat, is_laptop) = CpuSpecs::categorize_cpu("Intel Core i9-13900K", 24);
    assert_eq!(cat, CpuCategory::IntelDesktopI9);
    assert!(!is_laptop);

    // AMD desktop.
    let (cat, is_laptop) = CpuSpecs::categorize_cpu("AMD Ryzen 7 5800X", 8);
    assert_eq!(cat, CpuCategory::AmdDesktopRyzen7);
    assert!(!is_laptop);

    // AMD laptop.
    let (cat, is_laptop) = CpuSpecs::categorize_cpu("AMD Ryzen 7 6800H", 8);
    assert_eq!(cat, CpuCategory::AmdLaptopH);
    assert!(is_laptop);
}

#[test]
fn test_estimation_monitor_creation() {
    let specs = CpuSpecs::from_brand("Intel Core i7-9700K", 8);
    let monitor = EstimationMonitor::new(specs);
    assert!(monitor.get_detected_tdp() > 0);
    assert!(!monitor.get_cpu_name().is_empty());
    assert!(monitor.get_core_count() > 0);
}

#[test]
fn test_power_calculation() {
    let specs = CpuSpecs::from_brand("Intel Core i7-9700K", 8);
    let monitor = EstimationMonitor::new(specs);
    let loads = vec![250u64, 500, 0, 1000, 130, 70, 990, 40];
    let power = monitor.calculate_estimated_power(&loads);

    let idle = monitor.get_idle_power();
    let max = monitor.get_max_power();

    assert!(power >= idle, "Power {} should be >= idle {}", power, idle);
    assert!(power <= max, "Power {} should be <= max {}", power, max);
}

#[test]
fn test_custom_power_values() {
    let specs = CpuSpecs::from_brand("Unknown CPU", 4);
    let monitor = EstimationMonitor::with_power_values(specs, 10_000, 100_000);
    assert_eq!(monitor.get_idle_power(), 10_000);
    assert_eq!(monitor.get_max_power(), 110_000);
}

#[test]
fn test_power_source_trait() {
    let specs = CpuSpecs::from_brand("Intel Core i5-8400", 6);
    let estimator = EstimationMonitor::new(specs);
    assert!(estimator.is_estimated());
    assert!(!estimator.name().is_empty());

    let mut monitor = PowerMonitor::estimation_fallback(estimator);
    let input = TickInput {
        now_ms: 1000,
        raw_register: 0,
        cpu_loads_pm: vec![100, 200, 300, 150, 50, 900],
        avg_cpu_pm: 283,
    };
    let reading = monitor.get_reading(&input, 1_700_000_000);
    assert!(reading.power_mw > 0);
    assert!(reading.is_estimated);
    assert_eq!(reading.source, "estimated");
    let components = reading.components.unwrap();
    assert_eq!(components[0].0, "cpu");
    assert_eq!(components[1].0, "other");
    assert_eq!(components[0].1 + components[1].1, reading.power_mw);
}

#[test]
fn test_estimation_scenario_bounds() {
    // A profile of 65 W with a 12% idle ratio and a 1.4 burst ratio has a
    // 7.8 W idle floor and a 91 W ceiling.
    let specs = CpuSpecs::from_brand("AMD Ryzen 5 3600", 12);
    let monitor = EstimationMonitor::new(specs);
    assert_eq!(monitor.get_detected_tdp(), 65_000);
    assert_eq!(monitor.get_idle_power(), 7_800);
    assert_eq!(monitor.get_max_power(), 91_000);

    // All cores idle: the idle floor.
    let idle_loads = vec![0u64; 12];
    assert_eq!(monitor.calculate_estimated_power(&idle_loads), 7_800);

    // All cores saturated: the ceiling.
    let full_loads = vec![1000u64; 12];
    assert_eq!(monitor.calculate_estimated_power(&full_loads), 91_000);
}

#[test]
fn test_estimation_empty_loads() {
    let specs = CpuSpecs::from_brand("AMD Ryzen 5 3600", 12);
    let monitor = EstimationMonitor::new(specs);
    let no_loads: Vec<u64> = Vec::new();
    assert_eq!(monitor.calculate_estimated_power(&no_loads), monitor.get_idle_power());
}

#[test]
fn test_generic_fallback_by_core_count() {
    let (cat, is_laptop) = CpuSpecs::categorize_cpu("Some Other Processor", 4);
    assert_eq!(cat, CpuCategory::GenericLaptop);
    assert!(is_laptop);
    let (cat, is_laptop) = CpuSpecs::categorize_cpu("Some Other Processor", 12);
    assert_eq!(cat, CpuCategory::GenericDesktop);
    assert!(!is_laptop);
}

#[test]
fn test_component_breakdown_sums_to_total() {
    let specs = CpuSpecs::from_brand("Intel Core i5-8400", 6);
    let monitor = EstimationMonitor::new(specs);
    let components = monitor.get_component_breakdown(50_000);
    assert_eq!(components.len(), 2);
    assert_eq!(components[0].0, "cpu");
    assert_eq!(components[1].0, "other");
    assert_eq!(components[0].1 + components[1].1, 50_000);
}

#[test]
fn test_estimation_backend_never_fails() {
    let specs = CpuSpecs::from_brand("AMD Ryzen 9 5950X", 16);
    let estimator = EstimationMonitor::new(specs);
    let mut monitor = PowerMonitor::new(PowerBackend::Estimation(estimator));
    assert!(monitor.is_estimated());
    assert_eq!(monitor.get_source_name(), "TDP Estimation (auto-detected)");
    let input = TickInput {
        now_ms: 5,
        raw_register: 0,
        cpu_loads_pm: vec![0; 16],
        avg_cpu_pm: 0,
    };
    let p = monitor.get_power_watts(&input);
    assert!(p > 0);
}
