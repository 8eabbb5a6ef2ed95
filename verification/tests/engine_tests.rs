//! Cache, counter, composite monitor, pricing, sessions and processes.

use std::collections::HashMap;
use wattmon::baseline::BaselineDetector;
use wattmon::cache::CachedValue;
use wattmon::config::DashboardConfig;
use wattmon::elevation::{is_elevated, relaunch_elevated};
use wattmon::error::{classify_probe, Error, SensorProbe};
use wattmon::gpu::{GpuInfo, GpuSource};
use wattmon::i18n::I18n;
use wattmon::gpu::build_amd_gpu_metrics;
use wattmon::monitor::{
    build_memory_metrics, select_backend_kind, BackendChoice, PowerBackend, PowerMonitor,
    TickInput, WmiMonitor,
};
use wattmon::nvml_gpu::{init_nvml, merge_gpu_process_signals};
use wattmon::pricing::{
    LocalTime, PeakOffpeakPricing, PricingConfig, PricingEngine, SeasonalPricing, SimplePricing,
    TempoPricing,
};
use wattmon::processes::{
    aggregate_process_rows, all_processes_sorted, top_processes_with_pinned, ProcessRow,
};
use wattmon::session::{critical_tick, ActiveSession, AppState};
use wattmon::sources::{counter_delta, InnerPowerSource, RaplMonitor};
use wattmon::types::ProcessMetrics;

fn simple_config(rate_micro: u64) -> PricingConfig {
    PricingConfig {
        mode: "simple".to_string(),
        currency: "EUR".to_string(),
        currency_symbol: "\u{20AC}".to_string(),
        simple: SimplePricing { rate_micro_per_kwh: rate_micro },
        peak_offpeak: PeakOffpeakPricing {
            peak_rate_micro: 270_000,
            offpeak_rate_micro: 200_000,
            offpeak_start: "22:00".to_string(),
            offpeak_end: "06:00".to_string(),
        },
        seasonal: SeasonalPricing {
            summer_rate_micro: 200_000,
            winter_rate_micro: 250_000,
            winter_months: vec![11, 12, 1, 2, 3],
        },
        tempo: TempoPricing {
            blue_peak_micro: 160_000,
            blue_offpeak_micro: 130_000,
            white_peak_micro: 190_000,
            white_offpeak_micro: 150_000,
            red_peak_micro: 760_000,
            red_offpeak_micro: 160_000,
        },
    }
}

fn noon_tuesday_june() -> LocalTime {
    LocalTime { minutes_of_day: 720, month: 6, weekday: 1 }
}

#[test]
fn test_counter_wraparound() {
    // A counter with max 1000 that went from 980 past the rollover to 20
    // consumed (1000 - 980) + 20 = 40.
    assert_eq!(counter_delta(980, 20, 1000), 40);
    assert_eq!(counter_delta(20, 980, 1000), 960);
}

#[test]
fn test_rapl_windowed_power() {
    // 10 J consumed over 2 s is 5 W.
    let mut rapl = RaplMonitor::new(u64::MAX, 1_000_000, 0);
    let power_mw = rapl.advance(11_000_000, 2000);
    assert_eq!(power_mw, 5_000);
    // A second read in the same millisecond yields zero, not a division blowup.
    assert_eq!(rapl.advance(11_000_000, 2000), 0);
}

#[test]
fn test_register_sources() {
    let mut hwmon = InnerPowerSource::Hwmon(wattmon::sources::HwmonMonitor { sensor_index: 1 });
    assert_eq!(hwmon.read_power_mw(65_000_000, 0), 65_000);
    assert_eq!(hwmon.name(), "Linux hwmon");
    assert_eq!(hwmon.source_tag(), "hwmon");
    let mut battery = InnerPowerSource::Battery(wattmon::sources::BatteryMonitor {
        battery_index: 0,
    });
    assert_eq!(battery.read_power_mw(12_345_678, 0), 12_345);
    assert_eq!(battery.source_tag(), "battery");
}

#[test]
fn test_cache_ttl() {
    // Fetched at t=0 with a 500 ms TTL: a hit at 400 ms, a miss at 600 ms.
    let entry = CachedValue::new(42u64, 0);
    assert_eq!(entry.get_copied(400, 500), Some(42));
    assert_eq!(entry.get_copied(600, 500), None);
}

#[test]
fn test_fast_path_with_empty_cache() {
    // With the GPU caches empty the fast path answers immediately from the
    // CPU term alone and reports no GPU data.
    let monitor = WmiMonitor::new(GpuSource::NoGpu, None, 65_000, false);
    let (total, cpu, gpu_usage, gpu_power) = monitor.get_power_watts_fast_impl(1_000, 500);
    assert_eq!(cpu, 500);
    assert_eq!(gpu_usage, None);
    assert_eq!(gpu_power, None);
    // 65 W TDP at 50% load: 9.75 W idle + 0.5 * 55.25 W active + 30 W base.
    assert_eq!(total, 9_750 + 27_625 + 30_000);
}

#[test]
fn test_fast_path_with_expired_cache() {
    let mut monitor = WmiMonitor::new(GpuSource::Nvidia, None, 65_000, true);
    monitor.store_gpu_power(
        0,
        Some(GpuInfo { power_mw: 100_000, name: "GPU".to_string() }),
    );
    // Fresh within the 10 s fast-path tolerance.
    let (_, _, _, gpu_power) = monitor.get_power_watts_fast_impl(9_999, 0);
    assert_eq!(gpu_power, Some(100_000));
    // Expired beyond it.
    let (total, _, _, gpu_power) = monitor.get_power_watts_fast_impl(10_001, 0);
    assert_eq!(gpu_power, None);
    assert_eq!(total, 9_750 + 10_000);
}

#[test]
fn test_simple_pricing() {
    let engine = PricingEngine::new(simple_config(200_000));
    let t = noon_tuesday_june();
    assert_eq!(engine.get_current_rate(t), 200_000);
    // 1 kWh = 1_000_000 mWh at 0.20 units.
    assert_eq!(engine.calculate_cost(1_000_000, t), 200_000);
    assert_eq!(engine.calculate_cost(10_000_000, t), 2_000_000);
}

#[test]
fn test_hourly_cost() {
    let engine = PricingEngine::new(simple_config(200_000));
    let t = noon_tuesday_june();
    // 100 W for one hour is 0.1 kWh: 0.02 units.
    assert_eq!(engine.calculate_hourly_cost(100_000, t), 20_000);
    assert_eq!(engine.calculate_daily_cost(100_000, t), 480_000);
    assert_eq!(engine.calculate_monthly_cost(100_000, t), 14_400_000);
}

#[test]
fn test_peak_offpeak_pricing() {
    let mut cfg = simple_config(200_000);
    cfg.mode = "peak_offpeak".to_string();
    let engine = PricingEngine::new(cfg);
    // 23:00 is inside the overnight window, noon is not.
    let night = LocalTime { minutes_of_day: 1380, month: 6, weekday: 1 };
    assert_eq!(engine.get_current_rate(night), 200_000);
    assert_eq!(engine.get_current_rate(noon_tuesday_june()), 270_000);
}

#[test]
fn test_seasonal_and_tempo_pricing() {
    let mut cfg = simple_config(200_000);
    cfg.mode = "seasonal".to_string();
    let engine = PricingEngine::new(cfg);
    let january = LocalTime { minutes_of_day: 720, month: 1, weekday: 1 };
    assert_eq!(engine.get_current_rate(january), 250_000);
    assert_eq!(engine.get_current_rate(noon_tuesday_june()), 200_000);

    let mut cfg = simple_config(200_000);
    cfg.mode = "tempo".to_string();
    let engine = PricingEngine::new(cfg);
    // A winter weekday at noon reads white-peak; a June day reads blue-peak.
    assert_eq!(engine.get_current_rate(january), 190_000);
    assert_eq!(engine.get_current_rate(noon_tuesday_june()), 160_000);
    assert!(engine.is_configured());
    assert_eq!(engine.get_currency_symbol(), "\u{20AC}");
}

#[test]
fn test_critical_tick_accounting() {
    let mut state = AppState::new(0);
    let mut active = Some(ActiveSession {
        id: 7,
        start_ms: 0,
        baseline_mw: 50_000,
        total_mwms: 0,
        surplus_mwms: 0,
        label: Some("build".to_string()),
        category: None,
    });
    let mut detector = BaselineDetector::new();
    let engine = PricingEngine::new(simple_config(200_000));
    let t = noon_tuesday_june();

    // One hour at 150 W in a single tick.
    let m = critical_tick(
        &mut state,
        &mut active,
        &mut detector,
        &engine,
        3_600_000,
        1_700_000_000,
        t,
        150_000,
        400,
        Some(120),
        Some(30_000),
        "rapl",
        false,
    );
    assert_eq!(m.power_mw, 150_000);
    assert_eq!(m.cumulative_mwh, 150_000);
    // 0.15 kWh at 0.20 units: 0.03 units.
    assert_eq!(m.current_cost_micro, 30_000);
    assert_eq!(m.session_duration_secs, 3600);
    assert_eq!(m.avg_power_mw, 150_000);
    assert_eq!(m.hourly_cost_micro, 30_000);
    let session = m.active_session.unwrap();
    assert_eq!(session.total_mwh, 150_000);
    // 100 W above the 50 W baseline for an hour: 100 Wh of surplus.
    assert_eq!(session.surplus_mwh, 100_000);
    assert_eq!(session.surplus_cost_micro, 20_000);
    assert_eq!(detector.sample_count(), 1);
    assert_eq!(m.source, "rapl");
    assert!(!m.is_estimated);
}

#[test]
fn test_merge_gpu_process_signals() {
    // Presence signals from the process lists, overridden by real samples,
    // maximum per pid.
    let compute = vec![(100u32, Some(1_000_000u64)), (200, None)];
    let graphics = vec![(100u32, Some(2_000_000u64)), (300, Some(1u64))];
    let samples = vec![(100u32, 45u32), (400, 10), (300, 0)];
    let m = merge_gpu_process_signals(&compute, &graphics, &samples);
    assert_eq!(m.get(&100), Some(&450));
    assert_eq!(m.get(&200), Some(&0));
    assert_eq!(m.get(&300), Some(&1));
    assert_eq!(m.get(&400), Some(&100));
}

#[test]
fn test_aggregate_and_top_processes() {
    let rows = vec![
        ProcessRow { pid: 1, name: "game".to_string(), cpu_pm: 600, memory_bytes: 4000 },
        ProcessRow { pid: 2, name: "Game".to_string(), cpu_pm: 500, memory_bytes: 2000 },
        ProcessRow { pid: 3, name: "editor".to_string(), cpu_pm: 100, memory_bytes: 1000 },
        ProcessRow { pid: 4, name: "agent".to_string(), cpu_pm: 10, memory_bytes: 500 },
    ];
    let mut gpu: HashMap<u32, u64> = HashMap::new();
    gpu.insert(1, 300);
    let pinned = vec!["agent".to_string()];
    let agg = aggregate_process_rows(&rows, 10_000, &gpu, &pinned);
    assert_eq!(agg.len(), 3);

    let top = top_processes_with_pinned(agg, 2);
    // The pinned process leads even with the lowest score; one slot remains
    // for the top other.
    assert_eq!(top.len(), 2);
    assert!(top[0].is_pinned);
    assert_eq!(top[0].name, "agent");
    assert_eq!(top[1].name, "game");
    // Same-named processes were summed and clamped.
    assert_eq!(top[1].cpu_pm, 1000);
    assert_eq!(top[1].memory_bytes, 6000);
    assert_eq!(top[1].gpu_pm, Some(300));
}

#[test]
fn test_all_processes_sorted() {
    let rows = vec![
        ProcessRow { pid: 1, name: "a".to_string(), cpu_pm: 100, memory_bytes: 0 },
        ProcessRow { pid: 2, name: "b".to_string(), cpu_pm: 900, memory_bytes: 0 },
        ProcessRow { pid: 3, name: "c".to_string(), cpu_pm: 500, memory_bytes: 0 },
    ];
    let gpu: HashMap<u32, u64> = HashMap::new();
    let agg = aggregate_process_rows(&rows, 1, &gpu, &Vec::new());
    let all = all_processes_sorted(agg);
    assert_eq!(all.len(), 3);
    assert_eq!(all[0].name, "b");
    assert_eq!(all[1].name, "c");
    assert_eq!(all[2].name, "a");
}

#[test]
fn test_memory_metrics_ratios() {
    let m = build_memory_metrics(4_000, 16_000, 1_000, 8_000, Some(3200), None);
    assert_eq!(m.usage_pm, 250);
    assert_eq!(m.swap_usage_pm, Some(125));
    assert_eq!(m.memory_speed_mhz, Some(3200));
    let m = build_memory_metrics(4_000, 16_000, 0, 0, None, None);
    assert_eq!(m.swap_usage_pm, None);
}

#[test]
fn test_monitor_facade_registers() {
    let rapl = RaplMonitor::new(1000, 980, 0);
    let mut monitor = PowerMonitor::new(PowerBackend::Registers(InnerPowerSource::Rapl(rapl)));
    assert!(!monitor.is_estimated());
    assert_eq!(monitor.get_source_name(), "Intel RAPL");
    let input = TickInput {
        now_ms: 10,
        raw_register: 20,
        cpu_loads_pm: Vec::new(),
        avg_cpu_pm: 0,
    };
    // The wrapped delta of 40 uJ over 10 ms is 4 mW.
    assert_eq!(monitor.get_power_watts(&input), 4);
}

#[test]
fn test_nvml_absent_is_harmless() {
    // Without the vendor runtime the bridge simply yields nothing.
    if let Some(state) = init_nvml() {
        let _ = wattmon::nvml_gpu::query_gpu_power(&state);
    }
}

#[test]
fn test_full_translation_tables() {
    // The full tables ship: every entry, in order.
    assert_eq!(wattmon::i18n::en::translation_pairs().len(), 213);
    assert_eq!(wattmon::i18n::fr::translation_pairs().len(), 242);
}

#[test]
fn test_i18n_lookup() {
    let i18n = I18n::new("en");
    assert_eq!(i18n.get("nav.dashboard"), "Dashboard");
    assert_eq!(i18n.get("no.such.key"), "no.such.key");
    assert_eq!(i18n.current_language(), "en");
    let mut i18n = i18n;
    i18n.set_language("fr");
    assert_eq!(i18n.get("nav.dashboard"), "Tableau de bord");
    assert_eq!(I18n::available_languages().len(), 2);
    assert!(!i18n.get_all().is_empty());
}

#[test]
fn test_probe_classification() {
    assert_eq!(classify_probe(SensorProbe::Reading(42), "rapl").unwrap(), 42);
    match classify_probe(SensorProbe::Missing, "rapl").unwrap_err() {
        Error::HardwareNotSupported(m) => assert_eq!(m, "rapl"),
        e => panic!("wrong kind: {:?}", e),
    }
    match classify_probe(SensorProbe::Unreadable, "rapl").unwrap_err() {
        Error::PermissionDenied(m) => assert_eq!(m, "rapl"),
        e => panic!("wrong kind: {:?}", e),
    }
    match classify_probe(SensorProbe::Unparsable, "rapl").unwrap_err() {
        Error::PowerMonitor(m) => assert_eq!(m, "rapl"),
        e => panic!("wrong kind: {:?}", e),
    }
    let e = classify_probe(SensorProbe::Missing, "battery").unwrap_err();
    assert_eq!(e.message(), "battery");
}

#[test]
fn test_cost_saturates() {
    // A cost beyond the 64-bit range saturates instead of overflowing: a
    // maximal energy at a maximal rate.
    let engine = PricingEngine::new(simple_config(1_000_000_000_000));
    let t = noon_tuesday_june();
    assert_eq!(engine.calculate_cost(u64::MAX, t), u64::MAX);
    // Small amounts stay exact.
    assert_eq!(engine.calculate_cost(1_000_000, t), 1_000_000_000_000);
}

#[test]
fn test_composite_reading_metadata() {
    let monitor = WmiMonitor::new(GpuSource::NoGpu, None, 65_000, false);
    let reading = monitor.build_reading(1_700_000_000, 0, None);
    assert_eq!(reading.source, "sysinfo");
    assert!(reading.is_estimated);
    let components = reading.components.unwrap();
    assert_eq!(components.len(), 2);
    assert_eq!(components[0].0, "cpu");
    assert_eq!(components[1].0, "base");

    let monitor = WmiMonitor::new(GpuSource::Amd, None, 65_000, false);
    let gpu = GpuInfo { power_mw: 80_000, name: "AMD GPU".to_string() };
    let reading = monitor.build_reading(1_700_000_000, 1000, Some(&gpu));
    assert_eq!(reading.source, "sysinfo+amd");
    assert!(!reading.is_estimated);
    let components = reading.components.unwrap();
    assert_eq!(components.len(), 3);
    assert_eq!(components[1].0, "gpu");
    assert_eq!(components[1].1, 80_000);
}

#[test]
fn test_facade_store_reaches_cache() {
    // What the slow path stores through the facade is what the fast path and
    // the readings see.
    let composite = WmiMonitor::new(GpuSource::Nvidia, None, 65_000, false);
    let mut monitor = PowerMonitor::new(PowerBackend::Composite(composite));
    monitor.store_gpu_power(
        100,
        Some(GpuInfo { power_mw: 55_000, name: "GPU".to_string() }),
    );
    let input = TickInput {
        now_ms: 200,
        raw_register: 0,
        cpu_loads_pm: Vec::new(),
        avg_cpu_pm: 0,
    };
    let (total, _, _, gpu_power) = monitor.get_power_watts_fast(&input);
    assert_eq!(gpu_power, Some(55_000));
    assert_eq!(total, 9_750 + 30_000 + 55_000);
    // The full reading sees it too and is no estimate.
    let reading = monitor.get_reading(&input, 0);
    assert_eq!(reading.source, "sysinfo+nvidia");
    assert!(!reading.is_estimated);
    assert_eq!(reading.power_mw, 9_750 + 30_000 + 55_000);
}

#[test]
fn test_backend_chain_order() {
    // Descending accuracy: counter, sensor, battery, composite, estimator.
    assert_eq!(
        select_backend_kind(
            SensorProbe::Reading(5),
            SensorProbe::Reading(5),
            SensorProbe::Reading(5),
            GpuSource::NvmlNvidia,
        ),
        BackendChoice::UseRapl
    );
    assert_eq!(
        select_backend_kind(
            SensorProbe::Unreadable,
            SensorProbe::Reading(5),
            SensorProbe::Missing,
            GpuSource::NoGpu,
        ),
        BackendChoice::UseHwmon
    );
    assert_eq!(
        select_backend_kind(
            SensorProbe::Missing,
            SensorProbe::Missing,
            SensorProbe::Reading(5),
            GpuSource::Amd,
        ),
        BackendChoice::UseBattery
    );
    assert_eq!(
        select_backend_kind(
            SensorProbe::Missing,
            SensorProbe::Missing,
            SensorProbe::Missing,
            GpuSource::Amd,
        ),
        BackendChoice::UseComposite
    );
    assert_eq!(
        select_backend_kind(
            SensorProbe::Missing,
            SensorProbe::Unreadable,
            SensorProbe::Missing,
            GpuSource::NoGpu,
        ),
        BackendChoice::UseEstimation
    );
}

#[test]
fn test_amd_metrics_builder() {
    let m = build_amd_gpu_metrics(
        "AMD GPU".to_string(),
        Some(42),
        Some(89_000_000),
        Some(63_000),
        Some(1200),
        Some(2_147_483_648),
        Some(8_589_934_592),
        Some(1800),
        Some(1000),
    );
    assert_eq!(m.usage_pm, Some(420));
    assert_eq!(m.power_mw, Some(89_000));
    assert_eq!(m.temperature_mc, Some(63_000));
    assert_eq!(m.vram_used_mb, Some(2048));
    assert_eq!(m.vram_total_mb, Some(8192));
    assert_eq!(m.clock_mhz, Some(1800));
    assert_eq!(m.memory_clock_mhz, Some(1000));
    // An rpm-only fan sensor marks presence without a percentage.
    assert_eq!(m.fan_speed_percent, Some(0));
    assert_eq!(m.source, "amdgpu-sysfs");
}

#[test]
fn test_elevation_stubs() {
    assert!(!is_elevated());
    assert!(!relaunch_elevated());
}

#[test]
fn test_dashboard_merge() {
    let mut cfg = DashboardConfig::new_default();
    let before = cfg.widgets.len();
    cfg.widgets.remove(0);
    cfg.merge_missing_widgets();
    assert_eq!(cfg.widgets.len(), before);
    assert!(cfg.has_widget(&"cpu".to_string()));
}
