//! English translations.

use std::collections::HashMap;
use vstd::prelude::*;
use vstd::string::StringExecFns;

verus! {

/// The key at each position of the English table.
pub open spec fn spec_key_at(i: int) -> Seq<char> {
    if i < 30 {
        spec_key_s0(i - 0)
    } else if i < 60 {
        spec_key_s1(i - 30)
    } else if i < 90 {
        spec_key_s2(i - 60)
    } else if i < 120 {
        spec_key_s3(i - 90)
    } else if i < 150 {
        spec_key_s4(i - 120)
    } else if i < 180 {
        spec_key_s5(i - 150)
    } else if i < 210 {
        spec_key_s6(i - 180)
    } else {
        spec_key_s7(i - 210)
    }
}

/// The value at each position of the English table.
pub open spec fn spec_value_at(i: int) -> Seq<char> {
    if i < 30 {
        spec_value_s0(i - 0)
    } else if i < 60 {
        spec_value_s1(i - 30)
    } else if i < 90 {
        spec_value_s2(i - 60)
    } else if i < 120 {
        spec_value_s3(i - 90)
    } else if i < 150 {
        spec_value_s4(i - 120)
    } else if i < 180 {
        spec_value_s5(i - 150)
    } else if i < 210 {
        spec_value_s6(i - 180)
    } else {
        spec_value_s7(i - 210)
    }
}

/// The table is exactly the English pair list, entry by entry.
pub open spec fn spec_table_matches(t: Seq<(String, String)>) -> bool {
    &&& t.len() == 213
    &&& forall|i: int|
        0 <= i < t.len() ==> (#[trigger] t[i]).0@ == spec_key_at(i) && t[i].1@
            == spec_value_at(i)
}

pub open spec fn spec_key_s0(i: int) -> Seq<char> {
    if i == 0 {
        "app.title"@
    } else if i == 1 {
        "app.version"@
    } else if i == 2 {
        "nav.dashboard"@
    } else if i == 3 {
        "nav.history"@
    } else if i == 4 {
        "nav.settings"@
    } else if i == 5 {
        "nav.about"@
    } else if i == 6 {
        "dashboard.current_power"@
    } else if i == 7 {
        "dashboard.session_energy"@
    } else if i == 8 {
        "dashboard.session_cost"@
    } else if i == 9 {
        "dashboard.hourly_estimate"@
    } else if i == 10 {
        "dashboard.daily_estimate"@
    } else if i == 11 {
        "dashboard.monthly_estimate"@
    } else if i == 12 {
        "dashboard.session_duration"@
    } else if i == 13 {
        "dashboard.power_source"@
    } else if i == 14 {
        "dashboard.estimated"@
    } else if i == 15 {
        "dashboard.measured"@
    } else if i == 16 {
        "unit.watts"@
    } else if i == 17 {
        "unit.kilowatts"@
    } else if i == 18 {
        "unit.watt_hours"@
    } else if i == 19 {
        "unit.kilowatt_hours"@
    } else if i == 20 {
        "unit.per_hour"@
    } else if i == 21 {
        "unit.per_day"@
    } else if i == 22 {
        "unit.per_month"@
    } else if i == 23 {
        "settings.general"@
    } else if i == 24 {
        "settings.language"@
    } else if i == 25 {
        "settings.language.auto"@
    } else if i == 26 {
        "settings.theme"@
    } else if i == 27 {
        "settings.theme.dark"@
    } else if i == 28 {
        "settings.theme.light"@
    } else {
        "settings.theme.system"@
    }
}

pub open spec fn spec_value_s0(i: int) -> Seq<char> {
    if i == 0 {
        "PowerCost Tracker"@
    } else if i == 1 {
        "Version"@
    } else if i == 2 {
        "Dashboard"@
    } else if i == 3 {
        "History"@
    } else if i == 4 {
        "Settings"@
    } else if i == 5 {
        "About"@
    } else if i == 6 {
        "Current Power"@
    } else if i == 7 {
        "Session Energy"@
    } else if i == 8 {
        "Session Cost"@
    } else if i == 9 {
        "Hourly Estimate"@
    } else if i == 10 {
        "Daily Estimate"@
    } else if i == 11 {
        "Monthly Estimate"@
    } else if i == 12 {
        "Session Duration"@
    } else if i == 13 {
        "Power Source"@
    } else if i == 14 {
        "Estimated"@
    } else if i == 15 {
        "Measured"@
    } else if i == 16 {
        "W"@
    } else if i == 17 {
        "kW"@
    } else if i == 18 {
        "Wh"@
    } else if i == 19 {
        "kWh"@
    } else if i == 20 {
        "/hour"@
    } else if i == 21 {
        "/day"@
    } else if i == 22 {
        "/month"@
    } else if i == 23 {
        "General"@
    } else if i == 24 {
        "Language"@
    } else if i == 25 {
        "Auto-detect"@
    } else if i == 26 {
        "Theme"@
    } else if i == 27 {
        "Dark"@
    } else if i == 28 {
        "Light"@
    } else {
        "System"@
    }
}

pub open spec fn spec_key_s1(i: int) -> Seq<char> {
    if i == 0 {
        "settings.refresh_rate"@
    } else if i == 1 {
        "settings.eco_mode"@
    } else if i == 2 {
        "settings.eco_mode.description"@
    } else if i == 3 {
        "settings.start_minimized"@
    } else if i == 4 {
        "settings.start_with_system"@
    } else if i == 5 {
        "settings.pricing"@
    } else if i == 6 {
        "settings.pricing.mode"@
    } else if i == 7 {
        "settings.pricing.mode.simple"@
    } else if i == 8 {
        "settings.pricing.mode.peak_offpeak"@
    } else if i == 9 {
        "settings.pricing.mode.seasonal"@
    } else if i == 10 {
        "settings.pricing.mode.tempo"@
    } else if i == 11 {
        "settings.pricing.currency"@
    } else if i == 12 {
        "settings.pricing.rate"@
    } else if i == 13 {
        "settings.pricing.peak_rate"@
    } else if i == 14 {
        "settings.pricing.offpeak_rate"@
    } else if i == 15 {
        "settings.pricing.offpeak_start"@
    } else if i == 16 {
        "settings.pricing.offpeak_end"@
    } else if i == 17 {
        "settings.pricing.summer_rate"@
    } else if i == 18 {
        "settings.pricing.winter_rate"@
    } else if i == 19 {
        "settings.pricing.not_configured"@
    } else if i == 20 {
        "settings.pricing.configure_hint"@
    } else if i == 21 {
        "settings.widget"@
    } else if i == 22 {
        "settings.widget.enabled"@
    } else if i == 23 {
        "settings.widget.show_cost"@
    } else if i == 24 {
        "settings.widget.show_power"@
    } else if i == 25 {
        "settings.widget.position"@
    } else if i == 26 {
        "settings.widget.position.top_left"@
    } else if i == 27 {
        "settings.widget.position.top_right"@
    } else if i == 28 {
        "settings.widget.position.bottom_left"@
    } else {
        "settings.widget.position.bottom_right"@
    }
}

pub open spec fn spec_value_s1(i: int) -> Seq<char> {
    if i == 0 {
        "Refresh Rate"@
    } else if i == 1 {
        "Eco Mode"@
    } else if i == 2 {
        "Reduce refresh rate when minimized"@
    } else if i == 3 {
        "Start Minimized"@
    } else if i == 4 {
        "Start with System"@
    } else if i == 5 {
        "Pricing"@
    } else if i == 6 {
        "Pricing Mode"@
    } else if i == 7 {
        "Simple (flat rate)"@
    } else if i == 8 {
        "Peak/Off-peak"@
    } else if i == 9 {
        "Seasonal"@
    } else if i == 10 {
        "Tempo (EDF-style)"@
    } else if i == 11 {
        "Currency"@
    } else if i == 12 {
        "Rate per kWh"@
    } else if i == 13 {
        "Peak Rate"@
    } else if i == 14 {
        "Off-peak Rate"@
    } else if i == 15 {
        "Off-peak Start"@
    } else if i == 16 {
        "Off-peak End"@
    } else if i == 17 {
        "Summer Rate"@
    } else if i == 18 {
        "Winter Rate"@
    } else if i == 19 {
        "Pricing not configured"@
    } else if i == 20 {
        "Configure pricing to see cost estimates"@
    } else if i == 21 {
        "Widget"@
    } else if i == 22 {
        "Enable Widget"@
    } else if i == 23 {
        "Show Cost"@
    } else if i == 24 {
        "Show Power Only"@
    } else if i == 25 {
        "Position"@
    } else if i == 26 {
        "Top Left"@
    } else if i == 27 {
        "Top Right"@
    } else if i == 28 {
        "Bottom Left"@
    } else {
        "Bottom Right"@
    }
}

pub open spec fn spec_key_s2(i: int) -> Seq<char> {
    if i == 0 {
        "settings.widget.opacity"@
    } else if i == 1 {
        "settings.widget.open"@
    } else if i == 2 {
        "settings.widget.close"@
    } else if i == 3 {
        "settings.pricing.tempo.blue"@
    } else if i == 4 {
        "settings.pricing.tempo.white"@
    } else if i == 5 {
        "settings.pricing.tempo.red"@
    } else if i == 6 {
        "settings.pricing.tempo.peak"@
    } else if i == 7 {
        "settings.pricing.tempo.offpeak"@
    } else if i == 8 {
        "settings.pricing.winter_months"@
    } else if i == 9 {
        "settings.saved"@
    } else if i == 10 {
        "settings.advanced"@
    } else if i == 11 {
        "settings.advanced.baseline"@
    } else if i == 12 {
        "settings.advanced.baseline.auto"@
    } else if i == 13 {
        "settings.advanced.baseline.manual"@
    } else if i == 14 {
        "settings.advanced.baseline.description"@
    } else if i == 15 {
        "history.title"@
    } else if i == 16 {
        "history.today"@
    } else if i == 17 {
        "history.this_week"@
    } else if i == 18 {
        "history.this_month"@
    } else if i == 19 {
        "history.custom_range"@
    } else if i == 20 {
        "history.total_consumption"@
    } else if i == 21 {
        "history.total_cost"@
    } else if i == 22 {
        "history.average_power"@
    } else if i == 23 {
        "history.peak_power"@
    } else if i == 24 {
        "history.no_data"@
    } else if i == 25 {
        "about.title"@
    } else if i == 26 {
        "about.description"@
    } else if i == 27 {
        "about.license"@
    } else if i == 28 {
        "about.source"@
    } else {
        "error.hardware_not_detected"@
    }
}

pub open spec fn spec_value_s2(i: int) -> Seq<char> {
    if i == 0 {
        "Opacity"@
    } else if i == 1 {
        "Open Widget"@
    } else if i == 2 {
        "Close Widget"@
    } else if i == 3 {
        "Blue Days"@
    } else if i == 4 {
        "White Days"@
    } else if i == 5 {
        "Red Days"@
    } else if i == 6 {
        "Peak"@
    } else if i == 7 {
        "Off-peak"@
    } else if i == 8 {
        "Winter Months"@
    } else if i == 9 {
        "Settings saved successfully"@
    } else if i == 10 {
        "Advanced"@
    } else if i == 11 {
        "Baseline Power"@
    } else if i == 12 {
        "Auto-detect"@
    } else if i == 13 {
        "Manual"@
    } else if i == 14 {
        "Baseline power for surplus tracking"@
    } else if i == 15 {
        "Consumption History"@
    } else if i == 16 {
        "Today"@
    } else if i == 17 {
        "This Week"@
    } else if i == 18 {
        "This Month"@
    } else if i == 19 {
        "Custom Range"@
    } else if i == 20 {
        "Total Consumption"@
    } else if i == 21 {
        "Total Cost"@
    } else if i == 22 {
        "Average Power"@
    } else if i == 23 {
        "Peak Power"@
    } else if i == 24 {
        "No data available for this period"@
    } else if i == 25 {
        "About PowerCost Tracker"@
    } else if i == 26 {
        "A lightweight desktop application for monitoring PC power consumption and calculating electricity costs in real-time."@
    } else if i == 27 {
        "License: MIT"@
    } else if i == 28 {
        "Source Code"@
    } else {
        "Power monitoring hardware not detected"@
    }
}

pub open spec fn spec_key_s3(i: int) -> Seq<char> {
    if i == 0 {
        "error.using_estimation"@
    } else if i == 1 {
        "error.permission_denied"@
    } else if i == 2 {
        "error.save_failed"@
    } else if i == 3 {
        "warning.estimated_values"@
    } else if i == 4 {
        "action.save"@
    } else if i == 5 {
        "action.cancel"@
    } else if i == 6 {
        "action.reset"@
    } else if i == 7 {
        "action.close"@
    } else if i == 8 {
        "action.minimize"@
    } else if i == 9 {
        "action.quit"@
    } else if i == 10 {
        "time.hours"@
    } else if i == 11 {
        "time.minutes"@
    } else if i == 12 {
        "time.seconds"@
    } else if i == 13 {
        "dashboard.mode.normal"@
    } else if i == 14 {
        "dashboard.mode.minimal"@
    } else if i == 15 {
        "dashboard.edit_mode"@
    } else if i == 16 {
        "dashboard.default_layout"@
    } else if i == 17 {
        "dashboard.toggle_widgets"@
    } else if i == 18 {
        "dashboard.done"@
    } else if i == 19 {
        "dashboard.toggle_visibility"@
    } else if i == 20 {
        "dashboard.edit"@
    } else if i == 21 {
        "dashboard.edit_hint"@
    } else if i == 22 {
        "dashboard.reset_default"@
    } else if i == 23 {
        "dashboard.saved"@
    } else if i == 24 {
        "dashboard.save_failed"@
    } else if i == 25 {
        "dashboard.reset_success"@
    } else if i == 26 {
        "dashboard.edit_activated"@
    } else if i == 27 {
        "dashboard.changes_saved"@
    } else if i == 28 {
        "dashboard.default_applied"@
    } else {
        "dashboard.display_mode"@
    }
}

pub open spec fn spec_value_s3(i: int) -> Seq<char> {
    if i == 0 {
        "Using power estimation mode"@
    } else if i == 1 {
        "Permission denied"@
    } else if i == 2 {
        "Failed to save settings"@
    } else if i == 3 {
        "Power values are estimated (no direct sensor detected)"@
    } else if i == 4 {
        "Save"@
    } else if i == 5 {
        "Cancel"@
    } else if i == 6 {
        "Reset"@
    } else if i == 7 {
        "Close"@
    } else if i == 8 {
        "Minimize"@
    } else if i == 9 {
        "Quit"@
    } else if i == 10 {
        "hours"@
    } else if i == 11 {
        "minutes"@
    } else if i == 12 {
        "seconds"@
    } else if i == 13 {
        "Normal"@
    } else if i == 14 {
        "Minimal"@
    } else if i == 15 {
        "Edit Mode"@
    } else if i == 16 {
        "Default Layout"@
    } else if i == 17 {
        "Widgets Parameters"@
    } else if i == 18 {
        "Done"@
    } else if i == 19 {
        "Toggle Widget Visibility"@
    } else if i == 20 {
        "Edit Dashboard"@
    } else if i == 21 {
        "Toggle widgets visibility and drag to reorder"@
    } else if i == 22 {
        "Reset to Default"@
    } else if i == 23 {
        "Dashboard saved"@
    } else if i == 24 {
        "Failed to save dashboard"@
    } else if i == 25 {
        "Dashboard reset to default"@
    } else if i == 26 {
        "Edit mode activated"@
    } else if i == 27 {
        "Changes saved"@
    } else if i == 28 {
        "Default layout applied"@
    } else {
        "Display mode"@
    }
}

pub open spec fn spec_key_s4(i: int) -> Seq<char> {
    if i == 0 {
        "session.no_active"@
    } else if i == 1 {
        "session.start"@
    } else if i == 2 {
        "session.end"@
    } else if i == 3 {
        "session.started"@
    } else if i == 4 {
        "session.start_failed"@
    } else if i == 5 {
        "session.ended"@
    } else if i == 6 {
        "session.end_failed"@
    } else if i == 7 {
        "session.surplus"@
    } else if i == 8 {
        "processes.all"@
    } else if i == 9 {
        "processes.search_placeholder"@
    } else if i == 10 {
        "processes.header.name"@
    } else if i == 11 {
        "processes.header.cpu"@
    } else if i == 12 {
        "processes.header.gpu"@
    } else if i == 13 {
        "processes.header.ram"@
    } else if i == 14 {
        "processes.pinned"@
    } else if i == 15 {
        "processes.unpinned"@
    } else if i == 16 {
        "processes.pin_failed"@
    } else if i == 17 {
        "settings.baseline"@
    } else if i == 18 {
        "settings.baseline.auto"@
    } else if i == 19 {
        "settings.baseline.manual"@
    } else if i == 20 {
        "settings.baseline.detected"@
    } else if i == 21 {
        "settings.baseline.detect_now"@
    } else if i == 22 {
        "settings.baseline.detected_value"@
    } else if i == 23 {
        "settings.baseline.not_enough_data"@
    } else if i == 24 {
        "settings.baseline.detect_failed"@
    } else if i == 25 {
        "settings.baseline.set_success"@
    } else if i == 26 {
        "settings.baseline.set_failed"@
    } else if i == 27 {
        "settings.process_limit"@
    } else if i == 28 {
        "settings.refresh_rate_detailed"@
    } else {
        "settings.refresh_rate_critical"@
    }
}

pub open spec fn spec_value_s4(i: int) -> Seq<char> {
    if i == 0 {
        "No active session"@
    } else if i == 1 {
        "Start Session"@
    } else if i == 2 {
        "End Session"@
    } else if i == 3 {
        "Session started"@
    } else if i == 4 {
        "Failed to start session"@
    } else if i == 5 {
        "Session ended"@
    } else if i == 6 {
        "Failed to end session"@
    } else if i == 7 {
        "surplus"@
    } else if i == 8 {
        "All Processes"@
    } else if i == 9 {
        "Search processes..."@
    } else if i == 10 {
        "Process"@
    } else if i == 11 {
        "CPU %"@
    } else if i == 12 {
        "GPU %"@
    } else if i == 13 {
        "RAM %"@
    } else if i == 14 {
        "Pinned"@
    } else if i == 15 {
        "Unpinned"@
    } else if i == 16 {
        "Failed to update pin"@
    } else if i == 17 {
        "Baseline Detection"@
    } else if i == 18 {
        "Auto-detect Baseline"@
    } else if i == 19 {
        "Manual Baseline (W)"@
    } else if i == 20 {
        "Detected Baseline"@
    } else if i == 21 {
        "Detect Now"@
    } else if i == 22 {
        "Baseline detected"@
    } else if i == 23 {
        "Not enough data to detect baseline"@
    } else if i == 24 {
        "Failed to detect baseline"@
    } else if i == 25 {
        "Baseline set to"@
    } else if i == 26 {
        "Failed to set baseline"@
    } else if i == 27 {
        "Process List Limit"@
    } else if i == 28 {
        "Refresh Rate (Detailed)"@
    } else {
        "Refresh Rate (Critical)"@
    }
}

pub open spec fn spec_key_s5(i: int) -> Seq<char> {
    if i == 0 {
        "history.daily_breakdown"@
    } else if i == 1 {
        "history.date"@
    } else if i == 2 {
        "history.energy"@
    } else if i == 3 {
        "history.cost"@
    } else if i == 4 {
        "history.rate"@
    } else if i == 5 {
        "history.avg"@
    } else if i == 6 {
        "history.peak"@
    } else if i == 7 {
        "history.tab.power"@
    } else if i == 8 {
        "history.tab.sessions"@
    } else if i == 9 {
        "history.no_sessions"@
    } else if i == 10 {
        "tray.show"@
    } else if i == 11 {
        "tray.exit"@
    } else if i == 12 {
        "widget.cpu"@
    } else if i == 13 {
        "widget.gpu"@
    } else if i == 14 {
        "widget.ram"@
    } else if i == 15 {
        "widget.surplus"@
    } else if i == 16 {
        "widget.session_controls"@
    } else if i == 17 {
        "widget.processes"@
    } else if i == 18 {
        "widget.loading"@
    } else if i == 19 {
        "widget.no_gpu"@
    } else if i == 20 {
        "widget.no_process_data"@
    } else if i == 21 {
        "widget.temp"@
    } else if i == 22 {
        "widget.power"@
    } else if i == 23 {
        "widget.usage"@
    } else if i == 24 {
        "widget.cost"@
    } else if i == 25 {
        "widget.baseline"@
    } else if i == 26 {
        "widget.current"@
    } else if i == 27 {
        "widget.set_baseline"@
    } else if i == 28 {
        "widget.update_baseline"@
    } else {
        "widget.start_session_to_track"@
    }
}

pub open spec fn spec_value_s5(i: int) -> Seq<char> {
    if i == 0 {
        "Daily Breakdown"@
    } else if i == 1 {
        "Date"@
    } else if i == 2 {
        "Energy"@
    } else if i == 3 {
        "Cost"@
    } else if i == 4 {
        "Rate"@
    } else if i == 5 {
        "Avg"@
    } else if i == 6 {
        "Peak"@
    } else if i == 7 {
        "Power"@
    } else if i == 8 {
        "Sessions"@
    } else if i == 9 {
        "No sessions recorded yet"@
    } else if i == 10 {
        "Show"@
    } else if i == 11 {
        "Exit"@
    } else if i == 12 {
        "CPU"@
    } else if i == 13 {
        "GPU"@
    } else if i == 14 {
        "RAM"@
    } else if i == 15 {
        "Surplus"@
    } else if i == 16 {
        "Session"@
    } else if i == 17 {
        "Top Processes"@
    } else if i == 18 {
        "Loading..."@
    } else if i == 19 {
        "No GPU detected"@
    } else if i == 20 {
        "No process data available"@
    } else if i == 21 {
        "Temp"@
    } else if i == 22 {
        "Power"@
    } else if i == 23 {
        "Usage"@
    } else if i == 24 {
        "Cost"@
    } else if i == 25 {
        "Baseline"@
    } else if i == 26 {
        "Current"@
    } else if i == 27 {
        "Set Baseline"@
    } else if i == 28 {
        "Update Baseline"@
    } else {
        "Start a session to track surplus"@
    }
}

pub open spec fn spec_key_s6(i: int) -> Seq<char> {
    if i == 0 {
        "widget.session_active"@
    } else if i == 1 {
        "widget.show_top"@
    } else if i == 2 {
        "widget.search_processes"@
    } else if i == 3 {
        "widget.pin"@
    } else if i == 4 {
        "widget.unpin"@
    } else if i == 5 {
        "widget.size.small"@
    } else if i == 6 {
        "widget.size.medium"@
    } else if i == 7 {
        "widget.size.large"@
    } else if i == 8 {
        "widget.no_processes_found"@
    } else if i == 9 {
        "widget.hide"@
    } else if i == 10 {
        "widget.display.bar"@
    } else if i == 11 {
        "widget.display.text"@
    } else if i == 12 {
        "widget.display.radial"@
    } else if i == 13 {
        "widget.display.chart"@
    } else if i == 14 {
        "dashboard.display_mode_title"@
    } else if i == 15 {
        "dashboard.edit_title"@
    } else if i == 16 {
        "dashboard.hourly_estimate_short"@
    } else if i == 17 {
        "dashboard.daily_estimate_short"@
    } else if i == 18 {
        "dashboard.monthly_estimate_short"@
    } else if i == 19 {
        "dashboard.session_energy_short"@
    } else if i == 20 {
        "dashboard.session_cost_short"@
    } else if i == 21 {
        "dashboard.session_duration_short"@
    } else if i == 22 {
        "dashboard.current_power_short"@
    } else if i == 23 {
        "widget.processes_short"@
    } else if i == 24 {
        "widget.session_controls_short"@
    } else if i == 25 {
        "widget.surplus_short"@
    } else if i == 26 {
        "widget.show_cost"@
    } else if i == 27 {
        "widget.show_energy"@
    } else if i == 28 {
        "widget.fan"@
    } else {
        "widget.clock"@
    }
}

pub open spec fn spec_value_s6(i: int) -> Seq<char> {
    if i == 0 {
        "Session Active"@
    } else if i == 1 {
        "Show top"@
    } else if i == 2 {
        "Search processes"@
    } else if i == 3 {
        "Pin"@
    } else if i == 4 {
        "Unpin"@
    } else if i == 5 {
        "Small"@
    } else if i == 6 {
        "Medium"@
    } else if i == 7 {
        "Large"@
    } else if i == 8 {
        "No processes found"@
    } else if i == 9 {
        "Hide widget"@
    } else if i == 10 {
        "Bar"@
    } else if i == 11 {
        "Text"@
    } else if i == 12 {
        "Radial"@
    } else if i == 13 {
        "Chart"@
    } else if i == 14 {
        "Display Mode"@
    } else if i == 15 {
        "Edit Dashboard"@
    } else if i == 16 {
        "Hourly"@
    } else if i == 17 {
        "Daily"@
    } else if i == 18 {
        "Monthly"@
    } else if i == 19 {
        "Energy"@
    } else if i == 20 {
        "Cost"@
    } else if i == 21 {
        "Duration"@
    } else if i == 22 {
        "Power"@
    } else if i == 23 {
        "Procs"@
    } else if i == 24 {
        "Session"@
    } else if i == 25 {
        "Surplus"@
    } else if i == 26 {
        "Cost"@
    } else if i == 27 {
        "Energy"@
    } else if i == 28 {
        "Fan"@
    } else {
        "Clock"@
    }
}

pub open spec fn spec_key_s7(i: int) -> Seq<char> {
    if i == 0 {
        "widget.mem_clock"@
    } else if i == 1 {
        "widget.swap"@
    } else {
        "widget.speed"@
    }
}

pub open spec fn spec_value_s7(i: int) -> Seq<char> {
    if i == 0 {
        "Mem Clock"@
    } else if i == 1 {
        "Swap"@
    } else {
        "Speed"@
    }
}

fn pairs_s0() -> (r: Vec<(String, String)>)
    ensures
        r@.len() == 30,
        forall|i: int|
            0 <= i < 30 ==> (#[trigger] r@[i]).0@ == spec_key_s0(i) && r@[i].1@
                == spec_value_s0(i),
{
    let mut t: Vec<(String, String)> = Vec::new();
    t.push((String::from_str("app.title"), String::from_str("PowerCost Tracker")));
    t.push((String::from_str("app.version"), String::from_str("Version")));
    t.push((String::from_str("nav.dashboard"), String::from_str("Dashboard")));
    t.push((String::from_str("nav.history"), String::from_str("History")));
    t.push((String::from_str("nav.settings"), String::from_str("Settings")));
    t.push((String::from_str("nav.about"), String::from_str("About")));
    t.push((String::from_str("dashboard.current_power"), String::from_str("Current Power")));
    t.push((String::from_str("dashboard.session_energy"), String::from_str("Session Energy")));
    t.push((String::from_str("dashboard.session_cost"), String::from_str("Session Cost")));
    t.push((String::from_str("dashboard.hourly_estimate"), String::from_str("Hourly Estimate")));
    t.push((String::from_str("dashboard.daily_estimate"), String::from_str("Daily Estimate")));
    t.push((String::from_str("dashboard.monthly_estimate"), String::from_str("Monthly Estimate")));
    t.push((String::from_str("dashboard.session_duration"), String::from_str("Session Duration")));
    t.push((String::from_str("dashboard.power_source"), String::from_str("Power Source")));
    t.push((String::from_str("dashboard.estimated"), String::from_str("Estimated")));
    t.push((String::from_str("dashboard.measured"), String::from_str("Measured")));
    t.push((String::from_str("unit.watts"), String::from_str("W")));
    t.push((String::from_str("unit.kilowatts"), String::from_str("kW")));
    t.push((String::from_str("unit.watt_hours"), String::from_str("Wh")));
    t.push((String::from_str("unit.kilowatt_hours"), String::from_str("kWh")));
    t.push((String::from_str("unit.per_hour"), String::from_str("/hour")));
    t.push((String::from_str("unit.per_day"), String::from_str("/day")));
    t.push((String::from_str("unit.per_month"), String::from_str("/month")));
    t.push((String::from_str("settings.general"), String::from_str("General")));
    t.push((String::from_str("settings.language"), String::from_str("Language")));
    t.push((String::from_str("settings.language.auto"), String::from_str("Auto-detect")));
    t.push((String::from_str("settings.theme"), String::from_str("Theme")));
    t.push((String::from_str("settings.theme.dark"), String::from_str("Dark")));
    t.push((String::from_str("settings.theme.light"), String::from_str("Light")));
    t.push((String::from_str("settings.theme.system"), String::from_str("System")));
    t
}

fn pairs_s1() -> (r: Vec<(String, String)>)
    ensures
        r@.len() == 30,
        forall|i: int|
            0 <= i < 30 ==> (#[trigger] r@[i]).0@ == spec_key_s1(i) && r@[i].1@
                == spec_value_s1(i),
{
    let mut t: Vec<(String, String)> = Vec::new();
    t.push((String::from_str("settings.refresh_rate"), String::from_str("Refresh Rate")));
    t.push((String::from_str("settings.eco_mode"), String::from_str("Eco Mode")));
    t.push((String::from_str("settings.eco_mode.description"), String::from_str("Reduce refresh rate when minimized")));
    t.push((String::from_str("settings.start_minimized"), String::from_str("Start Minimized")));
    t.push((String::from_str("settings.start_with_system"), String::from_str("Start with System")));
    t.push((String::from_str("settings.pricing"), String::from_str("Pricing")));
    t.push((String::from_str("settings.pricing.mode"), String::from_str("Pricing Mode")));
    t.push((String::from_str("settings.pricing.mode.simple"), String::from_str("Simple (flat rate)")));
    t.push((String::from_str("settings.pricing.mode.peak_offpeak"), String::from_str("Peak/Off-peak")));
    t.push((String::from_str("settings.pricing.mode.seasonal"), String::from_str("Seasonal")));
    t.push((String::from_str("settings.pricing.mode.tempo"), String::from_str("Tempo (EDF-style)")));
    t.push((String::from_str("settings.pricing.currency"), String::from_str("Currency")));
    t.push((String::from_str("settings.pricing.rate"), String::from_str("Rate per kWh")));
    t.push((String::from_str("settings.pricing.peak_rate"), String::from_str("Peak Rate")));
    t.push((String::from_str("settings.pricing.offpeak_rate"), String::from_str("Off-peak Rate")));
    t.push((String::from_str("settings.pricing.offpeak_start"), String::from_str("Off-peak Start")));
    t.push((String::from_str("settings.pricing.offpeak_end"), String::from_str("Off-peak End")));
    t.push((String::from_str("settings.pricing.summer_rate"), String::from_str("Summer Rate")));
    t.push((String::from_str("settings.pricing.winter_rate"), String::from_str("Winter Rate")));
    t.push((String::from_str("settings.pricing.not_configured"), String::from_str("Pricing not configured")));
    t.push((String::from_str("settings.pricing.configure_hint"), String::from_str("Configure pricing to see cost estimates")));
    t.push((String::from_str("settings.widget"), String::from_str("Widget")));
    t.push((String::from_str("settings.widget.enabled"), String::from_str("Enable Widget")));
    t.push((String::from_str("settings.widget.show_cost"), String::from_str("Show Cost")));
    t.push((String::from_str("settings.widget.show_power"), String::from_str("Show Power Only")));
    t.push((String::from_str("settings.widget.position"), String::from_str("Position")));
    t.push((String::from_str("settings.widget.position.top_left"), String::from_str("Top Left")));
    t.push((String::from_str("settings.widget.position.top_right"), String::from_str("Top Right")));
    t.push((String::from_str("settings.widget.position.bottom_left"), String::from_str("Bottom Left")));
    t.push((String::from_str("settings.widget.position.bottom_right"), String::from_str("Bottom Right")));
    t
}

fn pairs_s2() -> (r: Vec<(String, String)>)
    ensures
        r@.len() == 30,
        forall|i: int|
            0 <= i < 30 ==> (#[trigger] r@[i]).0@ == spec_key_s2(i) && r@[i].1@
                == spec_value_s2(i),
{
    let mut t: Vec<(String, String)> = Vec::new();
    t.push((String::from_str("settings.widget.opacity"), String::from_str("Opacity")));
    t.push((String::from_str("settings.widget.open"), String::from_str("Open Widget")));
    t.push((String::from_str("settings.widget.close"), String::from_str("Close Widget")));
    t.push((String::from_str("settings.pricing.tempo.blue"), String::from_str("Blue Days")));
    t.push((String::from_str("settings.pricing.tempo.white"), String::from_str("White Days")));
    t.push((String::from_str("settings.pricing.tempo.red"), String::from_str("Red Days")));
    t.push((String::from_str("settings.pricing.tempo.peak"), String::from_str("Peak")));
    t.push((String::from_str("settings.pricing.tempo.offpeak"), String::from_str("Off-peak")));
    t.push((String::from_str("settings.pricing.winter_months"), String::from_str("Winter Months")));
    t.push((String::from_str("settings.saved"), String::from_str("Settings saved successfully")));
    t.push((String::from_str("settings.advanced"), String::from_str("Advanced")));
    t.push((String::from_str("settings.advanced.baseline"), String::from_str("Baseline Power")));
    t.push((String::from_str("settings.advanced.baseline.auto"), String::from_str("Auto-detect")));
    t.push((String::from_str("settings.advanced.baseline.manual"), String::from_str("Manual")));
    t.push((String::from_str("settings.advanced.baseline.description"), String::from_str("Baseline power for surplus tracking")));
    t.push((String::from_str("history.title"), String::from_str("Consumption History")));
    t.push((String::from_str("history.today"), String::from_str("Today")));
    t.push((String::from_str("history.this_week"), String::from_str("This Week")));
    t.push((String::from_str("history.this_month"), String::from_str("This Month")));
    t.push((String::from_str("history.custom_range"), String::from_str("Custom Range")));
    t.push((String::from_str("history.total_consumption"), String::from_str("Total Consumption")));
    t.push((String::from_str("history.total_cost"), String::from_str("Total Cost")));
    t.push((String::from_str("history.average_power"), String::from_str("Average Power")));
    t.push((String::from_str("history.peak_power"), String::from_str("Peak Power")));
    t.push((String::from_str("history.no_data"), String::from_str("No data available for this period")));
    t.push((String::from_str("about.title"), String::from_str("About PowerCost Tracker")));
    t.push((String::from_str("about.description"), String::from_str("A lightweight desktop application for monitoring PC power consumption and calculating electricity costs in real-time.")));
    t.push((String::from_str("about.license"), String::from_str("License: MIT")));
    t.push((String::from_str("about.source"), String::from_str("Source Code")));
    t.push((String::from_str("error.hardware_not_detected"), String::from_str("Power monitoring hardware not detected")));
    t
}

fn pairs_s3() -> (r: Vec<(String, String)>)
    ensures
        r@.len() == 30,
        forall|i: int|
            0 <= i < 30 ==> (#[trigger] r@[i]).0@ == spec_key_s3(i) && r@[i].1@
                == spec_value_s3(i),
{
    let mut t: Vec<(String, String)> = Vec::new();
    t.push((String::from_str("error.using_estimation"), String::from_str("Using power estimation mode")));
    t.push((String::from_str("error.permission_denied"), String::from_str("Permission denied")));
    t.push((String::from_str("error.save_failed"), String::from_str("Failed to save settings")));
    t.push((String::from_str("warning.estimated_values"), String::from_str("Power values are estimated (no direct sensor detected)")));
    t.push((String::from_str("action.save"), String::from_str("Save")));
    t.push((String::from_str("action.cancel"), String::from_str("Cancel")));
    t.push((String::from_str("action.reset"), String::from_str("Reset")));
    t.push((String::from_str("action.close"), String::from_str("Close")));
    t.push((String::from_str("action.minimize"), String::from_str("Minimize")));
    t.push((String::from_str("action.quit"), String::from_str("Quit")));
    t.push((String::from_str("time.hours"), String::from_str("hours")));
    t.push((String::from_str("time.minutes"), String::from_str("minutes")));
    t.push((String::from_str("time.seconds"), String::from_str("seconds")));
    t.push((String::from_str("dashboard.mode.normal"), String::from_str("Normal")));
    t.push((String::from_str("dashboard.mode.minimal"), String::from_str("Minimal")));
    t.push((String::from_str("dashboard.edit_mode"), String::from_str("Edit Mode")));
    t.push((String::from_str("dashboard.default_layout"), String::from_str("Default Layout")));
    t.push((String::from_str("dashboard.toggle_widgets"), String::from_str("Widgets Parameters")));
    t.push((String::from_str("dashboard.done"), String::from_str("Done")));
    t.push((String::from_str("dashboard.toggle_visibility"), String::from_str("Toggle Widget Visibility")));
    t.push((String::from_str("dashboard.edit"), String::from_str("Edit Dashboard")));
    t.push((String::from_str("dashboard.edit_hint"), String::from_str("Toggle widgets visibility and drag to reorder")));
    t.push((String::from_str("dashboard.reset_default"), String::from_str("Reset to Default")));
    t.push((String::from_str("dashboard.saved"), String::from_str("Dashboard saved")));
    t.push((String::from_str("dashboard.save_failed"), String::from_str("Failed to save dashboard")));
    t.push((String::from_str("dashboard.reset_success"), String::from_str("Dashboard reset to default")));
    t.push((String::from_str("dashboard.edit_activated"), String::from_str("Edit mode activated")));
    t.push((String::from_str("dashboard.changes_saved"), String::from_str("Changes saved")));
    t.push((String::from_str("dashboard.default_applied"), String::from_str("Default layout applied")));
    t.push((String::from_str("dashboard.display_mode"), String::from_str("Display mode")));
    t
}

fn pairs_s4() -> (r: Vec<(String, String)>)
    ensures
        r@.len() == 30,
        forall|i: int|
            0 <= i < 30 ==> (#[trigger] r@[i]).0@ == spec_key_s4(i) && r@[i].1@
                == spec_value_s4(i),
{
    let mut t: Vec<(String, String)> = Vec::new();
    t.push((String::from_str("session.no_active"), String::from_str("No active session")));
    t.push((String::from_str("session.start"), String::from_str("Start Session")));
    t.push((String::from_str("session.end"), String::from_str("End Session")));
    t.push((String::from_str("session.started"), String::from_str("Session started")));
    t.push((String::from_str("session.start_failed"), String::from_str("Failed to start session")));
    t.push((String::from_str("session.ended"), String::from_str("Session ended")));
    t.push((String::from_str("session.end_failed"), String::from_str("Failed to end session")));
    t.push((String::from_str("session.surplus"), String::from_str("surplus")));
    t.push((String::from_str("processes.all"), String::from_str("All Processes")));
    t.push((String::from_str("processes.search_placeholder"), String::from_str("Search processes...")));
    t.push((String::from_str("processes.header.name"), String::from_str("Process")));
    t.push((String::from_str("processes.header.cpu"), String::from_str("CPU %")));
    t.push((String::from_str("processes.header.gpu"), String::from_str("GPU %")));
    t.push((String::from_str("processes.header.ram"), String::from_str("RAM %")));
    t.push((String::from_str("processes.pinned"), String::from_str("Pinned")));
    t.push((String::from_str("processes.unpinned"), String::from_str("Unpinned")));
    t.push((String::from_str("processes.pin_failed"), String::from_str("Failed to update pin")));
    t.push((String::from_str("settings.baseline"), String::from_str("Baseline Detection")));
    t.push((String::from_str("settings.baseline.auto"), String::from_str("Auto-detect Baseline")));
    t.push((String::from_str("settings.baseline.manual"), String::from_str("Manual Baseline (W)")));
    t.push((String::from_str("settings.baseline.detected"), String::from_str("Detected Baseline")));
    t.push((String::from_str("settings.baseline.detect_now"), String::from_str("Detect Now")));
    t.push((String::from_str("settings.baseline.detected_value"), String::from_str("Baseline detected")));
    t.push((String::from_str("settings.baseline.not_enough_data"), String::from_str("Not enough data to detect baseline")));
    t.push((String::from_str("settings.baseline.detect_failed"), String::from_str("Failed to detect baseline")));
    t.push((String::from_str("settings.baseline.set_success"), String::from_str("Baseline set to")));
    t.push((String::from_str("settings.baseline.set_failed"), String::from_str("Failed to set baseline")));
    t.push((String::from_str("settings.process_limit"), String::from_str("Process List Limit")));
    t.push((String::from_str("settings.refresh_rate_detailed"), String::from_str("Refresh Rate (Detailed)")));
    t.push((String::from_str("settings.refresh_rate_critical"), String::from_str("Refresh Rate (Critical)")));
    t
}

fn pairs_s5() -> (r: Vec<(String, String)>)
    ensures
        r@.len() == 30,
        forall|i: int|
            0 <= i < 30 ==> (#[trigger] r@[i]).0@ == spec_key_s5(i) && r@[i].1@
                == spec_value_s5(i),
{
    let mut t: Vec<(String, String)> = Vec::new();
    t.push((String::from_str("history.daily_breakdown"), String::from_str("Daily Breakdown")));
    t.push((String::from_str("history.date"), String::from_str("Date")));
    t.push((String::from_str("history.energy"), String::from_str("Energy")));
    t.push((String::from_str("history.cost"), String::from_str("Cost")));
    t.push((String::from_str("history.rate"), String::from_str("Rate")));
    t.push((String::from_str("history.avg"), String::from_str("Avg")));
    t.push((String::from_str("history.peak"), String::from_str("Peak")));
    t.push((String::from_str("history.tab.power"), String::from_str("Power")));
    t.push((String::from_str("history.tab.sessions"), String::from_str("Sessions")));
    t.push((String::from_str("history.no_sessions"), String::from_str("No sessions recorded yet")));
    t.push((String::from_str("tray.show"), String::from_str("Show")));
    t.push((String::from_str("tray.exit"), String::from_str("Exit")));
    t.push((String::from_str("widget.cpu"), String::from_str("CPU")));
    t.push((String::from_str("widget.gpu"), String::from_str("GPU")));
    t.push((String::from_str("widget.ram"), String::from_str("RAM")));
    t.push((String::from_str("widget.surplus"), String::from_str("Surplus")));
    t.push((String::from_str("widget.session_controls"), String::from_str("Session")));
    t.push((String::from_str("widget.processes"), String::from_str("Top Processes")));
    t.push((String::from_str("widget.loading"), String::from_str("Loading...")));
    t.push((String::from_str("widget.no_gpu"), String::from_str("No GPU detected")));
    t.push((String::from_str("widget.no_process_data"), String::from_str("No process data available")));
    t.push((String::from_str("widget.temp"), String::from_str("Temp")));
    t.push((String::from_str("widget.power"), String::from_str("Power")));
    t.push((String::from_str("widget.usage"), String::from_str("Usage")));
    t.push((String::from_str("widget.cost"), String::from_str("Cost")));
    t.push((String::from_str("widget.baseline"), String::from_str("Baseline")));
    t.push((String::from_str("widget.current"), String::from_str("Current")));
    t.push((String::from_str("widget.set_baseline"), String::from_str("Set Baseline")));
    t.push((String::from_str("widget.update_baseline"), String::from_str("Update Baseline")));
    t.push((String::from_str("widget.start_session_to_track"), String::from_str("Start a session to track surplus")));
    t
}

fn pairs_s6() -> (r: Vec<(String, String)>)
    ensures
        r@.len() == 30,
        forall|i: int|
            0 <= i < 30 ==> (#[trigger] r@[i]).0@ == spec_key_s6(i) && r@[i].1@
                == spec_value_s6(i),
{
    let mut t: Vec<(String, String)> = Vec::new();
    t.push((String::from_str("widget.session_active"), String::from_str("Session Active")));
    t.push((String::from_str("widget.show_top"), String::from_str("Show top")));
    t.push((String::from_str("widget.search_processes"), String::from_str("Search processes")));
    t.push((String::from_str("widget.pin"), String::from_str("Pin")));
    t.push((String::from_str("widget.unpin"), String::from_str("Unpin")));
    t.push((String::from_str("widget.size.small"), String::from_str("Small")));
    t.push((String::from_str("widget.size.medium"), String::from_str("Medium")));
    t.push((String::from_str("widget.size.large"), String::from_str("Large")));
    t.push((String::from_str("widget.no_processes_found"), String::from_str("No processes found")));
    t.push((String::from_str("widget.hide"), String::from_str("Hide widget")));
    t.push((String::from_str("widget.display.bar"), String::from_str("Bar")));
    t.push((String::from_str("widget.display.text"), String::from_str("Text")));
    t.push((String::from_str("widget.display.radial"), String::from_str("Radial")));
    t.push((String::from_str("widget.display.chart"), String::from_str("Chart")));
    t.push((String::from_str("dashboard.display_mode_title"), String::from_str("Display Mode")));
    t.push((String::from_str("dashboard.edit_title"), String::from_str("Edit Dashboard")));
    t.push((String::from_str("dashboard.hourly_estimate_short"), String::from_str("Hourly")));
    t.push((String::from_str("dashboard.daily_estimate_short"), String::from_str("Daily")));
    t.push((String::from_str("dashboard.monthly_estimate_short"), String::from_str("Monthly")));
    t.push((String::from_str("dashboard.session_energy_short"), String::from_str("Energy")));
    t.push((String::from_str("dashboard.session_cost_short"), String::from_str("Cost")));
    t.push((String::from_str("dashboard.session_duration_short"), String::from_str("Duration")));
    t.push((String::from_str("dashboard.current_power_short"), String::from_str("Power")));
    t.push((String::from_str("widget.processes_short"), String::from_str("Procs")));
    t.push((String::from_str("widget.session_controls_short"), String::from_str("Session")));
    t.push((String::from_str("widget.surplus_short"), String::from_str("Surplus")));
    t.push((String::from_str("widget.show_cost"), String::from_str("Cost")));
    t.push((String::from_str("widget.show_energy"), String::from_str("Energy")));
    t.push((String::from_str("widget.fan"), String::from_str("Fan")));
    t.push((String::from_str("widget.clock"), String::from_str("Clock")));
    t
}

fn pairs_s7() -> (r: Vec<(String, String)>)
    ensures
        r@.len() == 3,
        forall|i: int|
            0 <= i < 3 ==> (#[trigger] r@[i]).0@ == spec_key_s7(i) && r@[i].1@
                == spec_value_s7(i),
{
    let mut t: Vec<(String, String)> = Vec::new();
    t.push((String::from_str("widget.mem_clock"), String::from_str("Mem Clock")));
    t.push((String::from_str("widget.swap"), String::from_str("Swap")));
    t.push((String::from_str("widget.speed"), String::from_str("Speed")));
    t
}

/// The English key/value pairs, in table order.
#[verifier::rlimit(100)]
pub fn translation_pairs() -> (r: Vec<(String, String)>)
    ensures
        spec_table_matches(r@),
{
    let mut t = pairs_s0();
    let mut s1 = pairs_s1();
    t.append(&mut s1);
    let mut s2 = pairs_s2();
    t.append(&mut s2);
    let mut s3 = pairs_s3();
    t.append(&mut s3);
    let mut s4 = pairs_s4();
    t.append(&mut s4);
    let mut s5 = pairs_s5();
    t.append(&mut s5);
    let mut s6 = pairs_s6();
    t.append(&mut s6);
    let mut s7 = pairs_s7();
    t.append(&mut s7);
    t
}

/// The English translation table, built from [`translation_pairs`].
///
/// The table's content is carried by the contract of `translation_pairs`;
/// the map itself has no stated contract because map contents over string
/// keys are not modelled here.
pub fn get_translations() -> (r: HashMap<String, String>) {
    let pairs = translation_pairs();
    let mut m: HashMap<String, String> = HashMap::new();
    let mut i: usize = 0;
    while i < pairs.len()
        invariant
            0 <= i <= pairs@.len(),
        decreases pairs@.len() - i,
    {
        let (k, v) = (pairs[i].0.clone(), pairs[i].1.clone());
        m.insert(k, v);
        i = i + 1;
    }
    m
}

} // verus!
