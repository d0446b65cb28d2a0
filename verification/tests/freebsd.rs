use batlab::decimal::Decimal;
use batlab::error::{BatteryError, TelemetryError};
use batlab::freebsd_telemetry::{
    acpi_thermal_sysctls, acpiconf_battery, get_acpi_thermal_temperature, get_battery_capacity,
    get_cpu_load, get_cpu_temperature, get_memory_usage, get_sysctl, get_sysctl_decimal,
    get_sysctl_u64, get_temperature, sysctl_battery,
};
use batlab::model::CommandOutcome;

fn as_f32(d: Decimal) -> f32 {
    d.mantissa as f32 / 10f32.powi(d.scale as i32)
}

fn ran(stdout: &str) -> CommandOutcome {
    CommandOutcome::Finished { success: true, stdout: stdout.to_string(), stderr: String::new() }
}

fn failed() -> CommandOutcome {
    CommandOutcome::Finished {
        success: false,
        stdout: String::new(),
        stderr: "unknown oid".to_string(),
    }
}

fn not_started() -> CommandOutcome {
    CommandOutcome::NotStarted { message: "No such file or directory".to_string() }
}

const ACPICONF: &str = "Design capacity:\t57040 mWh\nLast full capacity:\t53200 mWh\nTechnology:\t\tsecondary (rechargeable)\nDesign voltage:\t\t11400 mV\nCapacity (warn):\t2660 mWh\nState:\t\t\tdischarging\nRemaining capacity:\t85%\nRemaining time:\t\t3:45\nPresent rate:\t\t12500 mW\nPresent voltage:\t11800 mV\n";

#[test]
fn freebsd_telemetry_test_loadavg_parsing() {
    let loadavg = "{ 0.15 0.20 0.18 }";
    let result = get_cpu_load(&ran(loadavg)).ok().map(as_f32);

    assert_eq!(result, Some(0.15));
}

#[test]
fn load_average_reports_what_it_could_not_read() {
    match get_cpu_load(&ran("{ none }\n")) {
        Err(TelemetryError::ParseError { context, message }) => {
            assert_eq!(context, "vm.loadavg");
            assert_eq!(message, "Invalid format: { none }");
        }
        other => panic!("unexpected {:?}", other),
    }
    assert!(matches!(get_cpu_load(&ran("")), Err(TelemetryError::ParseError { .. })));
    assert!(matches!(get_cpu_load(&failed()), Err(TelemetryError::Unavailable { .. })));
    assert!(matches!(get_cpu_load(&not_started()), Err(TelemetryError::CommandFailed { .. })));
    assert_eq!(get_cpu_load(&ran("{{1.5 2 3}")).unwrap(), Decimal { mantissa: 15, scale: 1 });
    assert_eq!(get_cpu_load(&ran("-1 2 3")).unwrap(), Decimal { mantissa: -1, scale: 0 });
    assert_eq!(get_cpu_load(&ran("{ 2.50 0.20 0.18 }")).unwrap(), Decimal { mantissa: 250, scale: 2 });
}

#[test]
fn sysctl_values_are_trimmed() {
    assert_eq!(get_sysctl("hw.model", &ran("  Intel(R) Core(TM)\n")).unwrap(), "Intel(R) Core(TM)");
    match get_sysctl("hw.model", &failed()) {
        Err(TelemetryError::Unavailable { resource }) => assert_eq!(resource, "hw.model"),
        other => panic!("unexpected {:?}", other),
    }
    match get_sysctl("hw.model", &not_started()) {
        Err(TelemetryError::CommandFailed { command, message }) => {
            assert_eq!(command, "sysctl -n hw.model");
            assert_eq!(message, "No such file or directory");
        }
        other => panic!("unexpected {:?}", other),
    }
}

#[test]
fn sysctl_numbers_are_parsed_whole() {
    assert_eq!(get_sysctl_u64("vm.stats.vm.v_page_count", &ran("4096000\n")).unwrap(), 4096000);
    match get_sysctl_u64("vm.stats.vm.v_page_count", &ran("4096000 pages\n")) {
        Err(TelemetryError::ParseError { context, message }) => {
            assert_eq!(context, "vm.stats.vm.v_page_count");
            assert_eq!(message, "Cannot parse as u64: 4096000 pages");
        }
        other => panic!("unexpected {:?}", other),
    }
    assert!(matches!(
        get_sysctl_u64("x", &ran("-1")),
        Err(TelemetryError::ParseError { .. })
    ));
    assert_eq!(
        get_sysctl_decimal("hw.acpi.battery.life", &ran("85\n")).unwrap(),
        Decimal { mantissa: 85, scale: 0 }
    );
    match get_sysctl_decimal("hw.acpi.battery.life", &ran("n/a")) {
        Err(TelemetryError::ParseError { context, message }) => {
            assert_eq!(context, "hw.acpi.battery.life");
            assert_eq!(message, "Cannot parse as decimal: n/a");
        }
        other => panic!("unexpected {:?}", other),
    }
}

#[test]
fn acpiconf_gives_charge_and_power() {
    let info = acpiconf_battery(&ran(ACPICONF)).unwrap();
    assert_eq!(as_f32(info.percentage), 85.0);
    assert_eq!(as_f32(info.watts), 12.5);
    assert_eq!(info.watts, Decimal { mantissa: 12500, scale: 3 });
    assert_eq!(info.source, "acpiconf");
}

#[test]
fn acpiconf_idle_rate_is_zero() {
    let idle = ACPICONF.replace("12500 mW", "0 mW");
    assert_eq!(as_f32(acpiconf_battery(&ran(&idle)).unwrap().watts), 0.0);
    let unknown = ACPICONF.replace("Present rate:\t\t12500 mW", "Present rate:\t\tunknown");
    let info = acpiconf_battery(&ran(&unknown)).unwrap();
    assert_eq!(info.watts, Decimal { mantissa: 0, scale: 0 });
    let negative = ACPICONF.replace("12500 mW", "-1 mW");
    assert_eq!(acpiconf_battery(&ran(&negative)).unwrap().watts, Decimal { mantissa: 0, scale: 0 });
}

#[test]
fn acpiconf_charging_is_told_from_discharging() {
    let charging = ACPICONF.replace("discharging", "charging");
    assert!(matches!(acpiconf_battery(&ran(&charging)), Err(BatteryError::Charging)));
    assert!(acpiconf_battery(&ran(ACPICONF)).is_ok());
    let high = ACPICONF.replace("discharging", "high");
    assert!(acpiconf_battery(&ran(&high)).is_ok());
}

#[test]
fn acpiconf_failures_are_soft() {
    match acpiconf_battery(&not_started()) {
        Err(BatteryError::ToolUnavailable { tool }) => assert_eq!(tool, "acpiconf"),
        other => panic!("unexpected {:?}", other),
    }
    assert!(matches!(acpiconf_battery(&failed()), Err(BatteryError::ToolUnavailable { .. })));
    match acpiconf_battery(&ran("State:\t\t\tdischarging\n")) {
        Err(BatteryError::ParseError { field, value }) => {
            assert_eq!(field, "Remaining capacity");
            assert_eq!(value, "not found or invalid");
        }
        other => panic!("unexpected {:?}", other),
    }
}

#[test]
fn sysctl_battery_defaults_the_rate() {
    let info = sysctl_battery(&ran("72\n"), &ran("9800\n")).unwrap();
    assert_eq!(as_f32(info.percentage), 72.0);
    assert_eq!(as_f32(info.watts), 9.8);
    assert_eq!(info.source, "sysctl");
    let info = sysctl_battery(&ran("72\n"), &failed()).unwrap();
    assert_eq!(as_f32(info.watts), 0.0);
    let info = sysctl_battery(&ran("72\n"), &ran("-1\n")).unwrap();
    assert_eq!(as_f32(info.watts), 0.0);
    match sysctl_battery(&failed(), &ran("9800\n")) {
        Err(BatteryError::ToolUnavailable { tool }) => assert_eq!(tool, "sysctl battery"),
        other => panic!("unexpected {:?}", other),
    }
    assert!(matches!(
        sysctl_battery(&ran("full"), &ran("9800\n")),
        Err(BatteryError::ToolUnavailable { .. })
    ));
}

#[test]
fn memory_usage_counts_pages_that_are_not_free() {
    let pct = get_memory_usage(&ran("1000\n"), &ran("250\n")).unwrap();
    assert_eq!(pct, Decimal { mantissa: 750000, scale: 4 });
    assert_eq!(as_f32(pct), 75.0);
    assert_eq!(as_f32(get_memory_usage(&ran("0\n"), &ran("250\n")).unwrap()), 0.0);
    assert_eq!(as_f32(get_memory_usage(&ran("100\n"), &ran("250\n")).unwrap()), 0.0);
    assert_eq!(
        get_memory_usage(&ran("3\n"), &ran("2\n")).unwrap(),
        Decimal { mantissa: 333333, scale: 4 }
    );
    match get_memory_usage(&failed(), &ran("250\n")) {
        Err(TelemetryError::Unavailable { resource }) => {
            assert_eq!(resource, "vm.stats.vm.v_page_count")
        }
        other => panic!("unexpected {:?}", other),
    }
    match get_memory_usage(&ran("1000\n"), &failed()) {
        Err(TelemetryError::Unavailable { resource }) => {
            assert_eq!(resource, "vm.stats.vm.v_free_count")
        }
        other => panic!("unexpected {:?}", other),
    }
}

#[test]
fn temperature_strips_the_unit_letter() {
    assert_eq!(as_f32(get_cpu_temperature(&ran("45.0C\n")).unwrap()), 45.0);
    assert_eq!(
        get_cpu_temperature(&ran("-3.5C\n")).unwrap(),
        Decimal { mantissa: -35, scale: 1 }
    );
    match get_cpu_temperature(&ran("hot\n")) {
        Err(TelemetryError::ParseError { context, message }) => {
            assert_eq!(context, "dev.cpu.0.temperature");
            assert_eq!(message, "Invalid temperature format: hot");
        }
        other => panic!("unexpected {:?}", other),
    }
}

#[test]
fn thermal_zones_are_asked_in_order() {
    assert_eq!(
        acpi_thermal_sysctls(),
        vec![
            "hw.acpi.thermal.tz0.temperature",
            "hw.acpi.thermal.tz1.temperature",
            "dev.acpi_tz.0.temperature"
        ]
    );
    let zones = vec![failed(), ran("0.0C\n"), ran("51.1C\n")];
    assert_eq!(as_f32(get_acpi_thermal_temperature(&zones).unwrap()), 51.1);
    let zones = vec![ran("40.0C\n"), ran("51.1C\n")];
    assert_eq!(as_f32(get_acpi_thermal_temperature(&zones).unwrap()), 40.0);
    match get_acpi_thermal_temperature(&vec![failed(), not_started(), ran("warm")]) {
        Err(TelemetryError::Unavailable { resource }) => assert_eq!(resource, "thermal sensors"),
        other => panic!("unexpected {:?}", other),
    }
    assert_eq!(as_f32(get_temperature(&ran("45.0C"), &zones).unwrap()), 45.0);
    assert_eq!(as_f32(get_temperature(&failed(), &zones).unwrap()), 40.0);
    assert!(get_temperature(&failed(), &Vec::new()).is_err());
}

#[test]
fn capacity_is_converted_to_watt_hours() {
    let capacity = get_battery_capacity(&ran(ACPICONF)).unwrap().unwrap();
    assert_eq!(capacity.design_wh, Some(Decimal { mantissa: 57040, scale: 3 }));
    assert_eq!(as_f32(capacity.design_wh.unwrap()), 57.04);
    assert_eq!(as_f32(capacity.full_wh.unwrap()), 53.2);
    let partial = get_battery_capacity(&ran("Design capacity:\t57040 mWh\n")).unwrap().unwrap();
    assert_eq!(as_f32(partial.design_wh.unwrap()), 57.04);
    assert_eq!(partial.full_wh, None);
    assert_eq!(get_battery_capacity(&ran("State: high\n")).unwrap(), None);
    assert_eq!(get_battery_capacity(&failed()).unwrap(), None);
    assert_eq!(get_battery_capacity(&not_started()).unwrap(), None);
}
