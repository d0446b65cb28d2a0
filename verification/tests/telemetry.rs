use batlab::chain::Platform;
use batlab::decimal::Decimal;
use batlab::error::{BatteryError, TelemetryError};
use batlab::model::{BatteryInfo, CommandOutcome, Timestamp};
use batlab::run_id::{format_run_id, generate_run_id, parse_run_id_fallback};
use batlab::telemetry::{collect_telemetry, get_command_output};
use batlab::unsupported_telemetry::{
    get_battery_capacity, get_battery_info, get_cpu_load, get_memory_usage, get_temperature,
};

fn decimal(mantissa: i64, scale: u32) -> Decimal {
    Decimal { mantissa, scale }
}

fn unavailable() -> TelemetryError {
    TelemetryError::Unavailable { resource: "sensor".to_string() }
}

#[test]
fn test_run_id_generation() {
    let config = "test-config";
    let workload = Some("idle");

    let run_id = generate_run_id(1_736_937_045, "laptop", Platform::Linux, config, workload).unwrap();

    assert!(run_id.contains(config));
    assert!(run_id.contains("idle"));

    let parts: Vec<&str> = run_id.split('_').collect();
    assert!(parts.len() >= 4);
}

#[test]
fn run_id_starts_with_the_utc_time() {
    assert_eq!(
        generate_run_id(0, "host", Platform::FreeBsd, "base", None).unwrap(),
        "1970-01-01T00:00:00Z_host_FreeBSD_base"
    );
    assert_eq!(
        generate_run_id(1_736_937_045, "laptop", Platform::Linux, "tuned", Some("idle")).unwrap(),
        "2025-01-15T10:30:45Z_laptop_Linux_tuned_idle"
    );
    assert_eq!(
        generate_run_id(-1, "h", Platform::Unsupported, "c", None).unwrap(),
        "1969-12-31T23:59:59Z_h_Unknown_c"
    );
    assert_eq!(generate_run_id(i64::MAX, "h", Platform::Linux, "c", None), None);
    assert_eq!(format_run_id("t", "h", "o", "c", Some("w")), "t_h_o_c_w");
    assert_eq!(format_run_id("t", "h", "o", "c", None), "t_h_o_c");
}

#[test]
fn run_id_parts_are_read_back() {
    assert_eq!(
        parse_run_id_fallback("2025-01-15T10:30:45Z_laptop_Linux_tuned"),
        ("tuned".to_string(), None, "Linux".to_string())
    );
    assert_eq!(
        parse_run_id_fallback("2025-01-15T10:30:45Z_laptop_FreeBSD_tuned_idle"),
        ("tuned".to_string(), Some("idle".to_string()), "FreeBSD".to_string())
    );
    assert_eq!(
        parse_run_id_fallback("a_b_c"),
        ("unknown".to_string(), None, "unknown".to_string())
    );
    assert_eq!(
        parse_run_id_fallback("a_b_c_d_e_f"),
        ("unknown".to_string(), None, "unknown".to_string())
    );
    assert_eq!(parse_run_id_fallback(""), ("unknown".to_string(), None, "unknown".to_string()));
    assert_eq!(parse_run_id_fallback("___"), (String::new(), None, String::new()));
    let id = generate_run_id(1_736_937_045, "laptop", Platform::Linux, "tuned", Some("idle")).unwrap();
    assert_eq!(
        parse_run_id_fallback(&id),
        ("tuned".to_string(), Some("idle".to_string()), "Linux".to_string())
    );
}

#[test]
fn test_unsupported_functions_return_errors() {
    assert!(get_battery_info().is_err());
    assert!(get_cpu_load().is_err());
    assert!(get_memory_usage().is_err());
    assert!(get_temperature().is_err());

    assert_eq!(get_battery_capacity().unwrap(), None);
}

#[test]
fn unsupported_platform_names_what_is_missing() {
    assert!(matches!(get_battery_info(), Err(BatteryError::NotFound)));
    match get_cpu_load() {
        Err(TelemetryError::Unavailable { resource }) => {
            assert_eq!(resource, "CPU load on unsupported platform")
        }
        other => panic!("unexpected {:?}", other),
    }
    match get_memory_usage() {
        Err(TelemetryError::Unavailable { resource }) => {
            assert_eq!(resource, "Memory usage on unsupported platform")
        }
        other => panic!("unexpected {:?}", other),
    }
    match get_temperature() {
        Err(TelemetryError::Unavailable { resource }) => {
            assert_eq!(resource, "Temperature sensors on unsupported platform")
        }
        other => panic!("unexpected {:?}", other),
    }
}

#[test]
fn sample_needs_the_battery_only() {
    let timestamp = Timestamp { seconds: 1_736_937_045, nanoseconds: 500 };
    let battery = BatteryInfo::new(decimal(85, 0), decimal(845, 2), "upower");
    let sample = collect_telemetry(
        timestamp,
        Ok(battery),
        Err(unavailable()),
        Err(unavailable()),
        Err(unavailable()),
    )
    .unwrap();
    assert_eq!(sample.timestamp, timestamp);
    assert_eq!(sample.percentage, decimal(85, 0));
    assert_eq!(sample.watts, decimal(845, 2));
    assert_eq!(sample.cpu_load, decimal(0, 0));
    assert_eq!(sample.ram_pct, decimal(0, 0));
    assert_eq!(sample.temp_c, decimal(0, 0));
    assert_eq!(sample.source, "upower");
}

#[test]
fn sample_fails_with_the_battery() {
    let timestamp = Timestamp { seconds: 0, nanoseconds: 0 };
    let got = collect_telemetry(
        timestamp,
        Err(BatteryError::Charging),
        Ok(decimal(15, 2)),
        Ok(decimal(500000, 4)),
        Ok(decimal(45000, 3)),
    );
    assert!(matches!(got, Err(TelemetryError::Battery(BatteryError::Charging))));
    let got = collect_telemetry(
        timestamp,
        Err(BatteryError::NotFound),
        Ok(decimal(15, 2)),
        Ok(decimal(500000, 4)),
        Ok(decimal(45000, 3)),
    );
    assert!(matches!(got, Err(TelemetryError::Battery(BatteryError::NotFound))));
}

#[test]
fn sample_holds_every_metric_in_its_range() {
    let timestamp = Timestamp { seconds: 0, nanoseconds: 0 };
    let battery = BatteryInfo {
        percentage: decimal(150, 0),
        watts: decimal(-3, 0),
        source: "hand".to_string(),
    };
    let sample = collect_telemetry(
        timestamp,
        Ok(battery),
        Ok(decimal(-15, 2)),
        Ok(decimal(1200000, 4)),
        Ok(decimal(-5000, 3)),
    )
    .unwrap();
    assert_eq!(sample.percentage, decimal(100, 0));
    assert_eq!(sample.watts, decimal(0, 0));
    assert_eq!(sample.cpu_load, decimal(0, 0));
    assert_eq!(sample.ram_pct, decimal(100, 0));
    assert_eq!(sample.temp_c, decimal(-5000, 3));
    let battery = BatteryInfo::new(decimal(85, 0), decimal(845, 2), "upower");
    let sample = collect_telemetry(
        timestamp,
        Ok(battery),
        Ok(decimal(15, 2)),
        Ok(decimal(500000, 4)),
        Ok(decimal(45000, 3)),
    )
    .unwrap();
    assert_eq!(sample.cpu_load, decimal(15, 2));
    assert_eq!(sample.ram_pct, decimal(500000, 4));
    assert_eq!(sample.temp_c, decimal(45000, 3));
}

#[test]
fn command_output_is_trimmed() {
    let ran = CommandOutcome::Finished {
        success: true,
        stdout: " laptop\n".to_string(),
        stderr: "warning".to_string(),
    };
    assert_eq!(get_command_output("hostname", &[], &ran).unwrap(), "laptop");
    let failed = CommandOutcome::Finished {
        success: false,
        stdout: "x".to_string(),
        stderr: "uname: illegal option\n".to_string(),
    };
    match get_command_output("uname", &["-s", "-r"], &failed) {
        Err(TelemetryError::CommandFailed { command, message }) => {
            assert_eq!(command, "uname -s -r");
            assert_eq!(message, "uname: illegal option\n");
        }
        other => panic!("unexpected {:?}", other),
    }
    let missing = CommandOutcome::NotStarted { message: "not found".to_string() };
    match get_command_output("hostname", &[], &missing) {
        Err(TelemetryError::CommandFailed { command, message }) => {
            assert_eq!(command, "hostname ");
            assert_eq!(message, "not found");
        }
        other => panic!("unexpected {:?}", other),
    }
}

#[test]
fn errors_wrap_their_causes() {
    assert!(matches!(
        TelemetryError::from(BatteryError::Charging),
        TelemetryError::Battery(BatteryError::Charging)
    ));
    let io = std::io::Error::new(std::io::ErrorKind::PermissionDenied, "no");
    assert!(matches!(TelemetryError::from(io), TelemetryError::Io(_)));
    let json = serde_json::from_str::<u8>("x").unwrap_err();
    assert!(matches!(TelemetryError::from(json), TelemetryError::Json(_)));
}
