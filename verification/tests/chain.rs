use batlab::chain::{
    battery_sources, begin_chain, classify, continue_chain, resolve_chain, BatterySource, ChainStep,
    Platform, SourceOutcome,
};
use batlab::decimal::Decimal;
use batlab::error::BatteryError;
use batlab::model::BatteryInfo;

fn reading(percent: i64, source: &str) -> BatteryInfo {
    BatteryInfo::new(
        Decimal { mantissa: percent, scale: 0 },
        Decimal { mantissa: 845, scale: 2 },
        source,
    )
}

#[test]
fn sources_come_in_order_of_priority() {
    assert_eq!(
        battery_sources(Platform::FreeBsd),
        vec![BatterySource::Acpiconf, BatterySource::Sysctl]
    );
    assert_eq!(battery_sources(Platform::Linux), vec![BatterySource::Upower, BatterySource::Sysfs]);
    assert!(battery_sources(Platform::Unsupported).is_empty());
    assert_eq!(BatterySource::Acpiconf.name(), "acpiconf");
    assert_eq!(BatterySource::Sysctl.name(), "sysctl");
    assert_eq!(BatterySource::Upower.name(), "upower");
    assert_eq!(BatterySource::Sysfs.name(), "sysfs");
}

#[test]
fn second_source_answers_when_the_first_fails_softly() {
    let first = Err(BatteryError::ToolUnavailable { tool: "upower".to_string() });
    let second = Ok(reading(85, "sysfs"));
    let got = batlab::linux_telemetry::get_battery_info(first, second).unwrap();
    assert_eq!(got.source, "sysfs");
    assert_eq!(got.percentage, Decimal { mantissa: 85, scale: 0 });
    assert_eq!(got.watts, Decimal { mantissa: 845, scale: 2 });
}

#[test]
fn charging_ends_the_chain_at_once() {
    let got = batlab::linux_telemetry::get_battery_info(
        Err(BatteryError::Charging),
        Ok(reading(85, "sysfs")),
    );
    assert!(matches!(got, Err(BatteryError::Charging)));
    let got = batlab::freebsd_telemetry::get_battery_info(
        Err(BatteryError::Charging),
        Ok(reading(85, "sysctl")),
    );
    assert!(matches!(got, Err(BatteryError::Charging)));
    let got = batlab::linux_telemetry::get_battery_info(
        Err(BatteryError::NotFound),
        Err(BatteryError::Charging),
    );
    assert!(matches!(got, Err(BatteryError::Charging)));
}

#[test]
fn first_reading_is_final() {
    let got = batlab::freebsd_telemetry::get_battery_info(
        Ok(reading(50, "acpiconf")),
        Ok(reading(60, "sysctl")),
    )
    .unwrap();
    assert_eq!(got.source, "acpiconf");
    let got = batlab::linux_telemetry::get_battery_info(
        Ok(reading(50, "upower")),
        Err(BatteryError::Charging),
    )
    .unwrap();
    assert_eq!(got.source, "upower");
}

#[test]
fn soft_failures_collapse_to_not_found() {
    let got = batlab::linux_telemetry::get_battery_info(
        Err(BatteryError::ToolUnavailable { tool: "upower".to_string() }),
        Err(BatteryError::PermissionDenied { tool: "x".to_string() }),
    );
    assert!(matches!(got, Err(BatteryError::NotFound)));
    let got = batlab::freebsd_telemetry::get_battery_info(
        Err(BatteryError::ParseError { field: "f".to_string(), value: "v".to_string() }),
        Err(BatteryError::NotFound),
    );
    assert!(matches!(got, Err(BatteryError::NotFound)));
    assert!(matches!(resolve_chain(Vec::new()), Err(BatteryError::NotFound)));
}

#[test]
fn outcomes_are_classified() {
    assert!(matches!(classify(Ok(reading(1, "s"))), SourceOutcome::Success(_)));
    assert!(matches!(
        classify(Err(BatteryError::Charging)),
        SourceOutcome::HardStop(BatteryError::Charging)
    ));
    assert!(matches!(classify(Err(BatteryError::NotFound)), SourceOutcome::SoftFail));
    assert!(matches!(
        classify(Err(BatteryError::ToolUnavailable { tool: "t".to_string() })),
        SourceOutcome::SoftFail
    ));
}

#[test]
fn longer_chains_resolve_to_the_first_decisive_outcome() {
    let got = resolve_chain(vec![
        SourceOutcome::SoftFail,
        SourceOutcome::SoftFail,
        SourceOutcome::Success(reading(7, "third")),
        SourceOutcome::HardStop(BatteryError::Charging),
    ])
    .unwrap();
    assert_eq!(got.source, "third");
    let got = resolve_chain(vec![
        SourceOutcome::SoftFail,
        SourceOutcome::HardStop(BatteryError::Charging),
        SourceOutcome::Success(reading(7, "third")),
    ]);
    assert!(matches!(got, Err(BatteryError::Charging)));
}

#[test]
fn chain_is_worked_through_step_by_step() {
    assert!(matches!(begin_chain(Platform::Linux), ChainStep::Probe(BatterySource::Upower)));
    assert!(matches!(begin_chain(Platform::FreeBsd), ChainStep::Probe(BatterySource::Acpiconf)));
    assert!(matches!(
        begin_chain(Platform::Unsupported),
        ChainStep::Done(Err(BatteryError::NotFound))
    ));
    assert!(matches!(
        continue_chain(Platform::Linux, 1, SourceOutcome::SoftFail),
        ChainStep::Probe(BatterySource::Sysfs)
    ));
    assert!(matches!(
        continue_chain(Platform::Linux, 2, SourceOutcome::SoftFail),
        ChainStep::Done(Err(BatteryError::NotFound))
    ));
    assert!(matches!(
        continue_chain(Platform::Linux, 1, SourceOutcome::HardStop(BatteryError::Charging)),
        ChainStep::Done(Err(BatteryError::Charging))
    ));
    match continue_chain(Platform::FreeBsd, 1, SourceOutcome::Success(reading(9, "acpiconf"))) {
        ChainStep::Done(Ok(info)) => assert_eq!(info.source, "acpiconf"),
        other => panic!("unexpected {:?}", other),
    }
}

#[test]
fn readings_are_brought_into_range() {
    let info = BatteryInfo::new(
        Decimal { mantissa: 1015, scale: 1 },
        Decimal { mantissa: -1, scale: 3 },
        "sysctl",
    );
    assert_eq!(info.percentage, Decimal { mantissa: 100, scale: 0 });
    assert_eq!(info.watts, Decimal { mantissa: 0, scale: 0 });
    let info = BatteryInfo::new(
        Decimal { mantissa: -5, scale: 0 },
        Decimal { mantissa: 12500, scale: 3 },
        "acpiconf",
    );
    assert_eq!(info.percentage, Decimal { mantissa: 0, scale: 0 });
    assert_eq!(info.watts, Decimal { mantissa: 12500, scale: 3 });
    let info = BatteryInfo::new(
        Decimal { mantissa: 10000, scale: 2 },
        Decimal { mantissa: 0, scale: 0 },
        "upower",
    );
    assert_eq!(info.percentage, Decimal { mantissa: 10000, scale: 2 });
}
