//! Telemetry on FreeBSD, computed from what `acpiconf` and `sysctl` gave.

use crate::chain::{classify, outcome_of, outcome_views, resolve, resolve_chain, result_view};
use crate::decimal::{decimal_value, parse_decimal, parse_unsigned, unsigned_value, Decimal};
use crate::error::{
    telemetry_outcome, text_outcome, tool_unavailable, unavailable_tool, BatteryError,
    BatteryErrorView, TelemetryError, TelemetryErrorView,
};
use crate::fields::{
    charging_state, field_error, field_value, has_charging_state, missing_field, parse_field,
    read_field, LineTest,
};
use crate::metrics::{
    first_reading, lemma_first_reading_at, lemma_first_reading_none, load_average,
    memory_usage_percent, parse_load_average, shifted_by, usage_percent,
};
use crate::model::{BatteryCapacity, BatteryInfo, BatteryInfoView, CommandOutcome};
use crate::text::{
    skip_leading, skip_trailing, slice, to_chars, trim, trim_end_of, trim_start_of, trimmed,
    CharClass,
};
use vstd::prelude::*;

verus! {

/// What a run of `sysctl -n` on `name` amounts to: the value without the
/// surrounding white space. A run that could not be started is a failed
/// command, and one that ended in failure means that the system has no such
/// value.
pub open spec fn sysctl_of(name: Seq<char>, outcome: CommandOutcome) -> Result<
    Seq<char>,
    TelemetryErrorView,
> {
    match outcome {
        CommandOutcome::NotStarted { message } => Err(
            TelemetryErrorView::CommandFailed { command: "sysctl -n "@ + name, message: message@ },
        ),
        CommandOutcome::Finished { success, stdout, .. } => if success {
            Ok(trim(stdout@))
        } else {
            Err(TelemetryErrorView::Unavailable { resource: name })
        },
    }
}

/// The value of the kernel state `name`, from what `sysctl -n` on it gave.
pub fn get_sysctl(name: &str, outcome: &CommandOutcome) -> (r: Result<String, TelemetryError>)
    ensures
        text_outcome(r) == sysctl_of(name@, *outcome),
{
    match outcome {
        CommandOutcome::NotStarted { message } => {
            let mut command = "sysctl -n ".to_owned();
            command.append(name);
            Err(TelemetryError::CommandFailed { command, message: message.clone() })
        },
        CommandOutcome::Finished { success, stdout, .. } => {
            if *success {
                Ok(trimmed(stdout.as_str()))
            } else {
                Err(TelemetryError::Unavailable { resource: name.to_owned() })
            }
        },
    }
}

/// The error that reports the value of `name` as not of the expected form.
pub open spec fn value_error(name: Seq<char>, complaint: Seq<char>, value: Seq<char>) -> TelemetryErrorView {
    TelemetryErrorView::ParseError { context: name, message: complaint + value }
}

/// Builds the error that reports the value of `name` as not of the expected
/// form.
pub fn invalid_value(name: &str, complaint: &str, value: &str) -> (e: TelemetryError)
    ensures
        e@ == value_error(name@, complaint@, value@),
{
    let mut message = complaint.to_owned();
    message.append(value);
    TelemetryError::ParseError { context: name.to_owned(), message }
}

/// What a run of `sysctl -n` on `name` amounts to as a decimal number.
pub open spec fn sysctl_decimal_of(name: Seq<char>, outcome: CommandOutcome) -> Result<
    Decimal,
    TelemetryErrorView,
> {
    match sysctl_of(name, outcome) {
        Err(e) => Err(e),
        Ok(value) => match decimal_value(value) {
            Some(number) => Ok(number),
            None => Err(value_error(name, "Cannot parse as decimal: "@, value)),
        },
    }
}

/// The value of the kernel state `name` as a decimal number.
pub fn get_sysctl_decimal(name: &str, outcome: &CommandOutcome) -> (r: Result<
    Decimal,
    TelemetryError,
>)
    ensures
        telemetry_outcome(r) == sysctl_decimal_of(name@, *outcome),
{
    let value = match get_sysctl(name, outcome) {
        Ok(value) => value,
        Err(e) => {
            return Err(e);
        },
    };
    match parse_decimal(&to_chars(value.as_str())) {
        Some(number) => Ok(number),
        None => Err(invalid_value(name, "Cannot parse as decimal: ", value.as_str())),
    }
}

/// What a run of `sysctl -n` on `name` amounts to as an unsigned integer.
pub open spec fn sysctl_u64_of(name: Seq<char>, outcome: CommandOutcome) -> Result<
    u64,
    TelemetryErrorView,
> {
    match sysctl_of(name, outcome) {
        Err(e) => Err(e),
        Ok(value) => match unsigned_value(value) {
            Some(number) => Ok(number),
            None => Err(value_error(name, "Cannot parse as u64: "@, value)),
        },
    }
}

/// The value of the kernel state `name` as an unsigned integer.
pub fn get_sysctl_u64(name: &str, outcome: &CommandOutcome) -> (r: Result<u64, TelemetryError>)
    ensures
        telemetry_outcome(r) == sysctl_u64_of(name@, *outcome),
{
    let value = match get_sysctl(name, outcome) {
        Ok(value) => value,
        Err(e) => {
            return Err(e);
        },
    };
    match parse_unsigned(&to_chars(value.as_str())) {
        Some(number) => Ok(number),
        None => Err(invalid_value(name, "Cannot parse as u64: ", value.as_str())),
    }
}

/// Whether the report of `acpiconf` says that the battery is charging: some
/// line contains `State` and has `charging` as one of its words.
pub open spec fn acpiconf_charging(text: Seq<char>) -> bool {
    charging_state(text, LineTest::Contains, "State"@)
}

/// The power draw in watts that a rate in milliwatts stands for; zero where
/// the rate is absent.
pub open spec fn milliwatts(rate: Option<Decimal>) -> Decimal {
    match rate {
        Some(r) => r.shifted(3),
        None => Decimal::zero_value(),
    }
}

/// What the report of `acpiconf -i 0` amounts to. A run that failed makes
/// the tool unavailable; a battery that is charging is reported as such; the
/// remaining capacity is required; the power draw is zero where the report
/// states no rate.
pub open spec fn acpiconf_battery_of(outcome: CommandOutcome) -> Result<
    BatteryInfoView,
    BatteryErrorView,
> {
    if !outcome.succeeded() {
        Err(tool_unavailable("acpiconf"@))
    } else if acpiconf_charging(outcome.output()) {
        Err(BatteryErrorView::Charging)
    } else {
        match field_value(outcome.output(), "Remaining capacity"@) {
            None => Err(field_error("Remaining capacity"@)),
            Some(percentage) => Ok(
                BatteryInfo::reading(
                    percentage,
                    milliwatts(field_value(outcome.output(), "Present rate"@)),
                    "acpiconf"@,
                ),
            ),
        }
    }
}

/// Parses a numeric field of the report of `acpiconf`.
pub fn parse_acpiconf_field(text: &str, field_name: &str) -> (r: Result<Decimal, BatteryError>)
    ensures
        match field_value(text@, field_name@) {
            Some(value) => r matches Ok(v) && v == value,
            None => r matches Err(e) && e@ == field_error(field_name@),
        },
{
    parse_field(text, field_name)
}

/// The battery reading of `acpiconf`, from what `acpiconf -i 0` gave.
pub fn acpiconf_battery(outcome: &CommandOutcome) -> (r: Result<BatteryInfo, BatteryError>)
    ensures
        result_view(r) == acpiconf_battery_of(*outcome),
        r matches Ok(reading) ==> reading@.well_formed(),
{
    let stdout = match outcome {
        CommandOutcome::Finished { success, stdout, .. } => {
            if !*success {
                return Err(unavailable_tool("acpiconf"));
            }
            stdout
        },
        CommandOutcome::NotStarted { .. } => {
            return Err(unavailable_tool("acpiconf"));
        },
    };
    let chars = to_chars(stdout.as_str());
    if has_charging_state(&chars, LineTest::Contains, &to_chars("State")) {
        return Err(BatteryError::Charging);
    }
    let percentage = match read_field(&chars, &to_chars("Remaining capacity")) {
        Some(percentage) => percentage,
        None => {
            return Err(missing_field("Remaining capacity"));
        },
    };
    let watts = match read_field(&chars, &to_chars("Present rate")) {
        Some(rate) => rate.scaled_down(3),
        None => Decimal::zero(),
    };
    Ok(BatteryInfo::new(percentage, watts, "acpiconf"))
}

/// What the battery state of the kernel amounts to. The charge, the value
/// of `hw.acpi.battery.life`, is required; the rate, the value of
/// `hw.acpi.battery.rate` in milliwatts, counts as zero where it is missing.
pub open spec fn sysctl_battery_of(life: CommandOutcome, rate: CommandOutcome) -> Result<
    BatteryInfoView,
    BatteryErrorView,
> {
    match sysctl_decimal_of("hw.acpi.battery.life"@, life) {
        Err(_) => Err(tool_unavailable("sysctl battery"@)),
        Ok(percentage) => Ok(
            BatteryInfo::reading(
                percentage,
                match sysctl_decimal_of("hw.acpi.battery.rate"@, rate) {
                    Ok(r) => r.shifted(3),
                    Err(_) => Decimal::zero_value(),
                },
                "sysctl"@,
            ),
        ),
    }
}

/// The battery reading of the kernel state, from what `sysctl -n` on
/// `hw.acpi.battery.life` and on `hw.acpi.battery.rate` gave.
pub fn sysctl_battery(life: &CommandOutcome, rate: &CommandOutcome) -> (r: Result<
    BatteryInfo,
    BatteryError,
>)
    ensures
        result_view(r) == sysctl_battery_of(*life, *rate),
        r matches Ok(reading) ==> reading@.well_formed(),
{
    let percentage = match get_sysctl_decimal("hw.acpi.battery.life", life) {
        Ok(percentage) => percentage,
        Err(_) => {
            return Err(unavailable_tool("sysctl battery"));
        },
    };
    let watts = match get_sysctl_decimal("hw.acpi.battery.rate", rate) {
        Ok(milliwatts) => milliwatts.scaled_down(3),
        Err(_) => Decimal::zero(),
    };
    Ok(BatteryInfo::new(percentage, watts, "sysctl"))
}

/// The battery reading of the system: `acpiconf` is asked first and the
/// kernel state second. A reading of `acpiconf` is final, and so is a
/// charging battery; any other failure of `acpiconf` lets the kernel state
/// decide, and a failure of both that is not a charging battery is reported
/// as `NotFound`.
pub fn get_battery_info(
    acpiconf: Result<BatteryInfo, BatteryError>,
    sysctl: Result<BatteryInfo, BatteryError>,
) -> (r: Result<BatteryInfo, BatteryError>)
    ensures
        result_view(r) == resolve(
            seq![outcome_of(result_view(acpiconf)), outcome_of(result_view(sysctl))],
        ),
{
    let mut outcomes = Vec::new();
    outcomes.push(classify(acpiconf));
    outcomes.push(classify(sysctl));
    assert(outcome_views(outcomes@) =~= seq![
        outcome_of(result_view(acpiconf)),
        outcome_of(result_view(sysctl)),
    ]);
    resolve_chain(outcomes)
}

/// What the value of `vm.loadavg` amounts to: the first number behind the
/// opening brace, or the error that says why there is none.
pub open spec fn cpu_load_of(outcome: CommandOutcome) -> Result<Decimal, TelemetryErrorView> {
    match sysctl_of("vm.loadavg"@, outcome) {
        Err(e) => Err(e),
        Ok(value) => match load_average(trim_start_of(value, CharClass::Char('{'))) {
            Some(load) => Ok(load),
            None => Err(value_error("vm.loadavg"@, "Invalid format: "@, value)),
        },
    }
}

/// The one-minute load average, from what `sysctl -n vm.loadavg` gave.
pub fn get_cpu_load(outcome: &CommandOutcome) -> (r: Result<Decimal, TelemetryError>)
    ensures
        telemetry_outcome(r) == cpu_load_of(*outcome),
{
    let value = match get_sysctl("vm.loadavg", outcome) {
        Ok(value) => value,
        Err(e) => {
            return Err(e);
        },
    };
    let chars = to_chars(value.as_str());
    let start = skip_leading(&chars, 0, chars.len(), CharClass::Char('{'));
    let body = slice(&chars, start, chars.len());
    assert(chars@.subrange(0, chars.len() as int) == chars@);
    match parse_load_average(&body) {
        Some(load) => Ok(load),
        None => Err(invalid_value("vm.loadavg", "Invalid format: ", value.as_str())),
    }
}

/// What the page counts of the kernel amount to: the share of pages that are
/// not free, in percent, or the error of the first count that is missing.
pub open spec fn memory_usage_of(page_count: CommandOutcome, free_count: CommandOutcome) -> Result<
    Decimal,
    TelemetryErrorView,
> {
    match sysctl_u64_of("vm.stats.vm.v_page_count"@, page_count) {
        Err(e) => Err(e),
        Ok(total) => match sysctl_u64_of("vm.stats.vm.v_free_count"@, free_count) {
            Err(e) => Err(e),
            Ok(free) => Ok(usage_percent(total, free)),
        },
    }
}

/// The share of memory in use, in percent, from what `sysctl -n` on
/// `vm.stats.vm.v_page_count` and on `vm.stats.vm.v_free_count` gave.
pub fn get_memory_usage(page_count: &CommandOutcome, free_count: &CommandOutcome) -> (r: Result<
    Decimal,
    TelemetryError,
>)
    ensures
        telemetry_outcome(r) == memory_usage_of(*page_count, *free_count),
        r matches Ok(pct) ==> pct.within_percent(),
{
    let total = match get_sysctl_u64("vm.stats.vm.v_page_count", page_count) {
        Ok(total) => total,
        Err(e) => {
            return Err(e);
        },
    };
    let free = match get_sysctl_u64("vm.stats.vm.v_free_count", free_count) {
        Ok(free) => free,
        Err(e) => {
            return Err(e);
        },
    };
    Ok(memory_usage_percent(total, free))
}

/// The temperature in degrees Celsius that a value such as `45.0C` states:
/// the value without its trailing unit letter, read as a number.
pub open spec fn celsius_value(value: Seq<char>) -> Option<Decimal> {
    decimal_value(trim_end_of(value, CharClass::Char('C')))
}

/// Reads a temperature such as `45.0C`.
pub fn parse_celsius(value: &Vec<char>) -> (r: Option<Decimal>)
    ensures
        r == celsius_value(value@),
{
    let end = skip_trailing(value, 0, value.len(), CharClass::Char('C'));
    let numeral = slice(value, 0, end);
    assert(value@.subrange(0, value.len() as int) == value@);
    parse_decimal(&numeral)
}

/// What the value of `dev.cpu.0.temperature` amounts to.
pub open spec fn cpu_temperature_of(outcome: CommandOutcome) -> Result<Decimal, TelemetryErrorView> {
    match sysctl_of("dev.cpu.0.temperature"@, outcome) {
        Err(e) => Err(e),
        Ok(value) => match celsius_value(value) {
            Some(celsius) => Ok(celsius),
            None => Err(
                value_error("dev.cpu.0.temperature"@, "Invalid temperature format: "@, value),
            ),
        },
    }
}

/// The temperature of the processor, from what
/// `sysctl -n dev.cpu.0.temperature` gave.
pub fn get_cpu_temperature(outcome: &CommandOutcome) -> (r: Result<Decimal, TelemetryError>)
    ensures
        telemetry_outcome(r) == cpu_temperature_of(*outcome),
{
    let value = match get_sysctl("dev.cpu.0.temperature", outcome) {
        Ok(value) => value,
        Err(e) => {
            return Err(e);
        },
    };
    match parse_celsius(&to_chars(value.as_str())) {
        Some(celsius) => Ok(celsius),
        None => Err(
            invalid_value("dev.cpu.0.temperature", "Invalid temperature format: ", value.as_str()),
        ),
    }
}

/// The names of the kernel states that hold the temperatures of the ACPI
/// thermal zones, the one to ask first in front.
pub open spec fn thermal_zone_names() -> Seq<Seq<char>> {
    seq![
        "hw.acpi.thermal.tz0.temperature"@,
        "hw.acpi.thermal.tz1.temperature"@,
        "dev.acpi_tz.0.temperature"@,
    ]
}

/// Returns the names of the kernel states that hold the temperatures of the
/// ACPI thermal zones, in the order they are asked.
pub fn acpi_thermal_sysctls() -> (names: Vec<&'static str>)
    ensures
        names@.len() == thermal_zone_names().len(),
        forall|i: int| 0 <= i < names@.len() ==> (#[trigger] names@[i])@ == thermal_zone_names()[i],
{
    let mut names: Vec<&'static str> = Vec::new();
    names.push("hw.acpi.thermal.tz0.temperature");
    names.push("hw.acpi.thermal.tz1.temperature");
    names.push("dev.acpi_tz.0.temperature");
    names
}

/// The temperature that one thermal zone states: its value could be had,
/// and is a number above zero.
pub open spec fn zone_reading(outcome: CommandOutcome) -> Option<Decimal> {
    if outcome.succeeded() && celsius_value(trim(outcome.output())) is Some && celsius_value(
        trim(outcome.output()),
    )->0.positive() {
        celsius_value(trim(outcome.output()))
    } else {
        None
    }
}

/// What each of the thermal zones states, in order.
pub open spec fn zone_readings(zones: Seq<CommandOutcome>) -> Seq<Option<Decimal>> {
    zones.map_values(|outcome: CommandOutcome| zone_reading(outcome))
}

/// Reads one thermal zone.
pub fn read_zone(outcome: &CommandOutcome) -> (r: Option<Decimal>)
    ensures
        r == zone_reading(*outcome),
{
    match outcome {
        CommandOutcome::Finished { success, stdout, .. } => {
            if !*success {
                return None;
            }
            let value = trimmed(stdout.as_str());
            match parse_celsius(&to_chars(value.as_str())) {
                Some(celsius) => if celsius.is_positive() {
                    Some(celsius)
                } else {
                    None
                },
                None => None,
            }
        },
        CommandOutcome::NotStarted { .. } => None,
    }
}

/// What the thermal zones amount to: the temperature of the first zone that
/// states one, or the news that there is no thermal sensor.
pub open spec fn acpi_thermal_of(zones: Seq<CommandOutcome>) -> Result<Decimal, TelemetryErrorView> {
    match first_reading(zone_readings(zones)) {
        Some(celsius) => Ok(celsius),
        None => Err(TelemetryErrorView::Unavailable { resource: "thermal sensors"@ }),
    }
}

/// The temperature of the first ACPI thermal zone that states one, from what
/// `sysctl -n` on each of the zones gave, in the order of
/// `acpi_thermal_sysctls`.
pub fn get_acpi_thermal_temperature(zones: &Vec<CommandOutcome>) -> (r: Result<
    Decimal,
    TelemetryError,
>)
    ensures
        telemetry_outcome(r) == acpi_thermal_of(zones@),
{
    let mut i: usize = 0;
    while i < zones.len()
        invariant
            i <= zones.len(),
            forall|k: int| 0 <= k < i ==> #[trigger] zone_readings(zones@)[k] is None,
        decreases zones.len() - i,
    {
        let reading = read_zone(&zones[i]);
        assert(zone_readings(zones@)[i as int] == zone_reading(zones@[i as int]));
        if let Some(celsius) = reading {
            proof {
                lemma_first_reading_at(zone_readings(zones@), i as int);
            }
            return Ok(celsius);
        }
        i += 1;
    }
    proof {
        lemma_first_reading_none(zone_readings(zones@));
    }
    Err(TelemetryError::Unavailable { resource: "thermal sensors".to_owned() })
}

/// The temperature of the system: that of the processor where it can be
/// had, and that of the ACPI thermal zones otherwise.
pub open spec fn temperature_of(cpu: CommandOutcome, zones: Seq<CommandOutcome>) -> Result<
    Decimal,
    TelemetryErrorView,
> {
    match cpu_temperature_of(cpu) {
        Ok(celsius) => Ok(celsius),
        Err(_) => acpi_thermal_of(zones),
    }
}

/// The temperature of the system in degrees Celsius, from what the
/// processor's sensor and the ACPI thermal zones gave.
pub fn get_temperature(cpu: &CommandOutcome, zones: &Vec<CommandOutcome>) -> (r: Result<
    Decimal,
    TelemetryError,
>)
    ensures
        telemetry_outcome(r) == temperature_of(*cpu, zones@),
{
    match get_cpu_temperature(cpu) {
        Ok(celsius) => Ok(celsius),
        Err(_) => get_acpi_thermal_temperature(zones),
    }
}

/// A capacity in watt-hours, given in milliwatt-hours; never negative.
pub open spec fn milliwatt_hours(value: Option<Decimal>) -> Option<Decimal> {
    crate::metrics::not_below_zero(shifted_by(value, 3))
}

/// What the report of `acpiconf -i 0` states of the capacity. A run that
/// could not be started or that ended in failure, and a report that states
/// neither capacity, all mean that there is none.
pub open spec fn capacity_of(outcome: CommandOutcome) -> Option<BatteryCapacity> {
    match outcome {
        CommandOutcome::NotStarted { .. } => None,
        CommandOutcome::Finished { success, stdout, .. } => if success {
            BatteryCapacity {
                design_wh: milliwatt_hours(field_value(stdout@, "Design capacity"@)),
                full_wh: milliwatt_hours(field_value(stdout@, "Last full capacity"@)),
            }.non_empty()
        } else {
            None
        },
    }
}

/// Reads a capacity that the report gives in milliwatt-hours.
pub fn read_milliwatt_hours(text: &Vec<char>, field: &str) -> (r: Option<Decimal>)
    ensures
        r == milliwatt_hours(field_value(text@, field@)),
{
    match read_field(text, &to_chars(field)) {
        Some(value) => Some(value.scaled_down(3).clamp_non_negative()),
        None => None,
    }
}

/// The capacity of the battery, if `acpiconf` states one, from what
/// `acpiconf -i 0` gave. This never fails: the capacity is a supplement,
/// and where the tool gives none there is none.
pub fn get_battery_capacity(outcome: &CommandOutcome) -> (r: Result<
    Option<BatteryCapacity>,
    BatteryError,
>)
    ensures
        r matches Ok(capacity) && capacity == capacity_of(*outcome),
{
    let stdout = match outcome {
        CommandOutcome::Finished { success, stdout, .. } => {
            if !*success {
                return Ok(None);
            }
            stdout
        },
        CommandOutcome::NotStarted { .. } => {
            return Ok(None);
        },
    };
    let chars = to_chars(stdout.as_str());
    let capacity = BatteryCapacity {
        design_wh: read_milliwatt_hours(&chars, "Design capacity"),
        full_wh: read_milliwatt_hours(&chars, "Last full capacity"),
    };
    Ok(capacity.into_option())
}

} // verus!
