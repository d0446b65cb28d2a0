//! Telemetry on Linux, computed from what `upower`, the `power_supply`,
//! `thermal` and `hwmon` classes of sysfs, `/proc/loadavg` and
//! `/proc/meminfo` gave.

use crate::chain::{classify, outcome_of, resolve, resolve_chain, result_view};
use crate::decimal::{parse_unsigned, unsigned_value, Decimal};
use crate::error::{
    battery_outcome, telemetry_outcome, tool_unavailable, unavailable_tool, BatteryError,
    BatteryErrorView, TelemetryError, TelemetryErrorView,
};
use crate::fields::{
    charging_status, contains_charging_state, field_error, find_line, first_line,
    is_charging_status, missing_field, number_in, parse_number, upower_charging, LineTest,
};
use crate::metrics::{
    attribute_value, first_reading, lemma_first_reading_at, lemma_first_reading_none, load_average,
    memory_usage_percent, millicelsius_reading, not_below_zero, parse_attribute,
    parse_load_average, parse_millicelsius, shifted_by, usage_percent,
};
use crate::model::{text_of, BatteryCapacity, BatteryInfo, BatteryInfoView, CommandOutcome};
use crate::text::{
    ends_with, ends_with_chars, line_spans, lines, occurs_at_index, span_texts, split, split_chars,
    split_lines, split_words, starts_with, to_chars, trim, trimmed, views, words, CharClass,
};
use vstd::prelude::*;

verus! {

/// One entry of a sensor directory: its name and, where the sensor file
/// could be read, what the file holds.
#[derive(Debug, Clone)]
pub struct SensorEntry {
    pub name: String,
    pub content: Option<String>,
}

/// One device of the `hwmon` class: its sensor files, where the device's
/// directory could be listed.
#[derive(Debug, Clone)]
pub struct HwmonDevice {
    pub files: Option<Vec<SensorEntry>>,
}

/// What reading `/proc/loadavg` amounts to: the first number of the file, or
/// the error that says why there is none.
pub open spec fn cpu_load_of(loadavg: Result<String, std::io::Error>) -> Result<
    Decimal,
    TelemetryErrorView,
> {
    match loadavg {
        Err(e) => Err(TelemetryErrorView::Io(e)),
        Ok(text) => match load_average(text@) {
            Some(load) => Ok(load),
            None => Err(
                TelemetryErrorView::ParseError {
                    context: "/proc/loadavg"@,
                    message: "Invalid format: "@ + trim(text@),
                },
            ),
        },
    }
}

/// The one-minute load average, from what reading `/proc/loadavg` gave.
pub fn get_cpu_load(loadavg: Result<String, std::io::Error>) -> (r: Result<Decimal, TelemetryError>)
    ensures
        telemetry_outcome(r) == cpu_load_of(loadavg),
{
    match loadavg {
        Err(e) => Err(TelemetryError::Io(e)),
        Ok(text) => {
            let chars = to_chars(text.as_str());
            match parse_load_average(&chars) {
                Some(load) => Ok(load),
                None => {
                    let mut message = "Invalid format: ".to_owned();
                    let shown = trimmed(text.as_str());
                    message.append(shown.as_str());
                    Err(
                        TelemetryError::ParseError {
                            context: "/proc/loadavg".to_owned(),
                            message,
                        },
                    )
                },
            }
        },
    }
}

/// The amount in kilobytes that a line of `/proc/meminfo` states: its second
/// word, read as an unsigned integer.
pub open spec fn meminfo_kb(line: Seq<char>) -> Option<u64> {
    let ws = words(line);
    if ws.len() >= 2 {
        unsigned_value(ws[1])
    } else {
        None
    }
}

/// Reads the amount in kilobytes that the characters of a line of
/// `/proc/meminfo` state.
pub fn parse_meminfo_line(line: &Vec<char>) -> (r: Option<u64>)
    ensures
        r == meminfo_kb(line@),
{
    let ws = split_words(line);
    if ws.len() < 2 {
        return None;
    }
    assert(views(ws@)[1] == ws@[1]@);
    parse_unsigned(&ws[1])
}

/// Reads the amount in kilobytes that a line of `/proc/meminfo` states.
pub fn parse_meminfo_kb(line: &str) -> (r: Option<u64>)
    ensures
        r == meminfo_kb(line@),
{
    let chars = to_chars(line);
    parse_meminfo_line(&chars)
}

/// The total and the available memory after the lines `ls` have been read in
/// order, starting from what is known so far. A line that begins with
/// `MemTotal:` or `MemAvailable:` replaces what is known of its amount, also
/// by nothing where it states no number. Reading stops at the first line
/// after which both amounts are known.
pub open spec fn scan_meminfo(ls: Seq<Seq<char>>, total: Option<u64>, available: Option<u64>) -> (
    Option<u64>,
    Option<u64>,
)
    decreases ls.len(),
{
    if ls.len() == 0 {
        (total, available)
    } else {
        let is_total = starts_with(ls[0], "MemTotal:"@);
        let is_available = !is_total && starts_with(ls[0], "MemAvailable:"@);
        let total_now = if is_total {
            meminfo_kb(ls[0])
        } else {
            total
        };
        let available_now = if is_available {
            meminfo_kb(ls[0])
        } else {
            available
        };
        if total_now is Some && available_now is Some {
            (total_now, available_now)
        } else {
            scan_meminfo(ls.drop_first(), total_now, available_now)
        }
    }
}

/// The error that reports `/proc/meminfo` as lacking an amount.
pub open spec fn meminfo_error(message: Seq<char>) -> TelemetryErrorView {
    TelemetryErrorView::ParseError { context: "/proc/meminfo"@, message }
}

/// What reading `/proc/meminfo` amounts to: the share of memory that is not
/// available, in percent, or the error that says why it is unknown.
pub open spec fn memory_usage_of(meminfo: Result<String, std::io::Error>) -> Result<
    Decimal,
    TelemetryErrorView,
> {
    match meminfo {
        Err(e) => Err(TelemetryErrorView::Io(e)),
        Ok(text) => {
            let (total, available) = scan_meminfo(lines(text@), None, None);
            if total is None {
                Err(meminfo_error("MemTotal not found"@))
            } else if available is None {
                Err(meminfo_error("MemAvailable not found"@))
            } else {
                Ok(usage_percent(total->0, available->0))
            }
        },
    }
}

/// The share of memory in use, in percent, from what reading `/proc/meminfo`
/// gave.
pub fn get_memory_usage(meminfo: Result<String, std::io::Error>) -> (r: Result<
    Decimal,
    TelemetryError,
>)
    ensures
        telemetry_outcome(r) == memory_usage_of(meminfo),
        r matches Ok(pct) ==> pct.within_percent(),
{
    let text = match meminfo {
        Err(e) => {
            return Err(TelemetryError::Io(e));
        },
        Ok(text) => text,
    };
    let chars = to_chars(text.as_str());
    let ls = split_lines(&chars);
    let total_label = to_chars("MemTotal:");
    let available_label = to_chars("MemAvailable:");
    let mut total: Option<u64> = None;
    let mut available: Option<u64> = None;
    let mut i: usize = 0;
    assert(views(ls@).skip(0) == views(ls@));
    while i < ls.len() && !(total.is_some() && available.is_some())
        invariant
            i <= ls.len(),
            total_label@ == "MemTotal:"@,
            available_label@ == "MemAvailable:"@,
            i > 0 && total is Some && available is Some ==> scan_meminfo(
                lines(text@),
                None,
                None,
            ) == (total, available),
            !(total is Some && available is Some) ==> scan_meminfo(lines(text@), None, None)
                == scan_meminfo(views(ls@).skip(i as int), total, available),
            views(ls@) == lines(text@),
            i == 0 ==> total is None && available is None,
        decreases ls.len() - i,
    {
        let line = &ls[i];
        proof {
            let rest = views(ls@).skip(i as int);
            assert(rest[0] == line@);
            assert(rest.drop_first() == views(ls@).skip(i + 1));
        }
        if occurs_at_index(line, &total_label, 0) {
            total = parse_meminfo_line(line);
        } else if occurs_at_index(line, &available_label, 0) {
            available = parse_meminfo_line(line);
        }
        i += 1;
    }
    let total = match total {
        Some(total) => total,
        None => {
            return Err(
                TelemetryError::ParseError {
                    context: "/proc/meminfo".to_owned(),
                    message: "MemTotal not found".to_owned(),
                },
            );
        },
    };
    let available = match available {
        Some(available) => available,
        None => {
            return Err(
                TelemetryError::ParseError {
                    context: "/proc/meminfo".to_owned(),
                    message: "MemAvailable not found".to_owned(),
                },
            );
        },
    };
    Ok(memory_usage_percent(total, available))
}


/// The temperature that one entry of the `thermal` class states: the entry
/// is a thermal zone, its sensor file could be read, and the file holds a
/// number above zero.
pub open spec fn zone_reading(entry: SensorEntry) -> Option<Decimal> {
    if starts_with(entry.name@, "thermal_zone"@) && entry.content is Some {
        millicelsius_reading(entry.content->0@)
    } else {
        None
    }
}

/// What each of `entries` states as a thermal zone, in order.
pub open spec fn zone_readings(entries: Seq<SensorEntry>) -> Seq<Option<Decimal>> {
    entries.map_values(|entry: SensorEntry| zone_reading(entry))
}

/// Reads one entry of the `thermal` class.
pub fn read_zone(entry: &SensorEntry) -> (r: Option<Decimal>)
    ensures
        r == zone_reading(*entry),
{
    let name = to_chars(entry.name.as_str());
    let prefix = to_chars("thermal_zone");
    if !occurs_at_index(&name, &prefix, 0) {
        return None;
    }
    match &entry.content {
        Some(text) => {
            let chars = to_chars(text.as_str());
            parse_millicelsius(&chars)
        },
        None => None,
    }
}

/// The error that reports a kind of resource as absent.
pub open spec fn unavailable(resource: Seq<char>) -> TelemetryErrorView {
    TelemetryErrorView::Unavailable { resource }
}

/// What listing the `thermal` class amounts to: the temperature of the first
/// thermal zone that states one, or the error that says why there is none.
pub open spec fn thermal_zone_of(entries: Result<Vec<SensorEntry>, std::io::Error>) -> Result<
    Decimal,
    TelemetryErrorView,
> {
    match entries {
        Err(e) => Err(TelemetryErrorView::Io(e)),
        Ok(list) => match first_reading(zone_readings(list@)) {
            Some(celsius) => Ok(celsius),
            None => Err(unavailable("thermal zones"@)),
        },
    }
}

/// The temperature of the first thermal zone that states one, from what
/// listing `/sys/class/thermal` and reading each entry's `temp` file gave.
pub fn get_thermal_zone_temperature(entries: Result<Vec<SensorEntry>, std::io::Error>) -> (r:
    Result<Decimal, TelemetryError>)
    ensures
        telemetry_outcome(r) == thermal_zone_of(entries),
{
    let list = match entries {
        Err(e) => {
            return Err(TelemetryError::Io(e));
        },
        Ok(list) => list,
    };
    let mut i: usize = 0;
    while i < list.len()
        invariant
            i <= list.len(),
            entries == Ok::<Vec<SensorEntry>, std::io::Error>(list),
            forall|k: int| 0 <= k < i ==> #[trigger] zone_readings(list@)[k] is None,
        decreases list.len() - i,
    {
        let reading = read_zone(&list[i]);
        assert(zone_readings(list@)[i as int] == zone_reading(list@[i as int]));
        if let Some(celsius) = reading {
            proof {
                lemma_first_reading_at(zone_readings(list@), i as int);
            }
            return Ok(celsius);
        }
        i += 1;
    }
    proof {
        lemma_first_reading_none(zone_readings(list@));
    }
    Err(TelemetryError::Unavailable { resource: "thermal zones".to_owned() })
}

/// Whether a file of a `hwmon` device is a temperature input: its name
/// begins with `temp` and ends with `_input`.
pub open spec fn temperature_input(name: Seq<char>) -> bool {
    starts_with(name, "temp"@) && ends_with(name, "_input"@)
}

/// Decides whether a file of a `hwmon` device is a temperature input.
pub fn is_temperature_input(name: &str) -> (b: bool)
    ensures
        b == temperature_input(name@),
{
    let chars = to_chars(name);
    let prefix = to_chars("temp");
    let suffix = to_chars("_input");
    occurs_at_index(&chars, &prefix, 0) && ends_with_chars(&chars, &suffix)
}

/// The temperature that one file of a `hwmon` device states: the file is a
/// temperature input, it could be read, and it holds a number above zero.
pub open spec fn input_reading(file: SensorEntry) -> Option<Decimal> {
    if temperature_input(file.name@) && file.content is Some {
        millicelsius_reading(file.content->0@)
    } else {
        None
    }
}

/// What each of `files` states as a temperature input, in order.
pub open spec fn input_readings(files: Seq<SensorEntry>) -> Seq<Option<Decimal>> {
    files.map_values(|file: SensorEntry| input_reading(file))
}

/// The temperature that a `hwmon` device states: that of its first file
/// that states one, if its directory could be listed.
pub open spec fn device_reading(device: HwmonDevice) -> Option<Decimal> {
    match device.files {
        Some(files) => first_reading(input_readings(files@)),
        None => None,
    }
}

/// What each of `devices` states, in order.
pub open spec fn device_readings(devices: Seq<HwmonDevice>) -> Seq<Option<Decimal>> {
    devices.map_values(|device: HwmonDevice| device_reading(device))
}

/// Reads one file of a `hwmon` device.
pub fn read_input(file: &SensorEntry) -> (r: Option<Decimal>)
    ensures
        r == input_reading(*file),
{
    if !is_temperature_input(file.name.as_str()) {
        return None;
    }
    match &file.content {
        Some(text) => {
            let chars = to_chars(text.as_str());
            parse_millicelsius(&chars)
        },
        None => None,
    }
}

/// Reads one `hwmon` device.
pub fn read_device(device: &HwmonDevice) -> (r: Option<Decimal>)
    ensures
        r == device_reading(*device),
{
    let files = match &device.files {
        Some(files) => files,
        None => {
            return None;
        },
    };
    let mut i: usize = 0;
    while i < files.len()
        invariant
            i <= files.len(),
            device.files == Some(*files),
            forall|k: int| 0 <= k < i ==> #[trigger] input_readings(files@)[k] is None,
        decreases files.len() - i,
    {
        let reading = read_input(&files[i]);
        assert(input_readings(files@)[i as int] == input_reading(files@[i as int]));
        if reading.is_some() {
            proof {
                lemma_first_reading_at(input_readings(files@), i as int);
            }
            return reading;
        }
        i += 1;
    }
    proof {
        lemma_first_reading_none(input_readings(files@));
    }
    None
}

/// What listing the `hwmon` class amounts to: the temperature of the first
/// device that states one, or the error that says why there is none.
pub open spec fn hwmon_of(devices: Result<Vec<HwmonDevice>, std::io::Error>) -> Result<
    Decimal,
    TelemetryErrorView,
> {
    match devices {
        Err(e) => Err(TelemetryErrorView::Io(e)),
        Ok(list) => match first_reading(device_readings(list@)) {
            Some(celsius) => Ok(celsius),
            None => Err(unavailable("hwmon sensors"@)),
        },
    }
}

/// The temperature of the first `hwmon` sensor that states one, from what
/// listing `/sys/class/hwmon`, listing each device and reading its
/// temperature inputs gave.
pub fn get_hwmon_temperature(devices: Result<Vec<HwmonDevice>, std::io::Error>) -> (r: Result<
    Decimal,
    TelemetryError,
>)
    ensures
        telemetry_outcome(r) == hwmon_of(devices),
{
    let list = match devices {
        Err(e) => {
            return Err(TelemetryError::Io(e));
        },
        Ok(list) => list,
    };
    let mut i: usize = 0;
    while i < list.len()
        invariant
            i <= list.len(),
            devices == Ok::<Vec<HwmonDevice>, std::io::Error>(list),
            forall|k: int| 0 <= k < i ==> #[trigger] device_readings(list@)[k] is None,
        decreases list.len() - i,
    {
        let reading = read_device(&list[i]);
        assert(device_readings(list@)[i as int] == device_reading(list@[i as int]));
        if let Some(celsius) = reading {
            proof {
                lemma_first_reading_at(device_readings(list@), i as int);
            }
            return Ok(celsius);
        }
        i += 1;
    }
    proof {
        lemma_first_reading_none(device_readings(list@));
    }
    Err(TelemetryError::Unavailable { resource: "hwmon sensors".to_owned() })
}

/// The temperature of the system: that of the thermal zones where they
/// state one, and that of the `hwmon` sensors otherwise.
pub open spec fn temperature_of(
    zones: Result<Vec<SensorEntry>, std::io::Error>,
    devices: Result<Vec<HwmonDevice>, std::io::Error>,
) -> Result<Decimal, TelemetryErrorView> {
    match thermal_zone_of(zones) {
        Ok(celsius) => Ok(celsius),
        Err(_) => hwmon_of(devices),
    }
}

/// The temperature of the system in degrees Celsius, from what the thermal
/// zones and the `hwmon` sensors gave.
pub fn get_temperature(
    zones: Result<Vec<SensorEntry>, std::io::Error>,
    devices: Result<Vec<HwmonDevice>, std::io::Error>,
) -> (r: Result<Decimal, TelemetryError>)
    ensures
        telemetry_outcome(r) == temperature_of(zones, devices),
{
    match get_thermal_zone_temperature(zones) {
        Ok(celsius) => Ok(celsius),
        Err(_) => get_hwmon_temperature(devices),
    }
}


/// One battery of the `power_supply` class: the name of its directory and,
/// for each attribute file that could be read, what the file holds.
#[derive(Debug, Clone)]
pub struct SysfsBattery {
    pub name: String,
    /// Charge in percent.
    pub capacity: Option<String>,
    /// State of the battery, such as `Discharging`.
    pub status: Option<String>,
    /// Power draw in microwatts.
    pub power_now: Option<String>,
    /// Voltage in microvolts.
    pub voltage_now: Option<String>,
    /// Current in microamperes.
    pub current_now: Option<String>,
    /// Design capacity in microwatt-hours.
    pub energy_full_design: Option<String>,
    /// Full capacity in microwatt-hours.
    pub energy_full: Option<String>,
}

/// The number that a line of a `upower` report states: the first word
/// behind the line's first colon, the unit behind it aside.
pub open spec fn upower_value(line: Seq<char>) -> Option<Decimal> {
    let parts = split(line, CharClass::Char(':'));
    if parts.len() >= 2 && words(parts[1]).len() > 0 {
        number_in(words(parts[1])[0])
    } else {
        None
    }
}

/// The value of the field `field` in a `upower` report: the number stated by
/// the first line that begins, leading white space aside, with the field's
/// name.
pub open spec fn upower_field(text: Seq<char>, field: Seq<char>) -> Option<Decimal> {
    match first_line(lines(text), LineTest::StartsWithIndented, field) {
        Some(line) => upower_value(line),
        None => None,
    }
}

/// Reads the number that a line of a `upower` report states.
pub fn parse_upower_line(line: &Vec<char>) -> (r: Option<Decimal>)
    ensures
        r == upower_value(line@),
{
    let parts = split_chars(line, CharClass::Char(':'));
    if parts.len() < 2 {
        return None;
    }
    assert(views(parts@)[1] == parts@[1]@);
    let ws = split_words(&parts[1]);
    if ws.len() == 0 {
        return None;
    }
    assert(views(ws@)[0] == ws@[0]@);
    parse_number(&ws[0])
}

/// Reads the field `field` of a `upower` report.
pub fn read_upower_field(text: &Vec<char>, field: &Vec<char>) -> (r: Option<Decimal>)
    ensures
        r == upower_field(text@, field@),
{
    let ls = split_lines(text);
    match find_line(&ls, LineTest::StartsWithIndented, field) {
        Some(i) => parse_upower_line(&ls[i]),
        None => None,
    }
}

/// Extracts the numeric field `field_name` from a `upower` report.
///
/// Only the first line that begins with the field's name is consulted. A
/// missing field and a line without a number are reported alike.
pub fn parse_upower_field(text: &str, field_name: &str) -> (r: Result<Decimal, BatteryError>)
    ensures
        match upower_field(text@, field_name@) {
            Some(value) => r matches Ok(v) && v == value,
            None => r matches Err(e) && e@ == field_error(field_name@),
        },
{
    let chars = to_chars(text);
    let label = to_chars(field_name);
    match read_upower_field(&chars, &label) {
        Some(value) => Ok(value),
        None => Err(missing_field(field_name)),
    }
}

/// The mathematical content of the result of looking for a device.
pub open spec fn device_view(r: Result<String, BatteryError>) -> Result<
    Seq<char>,
    BatteryErrorView,
> {
    match r {
        Ok(path) => Ok(path@),
        Err(e) => Err(e@),
    }
}

/// The battery device that a list of `upower` devices names: the first
/// line of the list that contains `BAT`.
pub open spec fn battery_device(list: Seq<char>) -> Option<Seq<char>> {
    first_line(lines(list), LineTest::Contains, "BAT"@)
}

/// Picks the battery device from a list of `upower` devices.
pub fn find_battery_device(list: &str) -> (r: Option<String>)
    ensures
        text_of(r) == battery_device(list@),
{
    let chars = to_chars(list);
    let spans = line_spans(&chars);
    let ls = crate::text::extract(&chars, &spans);
    let pattern = to_chars("BAT");
    match find_line(&ls, LineTest::Contains, &pattern) {
        Some(i) => {
            let span = spans[i];
            assert(spans@[i as int].within(chars@.len()));
            assert(span_texts(chars@, spans@)[i as int] == span.of(chars@));
            assert(views(ls@)[i as int] == ls@[i as int]@);
            Some(list.substring_char(span.start, span.end).to_owned())
        },
        None => None,
    }
}

/// The battery device that `upower -e` names, for a reading of the battery.
/// A run that failed makes the tool unavailable, and a list without a
/// battery means that there is none.
pub open spec fn upower_device_of(devices: CommandOutcome) -> Result<Seq<char>, BatteryErrorView> {
    if !devices.succeeded() {
        Err(tool_unavailable("upower"@))
    } else {
        match battery_device(devices.output()) {
            Some(line) => Ok(line),
            None => Err(BatteryErrorView::NotFound),
        }
    }
}

/// Picks the battery device from what `upower -e` gave, for a reading of
/// the battery.
pub fn upower_device(devices: &CommandOutcome) -> (r: Result<String, BatteryError>)
    ensures
        device_view(r) == upower_device_of(*devices),
{
    match devices {
        CommandOutcome::Finished { success, stdout, .. } => {
            if !*success {
                return Err(unavailable_tool("upower"));
            }
            match find_battery_device(stdout.as_str()) {
                Some(device) => Ok(device),
                None => Err(BatteryError::NotFound),
            }
        },
        CommandOutcome::NotStarted { .. } => Err(unavailable_tool("upower")),
    }
}

/// The battery device that `upower -e` names, for the capacity. Only a run
/// that could not be started makes the tool unavailable: what a run wrote
/// is read whether it ended in success or not.
pub open spec fn upower_capacity_device_of(devices: CommandOutcome) -> Result<
    Seq<char>,
    BatteryErrorView,
> {
    match devices {
        CommandOutcome::NotStarted { .. } => Err(tool_unavailable("upower"@)),
        CommandOutcome::Finished { stdout, .. } => match battery_device(stdout@) {
            Some(line) => Ok(line),
            None => Err(BatteryErrorView::NotFound),
        },
    }
}

/// Picks the battery device from what `upower -e` gave, for the capacity.
pub fn upower_capacity_device(devices: &CommandOutcome) -> (r: Result<String, BatteryError>)
    ensures
        device_view(r) == upower_capacity_device_of(*devices),
{
    match devices {
        CommandOutcome::Finished { stdout, .. } => match find_battery_device(stdout.as_str()) {
            Some(device) => Ok(device),
            None => Err(BatteryError::NotFound),
        },
        CommandOutcome::NotStarted { .. } => Err(unavailable_tool("upower")),
    }
}

/// A value that is present, or zero.
pub open spec fn or_zero(value: Option<Decimal>) -> Decimal {
    match value {
        Some(v) => v,
        None => Decimal::zero_value(),
    }
}

/// What the report of `upower -i` on the battery device amounts to. A run
/// that failed makes the tool unavailable; a battery that is charging is
/// reported as such; the charge is required; the power draw is zero where
/// the report states none.
pub open spec fn upower_battery_of(info: CommandOutcome) -> Result<BatteryInfoView, BatteryErrorView> {
    if !info.succeeded() {
        Err(tool_unavailable("upower"@))
    } else if upower_charging(info.output()) {
        Err(BatteryErrorView::Charging)
    } else {
        match upower_field(info.output(), "percentage"@) {
            None => Err(field_error("percentage"@)),
            Some(percentage) => Ok(
                BatteryInfo::reading(
                    percentage,
                    or_zero(upower_field(info.output(), "energy-rate"@)),
                    "upower"@,
                ),
            ),
        }
    }
}

/// The battery reading of `upower`, from what `upower -i` on the battery
/// device gave.
pub fn upower_battery(info: &CommandOutcome) -> (r: Result<BatteryInfo, BatteryError>)
    ensures
        result_view(r) == upower_battery_of(*info),
        r matches Ok(reading) ==> reading@.well_formed(),
{
    let stdout = match info {
        CommandOutcome::Finished { success, stdout, .. } => {
            if !*success {
                return Err(unavailable_tool("upower"));
            }
            stdout
        },
        CommandOutcome::NotStarted { .. } => {
            return Err(unavailable_tool("upower"));
        },
    };
    if contains_charging_state(stdout.as_str()) {
        return Err(BatteryError::Charging);
    }
    let chars = to_chars(stdout.as_str());
    let percentage = match read_upower_field(&chars, &to_chars("percentage")) {
        Some(percentage) => percentage,
        None => {
            return Err(missing_field("percentage"));
        },
    };
    let watts = match read_upower_field(&chars, &to_chars("energy-rate")) {
        Some(watts) => watts,
        None => Decimal::zero(),
    };
    Ok(BatteryInfo::new(percentage, watts, "upower"))
}

/// The power draw in watts that the attributes of a battery state: the
/// `power_now` attribute, given in microwatts, where it holds a number;
/// otherwise the product of `voltage_now` and `current_now`, given in
/// microvolts and microamperes, where both hold numbers whose product fits;
/// otherwise zero.
pub open spec fn sysfs_power_of(battery: SysfsBattery) -> Decimal {
    match attribute_value(text_of(battery.power_now)) {
        Some(microwatts) => microwatts.shifted(6),
        None => match (
            attribute_value(text_of(battery.voltage_now)),
            attribute_value(text_of(battery.current_now)),
        ) {
            (Some(microvolts), Some(microamperes)) => match microvolts.product(microamperes) {
                Some(product) => product.shifted(12),
                None => Decimal::zero_value(),
            },
            _ => Decimal::zero_value(),
        },
    }
}

/// The power draw in watts that the attributes of a battery state. It is
/// always a value: a battery that states no power draws zero.
pub fn sysfs_get_power_watts(battery: &SysfsBattery) -> (r: Result<Decimal, BatteryError>)
    ensures
        r matches Ok(watts) && watts == sysfs_power_of(*battery),
{
    if let Some(microwatts) = parse_attribute(&battery.power_now) {
        return Ok(microwatts.scaled_down(6));
    }
    let voltage = parse_attribute(&battery.voltage_now);
    let current = parse_attribute(&battery.current_now);
    match (voltage, current) {
        (Some(microvolts), Some(microamperes)) => match microvolts.checked_mul(microamperes) {
            Some(product) => Ok(product.scaled_down(12)),
            None => Ok(Decimal::zero()),
        },
        _ => Ok(Decimal::zero()),
    }
}

/// The path of the `capacity` attribute of the battery named `name`.
pub open spec fn capacity_path(name: Seq<char>) -> Seq<char> {
    "/sys/class/power_supply/"@ + name + "/capacity"@
}

/// What the attributes of one battery amount to. The charge is required: an
/// unreadable `capacity` is a denied permission, and one that is no number a
/// parse error. A status that says charging is reported as such.
pub open spec fn sysfs_info_of(battery: SysfsBattery) -> Result<BatteryInfoView, BatteryErrorView> {
    match battery.capacity {
        None => Err(BatteryErrorView::PermissionDenied { tool: capacity_path(battery.name@) }),
        Some(text) => match attribute_value(Some(text@)) {
            None => Err(
                BatteryErrorView::ParseError { field: "capacity"@, value: "invalid number"@ },
            ),
            Some(percentage) => if battery.status is Some && charging_status(battery.status->0@) {
                Err(BatteryErrorView::Charging)
            } else {
                Ok(BatteryInfo::reading(percentage, sysfs_power_of(battery), "sysfs"@))
            },
        },
    }
}

/// The battery reading that the attributes of one battery give.
pub fn sysfs_battery_info(battery: &SysfsBattery) -> (r: Result<BatteryInfo, BatteryError>)
    ensures
        result_view(r) == sysfs_info_of(*battery),
        r matches Ok(reading) ==> reading@.well_formed(),
{
    if battery.capacity.is_none() {
        let mut tool = "/sys/class/power_supply/".to_owned();
        tool.append(battery.name.as_str());
        tool.append("/capacity");
        return Err(BatteryError::PermissionDenied { tool });
    }
    let percentage = match parse_attribute(&battery.capacity) {
        Some(percentage) => percentage,
        None => {
            return Err(
                BatteryError::ParseError {
                    field: "capacity".to_owned(),
                    value: "invalid number".to_owned(),
                },
            );
        },
    };
    if let Some(status) = &battery.status {
        if is_charging_status(status.as_str()) {
            return Err(BatteryError::Charging);
        }
    }
    let watts = match sysfs_get_power_watts(battery) {
        Ok(watts) => watts,
        Err(_) => Decimal::zero(),
    };
    Ok(BatteryInfo::new(percentage, watts, "sysfs"))
}

/// Whether a directory of the `power_supply` class is a battery: its name
/// begins with `BAT`.
pub open spec fn battery_name(name: Seq<char>) -> bool {
    starts_with(name, "BAT"@)
}

/// Decides whether a directory of the `power_supply` class is a battery.
pub fn is_battery_name(name: &str) -> (b: bool)
    ensures
        b == battery_name(name@),
{
    let chars = to_chars(name);
    let prefix = to_chars("BAT");
    occurs_at_index(&chars, &prefix, 0)
}

/// What the batteries `entries` amount to, taken in order: the first battery
/// that gives a reading or is charging decides, and batteries that fail
/// otherwise are passed over.
pub open spec fn sysfs_scan(entries: Seq<SysfsBattery>) -> Result<BatteryInfoView, BatteryErrorView>
    decreases entries.len(),
{
    if entries.len() == 0 {
        Err(BatteryErrorView::NotFound)
    } else if battery_name(entries[0].name@) && !(outcome_of(sysfs_info_of(entries[0]))
        is SoftFail) {
        sysfs_info_of(entries[0])
    } else {
        sysfs_scan(entries.drop_first())
    }
}

/// What the `power_supply` class amounts to: where it could not be listed
/// there is no battery, and otherwise its batteries decide.
pub open spec fn sysfs_battery_of(entries: Option<Vec<SysfsBattery>>) -> Result<
    BatteryInfoView,
    BatteryErrorView,
> {
    match entries {
        None => Err(BatteryErrorView::NotFound),
        Some(list) => sysfs_scan(list@),
    }
}

/// The battery reading of sysfs, from what listing
/// `/sys/class/power_supply` and reading the attributes of each of its
/// entries gave.
pub fn sysfs_battery(entries: &Option<Vec<SysfsBattery>>) -> (r: Result<BatteryInfo, BatteryError>)
    ensures
        result_view(r) == sysfs_battery_of(*entries),
        r matches Ok(reading) ==> reading@.well_formed(),
{
    let list = match entries {
        Some(list) => list,
        None => {
            return Err(BatteryError::NotFound);
        },
    };
    let mut i: usize = 0;
    assert(list@.skip(0) == list@);
    while i < list.len()
        invariant
            i <= list.len(),
            *entries == Some(*list),
            sysfs_scan(list@) == sysfs_scan(list@.skip(i as int)),
        decreases list.len() - i,
    {
        let battery = &list[i];
        proof {
            let rest = list@.skip(i as int);
            assert(rest[0] == *battery);
            assert(rest.drop_first() == list@.skip(i + 1));
        }
        if is_battery_name(battery.name.as_str()) {
            match sysfs_battery_info(battery) {
                Ok(reading) => {
                    return Ok(reading);
                },
                Err(BatteryError::Charging) => {
                    return Err(BatteryError::Charging);
                },
                Err(_) => {},
            }
        }
        i += 1;
    }
    Err(BatteryError::NotFound)
}

/// The battery reading of the system: `upower` is asked first and sysfs
/// second. A reading of `upower` is final, and so is a charging battery;
/// any other failure of `upower` lets sysfs decide, and a failure of both
/// that is not a charging battery is reported as `NotFound`.
pub fn get_battery_info(
    upower: Result<BatteryInfo, BatteryError>,
    sysfs: Result<BatteryInfo, BatteryError>,
) -> (r: Result<BatteryInfo, BatteryError>)
    ensures
        result_view(r) == resolve(
            seq![outcome_of(result_view(upower)), outcome_of(result_view(sysfs))],
        ),
{
    let mut outcomes = Vec::new();
    outcomes.push(classify(upower));
    outcomes.push(classify(sysfs));
    assert(crate::chain::outcome_views(outcomes@) =~= seq![
        outcome_of(result_view(upower)),
        outcome_of(result_view(sysfs)),
    ]);
    resolve_chain(outcomes)
}

/// What the report of `upower -i` on the battery device states of the
/// capacity, in watt-hours. Only a run that could not be started is an
/// error; a field that the report lacks is absent.
pub open spec fn upower_capacity_of(info: CommandOutcome) -> Result<
    BatteryCapacity,
    BatteryErrorView,
> {
    match info {
        CommandOutcome::NotStarted { .. } => Err(tool_unavailable("upower"@)),
        CommandOutcome::Finished { stdout, .. } => Ok(
            BatteryCapacity {
                design_wh: not_below_zero(upower_field(stdout@, "energy-full-design"@)),
                full_wh: not_below_zero(upower_field(stdout@, "energy-full"@)),
            },
        ),
    }
}

/// Replaces a negative value that is present by zero.
pub fn clamp_present(value: Option<Decimal>) -> (r: Option<Decimal>)
    ensures
        r == not_below_zero(value),
{
    match value {
        Some(v) => Some(v.clamp_non_negative()),
        None => None,
    }
}

/// The capacity of the battery according to `upower`, from what `upower -i`
/// on the battery device gave.
pub fn upower_battery_capacity(info: &CommandOutcome) -> (r: Result<BatteryCapacity, BatteryError>)
    ensures
        battery_outcome(r) == upower_capacity_of(*info),
{
    let stdout = match info {
        CommandOutcome::Finished { stdout, .. } => stdout,
        CommandOutcome::NotStarted { .. } => {
            return Err(unavailable_tool("upower"));
        },
    };
    let chars = to_chars(stdout.as_str());
    let design_wh = clamp_present(read_upower_field(&chars, &to_chars("energy-full-design")));
    let full_wh = clamp_present(read_upower_field(&chars, &to_chars("energy-full")));
    Ok(BatteryCapacity { design_wh, full_wh })
}

/// The capacity in watt-hours that the attributes of a battery state, each
/// given in microwatt-hours.
pub open spec fn sysfs_capacity_info_of(battery: SysfsBattery) -> BatteryCapacity {
    BatteryCapacity {
        design_wh: not_below_zero(
            shifted_by(attribute_value(text_of(battery.energy_full_design)), 6),
        ),
        full_wh: not_below_zero(shifted_by(attribute_value(text_of(battery.energy_full)), 6)),
    }
}

/// Reads an attribute that states microwatt-hours, in watt-hours.
pub fn read_energy(content: &Option<String>) -> (r: Option<Decimal>)
    ensures
        r == not_below_zero(shifted_by(attribute_value(text_of(*content)), 6)),
{
    match parse_attribute(content) {
        Some(microwatt_hours) => Some(microwatt_hours.scaled_down(6).clamp_non_negative()),
        None => None,
    }
}

/// The capacity that the attributes of one battery state. It is always a
/// value; an attribute that is unreadable or no number is absent.
pub fn sysfs_battery_capacity_info(battery: &SysfsBattery) -> (r: Result<
    BatteryCapacity,
    BatteryError,
>)
    ensures
        r matches Ok(capacity) && capacity == sysfs_capacity_info_of(*battery),
{
    Ok(
        BatteryCapacity {
            design_wh: read_energy(&battery.energy_full_design),
            full_wh: read_energy(&battery.energy_full),
        },
    )
}

/// The index of the first battery among `entries`, or their number where
/// none is a battery.
pub open spec fn first_battery(entries: Seq<SysfsBattery>) -> int
    decreases entries.len(),
{
    if entries.len() == 0 || battery_name(entries[0].name@) {
        0
    } else {
        1 + first_battery(entries.drop_first())
    }
}

/// What the `power_supply` class states of the capacity: that of its first
/// battery. Where the class could not be listed or holds no battery, there
/// is none to be found.
pub open spec fn sysfs_capacity_of(entries: Option<Vec<SysfsBattery>>) -> Result<
    BatteryCapacity,
    BatteryErrorView,
> {
    match entries {
        None => Err(BatteryErrorView::NotFound),
        Some(list) => {
            let i = first_battery(list@);
            if 0 <= i < list@.len() {
                Ok(sysfs_capacity_info_of(list@[i]))
            } else {
                Err(BatteryErrorView::NotFound)
            }
        },
    }
}

/// The capacity of the battery according to sysfs, from what listing
/// `/sys/class/power_supply` and reading the attributes of its entries gave.
pub fn sysfs_battery_capacity(entries: &Option<Vec<SysfsBattery>>) -> (r: Result<
    BatteryCapacity,
    BatteryError,
>)
    ensures
        battery_outcome(r) == sysfs_capacity_of(*entries),
{
    let list = match entries {
        Some(list) => list,
        None => {
            return Err(BatteryError::NotFound);
        },
    };
    let mut i: usize = 0;
    assert(list@.skip(0) == list@);
    while i < list.len()
        invariant
            i <= list.len(),
            *entries == Some(*list),
            first_battery(list@) == i + first_battery(list@.skip(i as int)),
        decreases list.len() - i,
    {
        let battery = &list[i];
        proof {
            let rest = list@.skip(i as int);
            assert(rest[0] == *battery);
            assert(rest.drop_first() == list@.skip(i + 1));
        }
        if is_battery_name(battery.name.as_str()) {
            return sysfs_battery_capacity_info(battery);
        }
        i += 1;
    }
    Err(BatteryError::NotFound)
}

/// The capacity that two sources amount to, the one asked first in front:
/// that of the first source which states at least one of the two values.
pub open spec fn capacity_of(
    first: Result<BatteryCapacity, BatteryErrorView>,
    second: Result<BatteryCapacity, BatteryErrorView>,
) -> Option<BatteryCapacity> {
    if first is Ok && first->Ok_0.has_data() {
        Some(first->Ok_0)
    } else if second is Ok && second->Ok_0.has_data() {
        Some(second->Ok_0)
    } else {
        None
    }
}

/// The capacity of the battery, if any source states one: `upower` is asked
/// first and sysfs second. This never fails; where neither source states a
/// capacity there is none.
pub fn get_battery_capacity(
    upower: Result<BatteryCapacity, BatteryError>,
    sysfs: Result<BatteryCapacity, BatteryError>,
) -> (r: Result<Option<BatteryCapacity>, BatteryError>)
    ensures
        r matches Ok(capacity) && capacity == capacity_of(
            battery_outcome(upower),
            battery_outcome(sysfs),
        ),
{
    if let Ok(capacity) = upower {
        if let Some(found) = capacity.into_option() {
            return Ok(Some(found));
        }
    }
    match sysfs {
        Ok(capacity) => Ok(capacity.into_option()),
        Err(_) => Ok(None),
    }
}

} // verus!
