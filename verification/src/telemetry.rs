//! The complete sample, and the commands that describe the system.

use crate::decimal::Decimal;
use crate::error::{
    text_outcome, BatteryError, BatteryErrorView, TelemetryError, TelemetryErrorView,
};
use crate::chain::Platform;
use crate::fields::{find_line, first_line, LineTest};
use crate::model::{
    text_of, BatteryInfo, BatteryInfoView, CommandOutcome, SystemInfo, SystemInfoView,
    TelemetrySample, TelemetrySampleView, Timestamp,
};
use crate::text::{
    extract, line_spans, lines, skip_leading, skip_trailing, span_texts, split, split_spans,
    to_chars, trim, trim_end_of, trim_start_of, trimmed, views, CharClass,
};
use vstd::prelude::*;

verus! {

/// The value of a metric that could be read, and zero for one that could
/// not.
pub open spec fn or_zero<E>(metric: Result<Decimal, E>) -> Decimal {
    match metric {
        Ok(value) => value,
        Err(_) => Decimal::zero_value(),
    }
}

/// The sample that a battery reading and three metrics amount to. A missing
/// battery reading is the failure of the whole sample. A metric that could
/// not be read counts as zero. Both percentages are brought between 0 and
/// 100, and power draw and load to no less than zero.
pub open spec fn sample_of<E1, E2, E3>(
    timestamp: Timestamp,
    battery: Result<BatteryInfoView, BatteryErrorView>,
    cpu_load: Result<Decimal, E1>,
    ram_pct: Result<Decimal, E2>,
    temp_c: Result<Decimal, E3>,
) -> Result<TelemetrySampleView, TelemetryErrorView> {
    match battery {
        Err(e) => Err(TelemetryErrorView::Battery(e)),
        Ok(info) => Ok(
            TelemetrySampleView {
                timestamp,
                percentage: info.percentage.percent_bounded(),
                watts: info.watts.floor_at_zero(),
                cpu_load: or_zero(cpu_load).floor_at_zero(),
                ram_pct: or_zero(ram_pct).percent_bounded(),
                temp_c: or_zero(temp_c),
                source: info.source,
            },
        ),
    }
}

/// The mathematical content of the result of collecting a sample.
pub open spec fn sample_view(r: Result<TelemetrySample, TelemetryError>) -> Result<
    TelemetrySampleView,
    TelemetryErrorView,
> {
    match r {
        Ok(sample) => Ok(sample@),
        Err(e) => Err(e@),
    }
}

/// Returns the value of a metric, or zero where it could not be read.
pub fn metric_or_zero(metric: Result<Decimal, TelemetryError>) -> (value: Decimal)
    ensures
        value == or_zero(metric),
{
    match metric {
        Ok(value) => value,
        Err(_) => Decimal::zero(),
    }
}

/// Puts a sample together from what was read at `timestamp`.
///
/// The battery reading is required: its error is the error of the sample.
/// Load, memory usage and temperature are not: each counts as zero where it
/// could not be read.
pub fn collect_telemetry(
    timestamp: Timestamp,
    battery: Result<BatteryInfo, BatteryError>,
    cpu_load: Result<Decimal, TelemetryError>,
    ram_pct: Result<Decimal, TelemetryError>,
    temp_c: Result<Decimal, TelemetryError>,
) -> (r: Result<TelemetrySample, TelemetryError>)
    ensures
        sample_view(r) == sample_of(
            timestamp,
            crate::chain::result_view(battery),
            cpu_load,
            ram_pct,
            temp_c,
        ),
        r matches Ok(sample) ==> sample@.well_formed(),
{
    let info = match battery {
        Ok(info) => info,
        Err(e) => {
            return Err(TelemetryError::Battery(e));
        },
    };
    Ok(
        TelemetrySample {
            timestamp,
            percentage: info.percentage.clamp_percent(),
            watts: info.watts.clamp_non_negative(),
            cpu_load: metric_or_zero(cpu_load).clamp_non_negative(),
            ram_pct: metric_or_zero(ram_pct).clamp_percent(),
            temp_c: metric_or_zero(temp_c),
            source: info.source,
        },
    )
}

/// A sample keeps a battery reading that is well formed as it is.
pub proof fn law_sample_keeps_reading<E1, E2, E3>(
    timestamp: Timestamp,
    info: BatteryInfoView,
    cpu_load: Result<Decimal, E1>,
    ram_pct: Result<Decimal, E2>,
    temp_c: Result<Decimal, E3>,
)
    requires
        info.well_formed(),
    ensures
        sample_of(timestamp, Ok(info), cpu_load, ram_pct, temp_c) matches Ok(sample)
            && sample.percentage == info.percentage && sample.watts == info.watts && sample.source
            == info.source,
{
}

/// The texts of a list of arguments.
pub open spec fn arg_texts(args: Seq<&str>) -> Seq<Seq<char>> {
    args.map_values(|arg: &str| arg@)
}

/// The texts `parts`, each two of them joined by one space.
pub open spec fn join_with_spaces(parts: Seq<Seq<char>>) -> Seq<char>
    decreases parts.len(),
{
    if parts.len() == 0 {
        Seq::empty()
    } else if parts.len() == 1 {
        parts[0]
    } else {
        join_with_spaces(parts.drop_last()) + seq![' '] + parts.last()
    }
}

/// The command line as it is shown in an error: the program, a space, and
/// the arguments with a space between each two.
pub open spec fn command_line(program: Seq<char>, args: Seq<Seq<char>>) -> Seq<char> {
    program + seq![' '] + join_with_spaces(args)
}

/// What the run of a command amounts to: its output without the
/// surrounding white space, or the failed command with the reason, which is
/// what the command wrote to its standard error if it ran at all.
pub open spec fn command_output_of(
    program: Seq<char>,
    args: Seq<Seq<char>>,
    outcome: CommandOutcome,
) -> Result<Seq<char>, TelemetryErrorView> {
    match outcome {
        CommandOutcome::NotStarted { message } => Err(
            TelemetryErrorView::CommandFailed {
                command: command_line(program, args),
                message: message@,
            },
        ),
        CommandOutcome::Finished { success, stdout, stderr } => if success {
            Ok(trim(stdout@))
        } else {
            Err(
                TelemetryErrorView::CommandFailed {
                    command: command_line(program, args),
                    message: stderr@,
                },
            )
        },
    }
}

/// Writes a command line as it is shown in an error.
pub fn show_command(program: &str, args: &[&str]) -> (line: String)
    ensures
        line@ == command_line(program@, arg_texts(args@)),
{
    proof {
        reveal_strlit(" ");
    }
    let mut line = program.to_owned();
    line.append(" ");
    let mut i: usize = 0;
    assert(arg_texts(args@).take(0) == Seq::<Seq<char>>::empty());
    assert(line@ == program@ + seq![' ']);
    while i < args.len()
        invariant
            i <= args.len(),
            " "@ == seq![' '],
            line@ == program@ + seq![' '] + join_with_spaces(arg_texts(args@).take(i as int)),
        decreases args.len() - i,
    {
        let ghost done = arg_texts(args@).take(i as int);
        let ghost next = arg_texts(args@).take(i + 1);
        proof {
            assert(next.drop_last() == done);
            assert(next.last() == args@[i as int]@);
        }
        if i > 0 {
            line.append(" ");
        }
        line.append(args[i]);
        i += 1;
    }
    assert(arg_texts(args@).take(args.len() as int) == arg_texts(args@));
    line
}

/// The output of a command, from how its run ended.
pub fn get_command_output(program: &str, args: &[&str], outcome: &CommandOutcome) -> (r: Result<
    String,
    TelemetryError,
>)
    ensures
        text_outcome(r) == command_output_of(program@, arg_texts(args@), *outcome),
{
    match outcome {
        CommandOutcome::NotStarted { message } => Err(
            TelemetryError::CommandFailed {
                command: show_command(program, args),
                message: message.clone(),
            },
        ),
        CommandOutcome::Finished { success, stdout, stderr } => {
            if *success {
                Ok(trimmed(stdout.as_str()))
            } else {
                Err(
                    TelemetryError::CommandFailed {
                        command: show_command(program, args),
                        message: stderr.clone(),
                    },
                )
            }
        },
    }
}


/// What was read to describe the system. A platform uses only some of
/// these; what it does not use may hold anything.
#[derive(Debug, Clone)]
pub struct SystemReadings {
    /// The run of `hostname`.
    pub hostname: CommandOutcome,
    /// The run of `uname -r`.
    pub kernel: CommandOutcome,
    /// The run of `uname -sr`.
    pub os_name: CommandOutcome,
    /// The run of `uname -m`.
    pub machine: CommandOutcome,
    /// What `/etc/os-release` holds, if it could be read. Linux only.
    pub os_release: Option<String>,
    /// What `/proc/cpuinfo` holds, if it could be read. Linux only.
    pub cpuinfo: Option<String>,
    /// The run of `sysctl -n hw.model`. FreeBSD only.
    pub hw_model: CommandOutcome,
    /// The run of `sysctl -n hw.machine`. FreeBSD only.
    pub hw_machine: CommandOutcome,
}

/// `s` without the characters `c` at its start and at its end.
pub open spec fn trim_matches(s: Seq<char>, c: char) -> Seq<char> {
    trim_end_of(trim_start_of(s, CharClass::Char(c)), CharClass::Char(c))
}

/// The second of the pieces into which the first line of `content` that
/// begins with `key` falls at the separator `sep`.
pub open spec fn keyed_value(content: Seq<char>, key: Seq<char>, sep: char) -> Option<Seq<char>> {
    match first_line(lines(content), LineTest::StartsWith, key) {
        Some(line) => {
            let parts = split(line, CharClass::Char(sep));
            if parts.len() >= 2 {
                Some(parts[1])
            } else {
                None
            }
        },
        None => None,
    }
}

/// The name of the operating system that `/etc/os-release` states: the
/// value of `PRETTY_NAME`, up to its second equals sign if it has one,
/// without the quotation marks around it.
pub open spec fn pretty_name(content: Seq<char>) -> Option<Seq<char>> {
    match keyed_value(content, "PRETTY_NAME="@, '=') {
        Some(value) => Some(trim_matches(value, '"')),
        None => None,
    }
}

/// The model of the processor that `/proc/cpuinfo` states: what stands
/// between the first and the second colon of the first `model name` line,
/// without the white space around it.
pub open spec fn cpu_model(content: Seq<char>) -> Option<Seq<char>> {
    match keyed_value(content, "model name"@, ':') {
        Some(value) => Some(trim(value)),
        None => None,
    }
}

/// How the second piece of a keyed line is trimmed.
#[derive(Clone, Copy, Debug)]
pub enum Trimming {
    /// White space is removed at both ends.
    Whitespace,
    /// Quotation marks are removed at both ends.
    Quotes,
}

impl Trimming {
    /// The characters that the trimming removes.
    pub open spec fn class(self) -> CharClass {
        match self {
            Trimming::Whitespace => CharClass::Whitespace,
            Trimming::Quotes => CharClass::Char('"'),
        }
    }
}

/// Finds the value of `key` in `content` and trims it.
pub fn read_keyed_value(content: &str, key: &str, sep: char, trimming: Trimming) -> (r: Option<
    String,
>)
    ensures
        text_of(r) == match keyed_value(content@, key@, sep) {
            Some(value) => Some(
                trim_end_of(trim_start_of(value, trimming.class()), trimming.class()),
            ),
            None => None,
        },
{
    let chars = to_chars(content);
    let spans = line_spans(&chars);
    let ls = extract(&chars, &spans);
    let i = match find_line(&ls, LineTest::StartsWith, &to_chars(key)) {
        Some(i) => i,
        None => {
            return None;
        },
    };
    let line = &ls[i];
    assert(views(ls@)[i as int] == line@);
    assert(span_texts(chars@, spans@)[i as int] == spans@[i as int].of(chars@));
    assert(spans@[i as int].within(chars@.len()));
    let parts = split_spans(line, CharClass::Char(sep));
    assert(span_texts(line@, parts@).len() == parts@.len());
    if parts.len() < 2 {
        return None;
    }
    let value = parts[1];
    assert(parts@[1].within(line@.len()));
    assert(span_texts(line@, parts@)[1] == value.of(line@));
    let class = match trimming {
        Trimming::Whitespace => CharClass::Whitespace,
        Trimming::Quotes => CharClass::Char('"'),
    };
    let start = skip_leading(line, value.start, value.end, class);
    let end = skip_trailing(line, start, value.end, class);
    let line_text = content.substring_char(spans[i].start, spans[i].end);
    Some(line_text.substring_char(start, end).to_owned())
}

/// The text of a result, or `otherwise` where it is an error.
pub open spec fn text_or(r: Result<Seq<char>, TelemetryErrorView>, otherwise: Seq<char>) -> Seq<char> {
    match r {
        Ok(text) => text,
        Err(_) => otherwise,
    }
}

/// The name of the operating system on Linux: the pretty name of
/// `/etc/os-release`; without one, what `uname -sr` wrote; without that,
/// nothing.
pub open spec fn linux_os(readings: SystemReadings) -> Seq<char> {
    let stated = match readings.os_release {
        Some(content) => pretty_name(content@),
        None => None,
    };
    match stated {
        Some(name) => name,
        None => text_or(
            command_output_of("uname"@, seq!["-sr"@], readings.os_name),
            Seq::empty(),
        ),
    }
}

/// The model of the processor on Linux: what `/proc/cpuinfo` states, or
/// nothing.
pub open spec fn linux_cpu(readings: SystemReadings) -> Seq<char> {
    match readings.cpuinfo {
        Some(content) => match cpu_model(content@) {
            Some(model) => model,
            None => Seq::empty(),
        },
        None => Seq::empty(),
    }
}

/// Operating system, processor and machine of the system, each as the
/// platform states it, or the error of the first required command that
/// failed.
pub open spec fn platform_info(platform: Platform, readings: SystemReadings) -> Result<
    (Seq<char>, Seq<char>, Seq<char>),
    TelemetryErrorView,
> {
    let uname_sr = command_output_of("uname"@, seq!["-sr"@], readings.os_name);
    let uname_m = command_output_of("uname"@, seq!["-m"@], readings.machine);
    match platform {
        Platform::FreeBsd => {
            let model = command_output_of("sysctl"@, seq!["-n"@, "hw.model"@], readings.hw_model);
            let machine = command_output_of(
                "sysctl"@,
                seq!["-n"@, "hw.machine"@],
                readings.hw_machine,
            );
            match uname_sr {
                Err(e) => Err(e),
                Ok(os) => match model {
                    Err(e) => Err(e),
                    Ok(cpu) => match machine {
                        Ok(m) => Ok((os, cpu, m)),
                        Err(_) => match uname_m {
                            Ok(m) => Ok((os, cpu, m)),
                            Err(e) => Err(e),
                        },
                    },
                },
            }
        },
        Platform::Linux => match uname_m {
            Ok(m) => Ok((linux_os(readings), linux_cpu(readings), m)),
            Err(e) => Err(e),
        },
        Platform::Unsupported => Ok(
            (text_or(uname_sr, "Unknown"@), "Unknown"@, text_or(uname_m, "Unknown"@)),
        ),
    }
}

/// What the readings say of the system. Host name and kernel version are
/// required on every platform.
pub open spec fn system_info_of(platform: Platform, readings: SystemReadings) -> Result<
    SystemInfoView,
    TelemetryErrorView,
> {
    match command_output_of("hostname"@, seq![], readings.hostname) {
        Err(e) => Err(e),
        Ok(hostname) => match command_output_of("uname"@, seq!["-r"@], readings.kernel) {
            Err(e) => Err(e),
            Ok(kernel) => match platform_info(platform, readings) {
                Err(e) => Err(e),
                Ok((os, cpu, machine)) => Ok(
                    SystemInfoView { hostname, os, kernel, cpu, machine },
                ),
            },
        },
    }
}

/// The mathematical content of the result of describing the system.
pub open spec fn system_view(r: Result<SystemInfo, TelemetryError>) -> Result<
    SystemInfoView,
    TelemetryErrorView,
> {
    match r {
        Ok(info) => Ok(info@),
        Err(e) => Err(e@),
    }
}

/// Runs of `uname` with one flag.
fn uname(flag: &str, outcome: &CommandOutcome) -> (r: Result<String, TelemetryError>)
    ensures
        text_outcome(r) == command_output_of("uname"@, seq![flag@], *outcome),
{
    let args = [flag];
    assert(arg_texts(args@) =~= seq![flag@]);
    get_command_output("uname", &args, outcome)
}

/// Runs of `sysctl -n` on one name.
fn sysctl(name: &str, outcome: &CommandOutcome) -> (r: Result<String, TelemetryError>)
    ensures
        text_outcome(r) == command_output_of("sysctl"@, seq!["-n"@, name@], *outcome),
{
    let args = ["-n", name];
    assert(arg_texts(args@) =~= seq!["-n"@, name@]);
    get_command_output("sysctl", &args, outcome)
}

/// Describes the system from what was read.
pub fn get_system_info(platform: Platform, readings: &SystemReadings) -> (r: Result<
    SystemInfo,
    TelemetryError,
>)
    ensures
        system_view(r) == system_info_of(platform, *readings),
{
    let no_args: [&str; 0] = [];
    assert(arg_texts(no_args@) =~= Seq::<Seq<char>>::empty());
    let hostname = match get_command_output("hostname", &no_args, &readings.hostname) {
        Ok(hostname) => hostname,
        Err(e) => {
            return Err(e);
        },
    };
    let kernel = match uname("-r", &readings.kernel) {
        Ok(kernel) => kernel,
        Err(e) => {
            return Err(e);
        },
    };
    match platform {
        Platform::FreeBsd => {
            let os = match uname("-sr", &readings.os_name) {
                Ok(os) => os,
                Err(e) => {
                    return Err(e);
                },
            };
            let cpu = match sysctl("hw.model", &readings.hw_model) {
                Ok(cpu) => cpu,
                Err(e) => {
                    return Err(e);
                },
            };
            let machine = match sysctl("hw.machine", &readings.hw_machine) {
                Ok(machine) => machine,
                Err(_) => match uname("-m", &readings.machine) {
                    Ok(machine) => machine,
                    Err(e) => {
                        return Err(e);
                    },
                },
            };
            Ok(SystemInfo { hostname, os, kernel, cpu, machine })
        },
        Platform::Linux => {
            let stated = match &readings.os_release {
                Some(content) => read_keyed_value(
                    content.as_str(),
                    "PRETTY_NAME=",
                    '=',
                    Trimming::Quotes,
                ),
                None => None,
            };
            let os = match stated {
                Some(name) => name,
                None => match uname("-sr", &readings.os_name) {
                    Ok(name) => name,
                    Err(_) => String::new(),
                },
            };
            let model = match &readings.cpuinfo {
                Some(content) => read_keyed_value(
                    content.as_str(),
                    "model name",
                    ':',
                    Trimming::Whitespace,
                ),
                None => None,
            };
            let cpu = match model {
                Some(model) => model,
                None => String::new(),
            };
            let machine = match uname("-m", &readings.machine) {
                Ok(machine) => machine,
                Err(e) => {
                    return Err(e);
                },
            };
            Ok(SystemInfo { hostname, os, kernel, cpu, machine })
        },
        Platform::Unsupported => {
            let os = match uname("-sr", &readings.os_name) {
                Ok(os) => os,
                Err(_) => "Unknown".to_owned(),
            };
            let machine = match uname("-m", &readings.machine) {
                Ok(machine) => machine,
                Err(_) => "Unknown".to_owned(),
            };
            Ok(SystemInfo { hostname, os, kernel, cpu: "Unknown".to_owned(), machine })
        },
    }
}

} // verus!
