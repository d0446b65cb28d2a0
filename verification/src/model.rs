//! The values that an acquisition produces, and the raw readings that it is
//! computed from.

use crate::decimal::Decimal;
use vstd::prelude::*;

verus! {

/// One reading of the battery.
#[derive(Debug, Clone)]
pub struct BatteryInfo {
    /// Charge in percent, between 0 and 100.
    pub percentage: Decimal,
    /// Power draw in watts, never negative.
    pub watts: Decimal,
    /// The source that gave the reading.
    pub source: String,
}

/// The mathematical content of a `BatteryInfo`.
pub ghost struct BatteryInfoView {
    pub percentage: Decimal,
    pub watts: Decimal,
    pub source: Seq<char>,
}

impl View for BatteryInfo {
    type V = BatteryInfoView;

    open spec fn view(&self) -> BatteryInfoView {
        BatteryInfoView { percentage: self.percentage, watts: self.watts, source: self.source@ }
    }
}

impl BatteryInfoView {
    /// The charge lies between 0 and 100 and the power draw is not negative.
    pub open spec fn well_formed(self) -> bool {
        self.percentage.within_percent() && self.watts.mantissa >= 0
    }
}

/// The capacity of the battery in watt-hours, as far as a source states it.
#[derive(Debug, Clone, Copy, PartialEq, Eq, Structural)]
pub struct BatteryCapacity {
    /// The capacity that the battery was designed for.
    pub design_wh: Option<Decimal>,
    /// The capacity that the battery has now when full.
    pub full_wh: Option<Decimal>,
}

impl BatteryCapacity {
    /// Whether at least one of the two capacities is known.
    pub open spec fn has_data(self) -> bool {
        self.design_wh is Some || self.full_wh is Some
    }

    /// `Some` of the capacity when it holds data, `None` otherwise.
    pub open spec fn non_empty(self) -> Option<BatteryCapacity> {
        if self.has_data() {
            Some(self)
        } else {
            None
        }
    }

    /// Drops a capacity of which neither field is known.
    pub fn into_option(self) -> (r: Option<BatteryCapacity>)
        ensures
            r == self.non_empty(),
    {
        if self.design_wh.is_some() || self.full_wh.is_some() {
            Some(self)
        } else {
            None
        }
    }
}

/// A point in time as seconds and nanoseconds since the Unix epoch, in UTC.
#[derive(Debug, Clone, Copy, PartialEq, Eq, Structural)]
pub struct Timestamp {
    pub seconds: i64,
    pub nanoseconds: u32,
}

/// Everything measured at one point in time.
#[derive(Debug, Clone)]
pub struct TelemetrySample {
    /// When the sample was taken.
    pub timestamp: Timestamp,
    /// Battery charge in percent.
    pub percentage: Decimal,
    /// Power draw in watts.
    pub watts: Decimal,
    /// One-minute load average.
    pub cpu_load: Decimal,
    /// Memory in use, in percent.
    pub ram_pct: Decimal,
    /// Temperature in degrees Celsius.
    pub temp_c: Decimal,
    /// The source of the battery reading.
    pub source: String,
}

/// The mathematical content of a `TelemetrySample`.
pub ghost struct TelemetrySampleView {
    pub timestamp: Timestamp,
    pub percentage: Decimal,
    pub watts: Decimal,
    pub cpu_load: Decimal,
    pub ram_pct: Decimal,
    pub temp_c: Decimal,
    pub source: Seq<char>,
}

impl View for TelemetrySample {
    type V = TelemetrySampleView;

    open spec fn view(&self) -> TelemetrySampleView {
        TelemetrySampleView {
            timestamp: self.timestamp,
            percentage: self.percentage,
            watts: self.watts,
            cpu_load: self.cpu_load,
            ram_pct: self.ram_pct,
            temp_c: self.temp_c,
            source: self.source@,
        }
    }
}

impl TelemetrySampleView {
    /// Both percentages lie between 0 and 100, and neither the power draw nor
    /// the load is negative.
    pub open spec fn well_formed(self) -> bool {
        &&& self.percentage.within_percent()
        &&& self.ram_pct.within_percent()
        &&& self.watts.mantissa >= 0
        &&& self.cpu_load.mantissa >= 0
    }
}

/// What identifies the machine on which samples are taken.
#[derive(Debug, Clone)]
pub struct SystemInfo {
    pub hostname: String,
    /// Name and version of the operating system.
    pub os: String,
    /// Version of the kernel.
    pub kernel: String,
    /// Model of the processor.
    pub cpu: String,
    /// Kind of hardware.
    pub machine: String,
}

/// The mathematical content of a `SystemInfo`.
pub ghost struct SystemInfoView {
    pub hostname: Seq<char>,
    pub os: Seq<char>,
    pub kernel: Seq<char>,
    pub cpu: Seq<char>,
    pub machine: Seq<char>,
}

impl View for SystemInfo {
    type V = SystemInfoView;

    open spec fn view(&self) -> SystemInfoView {
        SystemInfoView {
            hostname: self.hostname@,
            os: self.os@,
            kernel: self.kernel@,
            cpu: self.cpu@,
            machine: self.machine@,
        }
    }
}

/// How the run of an external command ended.
#[derive(Debug, Clone)]
pub enum CommandOutcome {
    /// The command could not be started; `message` says why.
    NotStarted { message: String },
    /// The command ran and ended, with success or not, and wrote this.
    Finished { success: bool, stdout: String, stderr: String },
}

impl CommandOutcome {
    /// Whether the command ran and ended with success.
    pub open spec fn succeeded(self) -> bool {
        self matches CommandOutcome::Finished { success, .. } && success
    }

    /// What the command wrote to its standard output; empty if it never ran.
    pub open spec fn output(self) -> Seq<char> {
        match self {
            CommandOutcome::Finished { stdout, .. } => stdout@,
            CommandOutcome::NotStarted { .. } => Seq::empty(),
        }
    }
}

/// The text of an optional string.
pub open spec fn text_of(s: Option<String>) -> Option<Seq<char>> {
    match s {
        Some(t) => Some(t@),
        None => None,
    }
}

impl BatteryInfo {
    /// The reading with this charge and power draw, each brought into its
    /// range: the charge between 0 and 100, the power draw not below zero.
    pub open spec fn reading(percentage: Decimal, watts: Decimal, source: Seq<char>) -> BatteryInfoView {
        BatteryInfoView {
            percentage: percentage.percent_bounded(),
            watts: watts.floor_at_zero(),
            source,
        }
    }

    /// Makes a reading, bringing charge and power draw into their ranges.
    pub fn new(percentage: Decimal, watts: Decimal, source: &str) -> (info: BatteryInfo)
        ensures
            info@ == BatteryInfo::reading(percentage, watts, source@),
            info@.well_formed(),
    {
        BatteryInfo {
            percentage: percentage.clamp_percent(),
            watts: watts.clamp_non_negative(),
            source: source.to_owned(),
        }
    }
}

} // verus!
