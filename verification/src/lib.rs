//! # batlab
//!
//! Point-in-time power, load, memory and temperature telemetry for laptops
//! that run FreeBSD or Linux, for measurements of battery efficiency.
//!
//! The library decides; it never touches the system. Whoever uses it runs
//! the tools and reads the pseudo-files, and hands what came back to the
//! functions here: as a [`model::CommandOutcome`] for a command, as the
//! content of a file, or as the entries of a directory. What the functions
//! return is stated over mathematical models of the texts, and proved.
//!
//! - [`text`] and [`decimal`]: lines, words and exact decimal numbers.
//! - [`fields`]: named numeric fields and charging states in tool output.
//! - [`chain`]: the order in which battery sources are asked, and when the
//!   search for a reading ends.
//! - [`freebsd_telemetry`], [`linux_telemetry`], [`unsupported_telemetry`]:
//!   what the sources of each platform amount to.
//! - [`telemetry`]: the complete sample and the description of the system.
//! - [`run_id`] and [`workload`]: what the command line needs besides.
//!
//! Numbers are kept as exact decimals, never as floating point: a reading of
//! `57040` milliwatt-hours is `57.040` watt-hours, digit for digit.

pub mod chain;
pub mod decimal;
pub mod error;
pub mod fields;
pub mod freebsd_telemetry;
pub mod linux_telemetry;
pub mod metrics;
pub mod model;
pub mod run_id;
pub mod telemetry;
pub mod text;
pub mod unsupported_telemetry;
pub mod workload;

pub use crate::chain::{BatterySource, Platform};
pub use crate::decimal::Decimal;
pub use crate::error::{BatteryError, TelemetryError};
pub use crate::model::{
    BatteryCapacity, BatteryInfo, CommandOutcome, SystemInfo, TelemetrySample, Timestamp,
};
pub use crate::run_id::{generate_run_id, parse_run_id_fallback};
pub use crate::telemetry::{collect_telemetry, get_system_info};
