//! The two error families of telemetry acquisition.

use vstd::prelude::*;

verus! {

/// `std::io::Error`, the error of a failed read. Nothing is claimed of what
/// it holds: a value of it is only carried from where a read failed to the
/// caller.
#[verifier::external_type_specification]
#[verifier::external_body]
pub struct ExIoError(std::io::Error);

/// `serde_json::Error`, the error of a failed encoding or decoding. Nothing
/// is claimed of what it holds: a value of it is only carried to the caller.
#[verifier::external_type_specification]
#[verifier::external_body]
pub struct ExJsonError(serde_json::Error);

/// Why no battery reading could be had.
#[derive(Debug)]
pub enum BatteryError {
    /// No source produced a reading.
    NotFound,
    /// The battery is charging, so its power draw cannot be measured.
    Charging,
    /// A source answered, but a field was missing or not a number.
    ParseError { field: String, value: String },
    /// A source exists but may not be read.
    PermissionDenied { tool: String },
    /// A tool is missing or failed.
    ToolUnavailable { tool: String },
}

/// The mathematical content of a `BatteryError`.
pub ghost enum BatteryErrorView {
    NotFound,
    Charging,
    ParseError { field: Seq<char>, value: Seq<char> },
    PermissionDenied { tool: Seq<char> },
    ToolUnavailable { tool: Seq<char> },
}

impl View for BatteryError {
    type V = BatteryErrorView;

    open spec fn view(&self) -> BatteryErrorView {
        match *self {
            BatteryError::NotFound => BatteryErrorView::NotFound,
            BatteryError::Charging => BatteryErrorView::Charging,
            BatteryError::ParseError { field, value } => BatteryErrorView::ParseError {
                field: field@,
                value: value@,
            },
            BatteryError::PermissionDenied { tool } => BatteryErrorView::PermissionDenied {
                tool: tool@,
            },
            BatteryError::ToolUnavailable { tool } => BatteryErrorView::ToolUnavailable {
                tool: tool@,
            },
        }
    }
}

/// Why a telemetry operation failed.
#[derive(Debug)]
pub enum TelemetryError {
    /// The battery could not be read.
    Battery(BatteryError),
    /// A command could not be run, or ended in failure.
    CommandFailed { command: String, message: String },
    /// A source answered in a form that could not be understood.
    ParseError { context: String, message: String },
    /// A resource exists but may not be read.
    PermissionDenied { resource: String },
    /// Reading a file failed.
    Io(std::io::Error),
    /// Encoding or decoding a value failed.
    Json(serde_json::Error),
    /// A resource does not exist on this system.
    Unavailable { resource: String },
}

/// The mathematical content of a `TelemetryError`.
pub ghost enum TelemetryErrorView {
    Battery(BatteryErrorView),
    CommandFailed { command: Seq<char>, message: Seq<char> },
    ParseError { context: Seq<char>, message: Seq<char> },
    PermissionDenied { resource: Seq<char> },
    Io(std::io::Error),
    Json(serde_json::Error),
    Unavailable { resource: Seq<char> },
}

impl View for TelemetryError {
    type V = TelemetryErrorView;

    open spec fn view(&self) -> TelemetryErrorView {
        match *self {
            TelemetryError::Battery(e) => TelemetryErrorView::Battery(e@),
            TelemetryError::CommandFailed { command, message } => TelemetryErrorView::CommandFailed {
                command: command@,
                message: message@,
            },
            TelemetryError::ParseError { context, message } => TelemetryErrorView::ParseError {
                context: context@,
                message: message@,
            },
            TelemetryError::PermissionDenied { resource } => TelemetryErrorView::PermissionDenied {
                resource: resource@,
            },
            TelemetryError::Io(e) => TelemetryErrorView::Io(e),
            TelemetryError::Json(e) => TelemetryErrorView::Json(e),
            TelemetryError::Unavailable { resource } => TelemetryErrorView::Unavailable {
                resource: resource@,
            },
        }
    }
}

impl From<BatteryError> for TelemetryError {
    fn from(e: BatteryError) -> (r: TelemetryError) {
        TelemetryError::Battery(e)
    }
}

impl vstd::std_specs::convert::FromSpecImpl<BatteryError> for TelemetryError {
    open spec fn obeys_from_spec() -> bool {
        true
    }

    open spec fn from_spec(e: BatteryError) -> TelemetryError {
        TelemetryError::Battery(e)
    }
}

impl From<std::io::Error> for TelemetryError {
    fn from(e: std::io::Error) -> (r: TelemetryError) {
        TelemetryError::Io(e)
    }
}

impl vstd::std_specs::convert::FromSpecImpl<std::io::Error> for TelemetryError {
    open spec fn obeys_from_spec() -> bool {
        true
    }

    open spec fn from_spec(e: std::io::Error) -> TelemetryError {
        TelemetryError::Io(e)
    }
}

impl From<serde_json::Error> for TelemetryError {
    fn from(e: serde_json::Error) -> (r: TelemetryError) {
        TelemetryError::Json(e)
    }
}

impl vstd::std_specs::convert::FromSpecImpl<serde_json::Error> for TelemetryError {
    open spec fn obeys_from_spec() -> bool {
        true
    }

    open spec fn from_spec(e: serde_json::Error) -> TelemetryError {
        TelemetryError::Json(e)
    }
}


/// The mathematical content of a result whose error is a `BatteryError`.
pub open spec fn battery_outcome<T>(r: Result<T, BatteryError>) -> Result<T, BatteryErrorView> {
    match r {
        Ok(value) => Ok(value),
        Err(e) => Err(e@),
    }
}

/// The mathematical content of a result whose error is a `TelemetryError`.
pub open spec fn telemetry_outcome<T>(r: Result<T, TelemetryError>) -> Result<
    T,
    TelemetryErrorView,
> {
    match r {
        Ok(value) => Ok(value),
        Err(e) => Err(e@),
    }
}

/// The mathematical content of a result that holds a text or a
/// `TelemetryError`.
pub open spec fn text_outcome(r: Result<String, TelemetryError>) -> Result<
    Seq<char>,
    TelemetryErrorView,
> {
    match r {
        Ok(text) => Ok(text@),
        Err(e) => Err(e@),
    }
}

/// The error that reports a tool as missing or failed.
pub open spec fn tool_unavailable(tool: Seq<char>) -> BatteryErrorView {
    BatteryErrorView::ToolUnavailable { tool }
}

/// Builds the error that reports a tool as missing or failed.
pub fn unavailable_tool(tool: &str) -> (e: BatteryError)
    ensures
        e@ == tool_unavailable(tool@),
{
    BatteryError::ToolUnavailable { tool: tool.to_owned() }
}

} // verus!
