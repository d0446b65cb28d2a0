//! Telemetry on a platform that has no source for any of it: every metric is
//! unavailable, and there is no battery.

use crate::decimal::Decimal;
use crate::error::{BatteryError, BatteryErrorView, TelemetryError, TelemetryErrorView};
use crate::model::{BatteryCapacity, BatteryInfo};
use vstd::prelude::*;

verus! {

/// There is no battery to be found.
pub fn get_battery_info() -> (r: Result<BatteryInfo, BatteryError>)
    ensures
        r matches Err(e) && e@ == BatteryErrorView::NotFound,
{
    Err(BatteryError::NotFound)
}

/// The load average is unavailable.
pub fn get_cpu_load() -> (r: Result<Decimal, TelemetryError>)
    ensures
        r matches Err(e) && e@ == (TelemetryErrorView::Unavailable {
            resource: "CPU load on unsupported platform"@,
        }),
{
    Err(TelemetryError::Unavailable { resource: "CPU load on unsupported platform".to_owned() })
}

/// The memory usage is unavailable.
pub fn get_memory_usage() -> (r: Result<Decimal, TelemetryError>)
    ensures
        r matches Err(e) && e@ == (TelemetryErrorView::Unavailable {
            resource: "Memory usage on unsupported platform"@,
        }),
{
    Err(TelemetryError::Unavailable { resource: "Memory usage on unsupported platform".to_owned() })
}

/// The temperature is unavailable.
pub fn get_temperature() -> (r: Result<Decimal, TelemetryError>)
    ensures
        r matches Err(e) && e@ == (TelemetryErrorView::Unavailable {
            resource: "Temperature sensors on unsupported platform"@,
        }),
{
    Err(
        TelemetryError::Unavailable {
            resource: "Temperature sensors on unsupported platform".to_owned(),
        },
    )
}

/// There is no capacity, which is no error.
pub fn get_battery_capacity() -> (r: Result<Option<BatteryCapacity>, BatteryError>)
    ensures
        r matches Ok(capacity) && capacity is None,
{
    Ok(None)
}

} // verus!
