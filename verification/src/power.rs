//! Power and clock state.
//!
//! Reading the battery and setting the clocks are platform calls made
//! outside this library; these types carry what those calls report.

use crate::io::SceUid;
use vstd::prelude::*;

verus! {

/// CPU and bus clock frequencies in MHz.
#[derive(Debug, Clone, Copy, PartialEq, Eq, Structural)]
pub struct ClockFrequency {
    /// CPU clock in MHz.
    pub cpu_mhz: i32,
    /// Bus clock in MHz.
    pub bus_mhz: i32,
}

/// Error from a power operation, wrapping the raw device code.
#[derive(Debug, Clone, Copy, PartialEq, Eq, Structural)]
pub struct PowerError(pub i32);

/// Battery status information as the platform reports it.
#[derive(Debug, Clone, Copy, PartialEq, Eq, Structural)]
pub struct BatteryInfo {
    /// Whether the battery is currently charging.
    pub is_charging: bool,
    /// Whether a battery is physically present.
    pub is_present: bool,
    /// Whether the battery level is low.
    pub is_low: bool,
    /// Battery charge percentage (0-100), or -1 on error.
    pub percent: i32,
    /// Estimated remaining battery life in minutes, or -1 on error.
    pub lifetime_minutes: i32,
    /// Battery voltage in millivolts.
    pub voltage_mv: i32,
    /// Battery temperature in firmware units.
    pub temperature: i32,
}

/// A registered power callback: the id the platform granted and the slot
/// it sits in.
#[derive(Debug, Clone, Copy, PartialEq, Eq, Structural)]
pub struct PowerCallbackHandle {
    /// The granted callback id.
    pub cbid: SceUid,
    /// The callback slot.
    pub slot: i32,
}

} // verus!
