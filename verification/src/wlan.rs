//! Wireless LAN state.
//!
//! The chip is queried through platform calls outside this library; the
//! status record carries what those calls report.

use vstd::prelude::*;

verus! {

/// The wireless hardware's state as one record.
#[derive(Debug, Clone, Copy)]
pub struct WlanStatus {
    /// Whether the WLAN chip is powered on.
    pub power_on: bool,
    /// Whether the physical WLAN switch is in the ON position.
    pub switch_on: bool,
    /// The 6-byte Ethernet (MAC) address of the interface.
    pub mac_address: [u8; 6],
}

impl WlanStatus {
    /// Whether the radio can be used: powered on with the switch on.
    pub fn is_usable(&self) -> (r: bool)
        ensures
            r == (self.power_on && self.switch_on),
    {
        self.power_on && self.switch_on
    }
}

} // verus!
