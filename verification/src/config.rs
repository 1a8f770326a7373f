//! Sustas config.

use crate::format::Format;
use crate::modules::bluetooth::{Bluetooth, BluetoothDevice};
use crate::modules::{battery, clock, wifi};
use vstd::prelude::*;

verus! {

/// Sustas config.
#[derive(Debug)]
pub struct Config {
    /// The output format of the bar.
    pub format: Format,
    /// Configuration for each module in the bar.
    pub modules: Vec<Module>,
}

/// A single module's config.
#[derive(Debug)]
pub enum Module {
    /// Battery module config.
    Battery(battery::Config),
    /// Clock module config.
    Clock(clock::Config),
    /// Bluetooth module config.
    Bluetooth(Bluetooth),
    /// Bluetooth device module config.
    BluetoothDevice(BluetoothDevice),
    /// Wifi module config.
    Wifi(wifi::Config),
}

} // verus!
