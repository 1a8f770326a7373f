//! A collection of status bar modules.

pub mod battery;
pub mod bluetooth;
pub mod clock;
pub mod wifi;

use crate::config;
use vstd::prelude::*;

verus! {

/// A status bar module.
#[derive(Debug, Clone)]
pub enum Module {
    /// Clock module.
    Clock(self::clock::Clock),
    /// Battery module.
    Battery(self::battery::Battery),
    /// Bluetooth module.
    Bluetooth(self::bluetooth::Bluetooth),
    /// Bluetooth device module.
    BluetoothDevice(self::bluetooth::BluetoothDevice),
    /// Wi-Fi module.
    Wifi(self::wifi::Config),
}

/// Whether a module is the one that a config asks for: of the same kind, and
/// with the config's options.
pub open spec fn configured(config: config::Module, module: Module) -> bool {
    match config {
        config::Module::Battery(config) => module matches Module::Battery(battery)
            && battery.spec_capacity_path() == self::battery::battery_file(
            config.name@,
            "capacity"@,
        ) && battery.spec_status_path() == self::battery::battery_file(config.name@, "status"@),
        config::Module::Clock(config) => module matches Module::Clock(clock) && clock.spec_format()
            == config.format@ && clock.spec_short_format() == config.short_format@,
        config::Module::Bluetooth(config) => module == Module::Bluetooth(config),
        config::Module::BluetoothDevice(config) => module == Module::BluetoothDevice(config),
        config::Module::Wifi(config) => module == Module::Wifi(config),
    }
}

impl From<config::Module> for Module {
    /// Makes the module that a config asks for.
    fn from(config: config::Module) -> (module: Module)
        ensures
            configured(config, module),
    {
        match config {
            config::Module::Battery(config) => Module::Battery(self::battery::Battery::new(config)),
            config::Module::Clock(config) => Module::Clock(self::clock::Clock::new(config)),
            config::Module::Bluetooth(config) => Module::Bluetooth(config),
            config::Module::BluetoothDevice(config) => Module::BluetoothDevice(config),
            config::Module::Wifi(config) => Module::Wifi(config),
        }
    }
}

/// The conversion from a config is stated by the contract of `from` alone.
impl vstd::std_specs::convert::FromSpecImpl<config::Module> for Module {
    open spec fn obeys_from_spec() -> bool {
        false
    }

    open spec fn from_spec(config: config::Module) -> Module {
        arbitrary()
    }
}

} // verus!
