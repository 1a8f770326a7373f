//! Battery status bar module.

use crate::block::{text_view, Block, BlockView};
use crate::{outcome_view, Module};
use crate::text::{
    decimal, decimal_u8, join, joined, parse_u8, parsed_u8, same_str, trim, trimmed,
};
use vstd::prelude::*;
use vstd::string::*;

verus! {

/// The number of seconds between two readings of the battery.
pub const INTERVAL_SECS: u64 = 5;

/// The directory that holds one directory for each power supply.
pub open spec fn power_supplies() -> Seq<char> {
    "/sys/class/power_supply"@
}

/// The path of a file of the battery with the given name.
pub open spec fn battery_file(name: Seq<char>, file: Seq<char>) -> Seq<char> {
    joined(joined(power_supplies(), name), file)
}

/// The icon of a battery that is charging.
pub open spec fn charging_icon() -> Seq<char> {
    "\u{f1e6}"@
}

/// The color of a battery that is charging.
pub open spec fn charging_color() -> Seq<char> {
    "#00ff00"@
}

/// The color of a battery that is nearly empty.
pub open spec fn low_color() -> Seq<char> {
    "#ff0000"@
}

/// The icon of a battery that is discharging, by its capacity in percent.
pub open spec fn capacity_icon(capacity: u8) -> Seq<char> {
    if capacity <= 25 {
        "\u{f243}"@
    } else if capacity <= 50 {
        "\u{f242}"@
    } else if capacity <= 75 {
        "\u{f241}"@
    } else {
        "\u{f240}"@
    }
}

/// The block of a battery: its icon, its capacity and a percent sign, in
/// green while it charges and in red while it is nearly empty.
pub open spec fn battery_block(status: Status, capacity: u8) -> BlockView {
    if status is Charging {
        BlockView {
            text: charging_icon() + seq![' '] + decimal(capacity as nat) + seq!['%'],
            short_text: None,
            color: Some(charging_color()),
        }
    } else {
        BlockView {
            text: capacity_icon(capacity) + seq![' '] + decimal(capacity as nat) + seq!['%'],
            short_text: None,
            color: if capacity <= 25 {
                Some(low_color())
            } else {
                None
            },
        }
    }
}

/// The status that the text of a status file gives: charging where the text,
/// without the white space around it, reads `Charging`.
pub open spec fn status_of(text: Seq<char>) -> Status {
    if trimmed(text) == "Charging"@ {
        Status::Charging
    } else {
        Status::Discharging
    }
}

/// The outcome of one reading, from the texts of the status file and of the
/// capacity file, each `None` where the file could not be read. A status that
/// cannot be read is reported before anything about the capacity.
pub open spec fn reading(status: Option<Seq<char>>, capacity: Option<Seq<char>>) -> Result<
    Option<BlockView>,
    Error,
> {
    match (status, capacity) {
        (None, _) => Err(Error::ReadStatus),
        (Some(_), None) => Err(Error::ReadCapacity),
        (Some(status), Some(capacity)) => match parsed_u8(trimmed(capacity)) {
            Some(capacity) => Ok(Some(battery_block(status_of(status), capacity))),
            None => Err(Error::ParseCapacity),
        },
    }
}

/// What is read of the battery for one block: the texts of the status file
/// and of the capacity file, each `None` where the file could not be read.
#[derive(Debug)]
pub struct Reading {
    /// The text of the status file.
    pub status: Option<String>,
    /// The text of the capacity file.
    pub capacity: Option<String>,
}

/// Battery module config.
#[derive(Debug)]
pub struct Config {
    /// The name of the battery.
    ///
    /// This is usually in the format "BATX", where "X" is an integer.
    pub name: String,
}

/// Why a reading of the battery failed.
#[derive(Debug, Clone, Copy, PartialEq, Eq, Structural)]
pub enum Error {
    /// The status file could not be read.
    ReadStatus,
    /// The capacity file could not be read.
    ReadCapacity,
    /// The capacity file does not hold a number from 0 to 255.
    ParseCapacity,
}

/// Whether the battery is charging.
#[derive(Debug, Clone, Copy, PartialEq, Eq, Structural)]
pub enum Status {
    /// The battery is charging.
    Charging,
    /// The battery is not charging.
    Discharging,
}

impl Status {
    /// Tells whether the battery is charging.
    pub fn is_charging(self) -> (res: bool)
        ensures
            res == (self is Charging),
    {
        matches!(self, Status::Charging)
    }
}

/// Battery status bar module.
#[derive(Debug, Clone)]
pub struct Battery {
    capacity_path: String,
    status_path: String,
}

impl Battery {
    /// The path of the file that holds the battery's capacity.
    pub closed spec fn spec_capacity_path(&self) -> Seq<char> {
        self.capacity_path@
    }

    /// The path of the file that holds the battery's status.
    pub closed spec fn spec_status_path(&self) -> Seq<char> {
        self.status_path@
    }

    /// Creates a new battery module with the provided config.
    pub fn new(config: Config) -> (battery: Battery)
        ensures
            battery.spec_capacity_path() == battery_file(config.name@, "capacity"@),
            battery.spec_status_path() == battery_file(config.name@, "status"@),
    {
        let directory = join("/sys/class/power_supply", config.name.as_str());
        Battery {
            capacity_path: join(directory.as_str(), "capacity"),
            status_path: join(directory.as_str(), "status"),
        }
    }

    /// The path of the file that holds the battery's capacity.
    pub fn capacity_path(&self) -> (path: &String)
        ensures
            path@ == self.spec_capacity_path(),
    {
        &self.capacity_path
    }

    /// The path of the file that holds the battery's status.
    pub fn status_path(&self) -> (path: &String)
        ensures
            path@ == self.spec_status_path(),
    {
        &self.status_path
    }

    /// Reads the capacity, in percent, from the text of the capacity file.
    pub fn get_capacity(text: &str) -> (capacity: Option<u8>)
        ensures
            capacity == parsed_u8(trimmed(text@)),
    {
        parse_u8(trim(text))
    }

    /// Reads the status from the text of the status file.
    pub fn get_status(text: &str) -> (status: Status)
        ensures
            status == status_of(text@),
    {
        if same_str(trim(text), "Charging") {
            Status::Charging
        } else {
            Status::Discharging
        }
    }

    /// The block of a battery with the given status and capacity.
    pub fn block(status: Status, capacity: u8) -> (block: Block)
        ensures
            block@ == battery_block(status, capacity),
    {
        proof {
            reveal_strlit(" ");
            reveal_strlit("%");
        }
        if status.is_charging() {
            let mut text = "\u{f1e6}".to_owned();
            text.append(" ");
            text.append(decimal_u8(capacity).as_str());
            text.append("%");
            assert(text@ =~= charging_icon() + seq![' '] + decimal(capacity as nat) + seq!['%']);
            return Block { text, short_text: None, color: Some("#00ff00".to_owned()) };
        }
        let (icon, color) = if capacity <= 25 {
            ("\u{f243}", Some("#ff0000".to_owned()))
        } else if capacity <= 50 {
            ("\u{f242}", None)
        } else if capacity <= 75 {
            ("\u{f241}", None)
        } else {
            ("\u{f240}", None)
        };
        let mut text = icon.to_owned();
        text.append(" ");
        text.append(decimal_u8(capacity).as_str());
        text.append("%");
        assert(text@ =~= capacity_icon(capacity) + seq![' '] + decimal(capacity as nat) + seq![
            '%',
        ]);
        Block { text, short_text: None, color }
    }
}

impl Module for Battery {
    type Reading = Reading;

    type Error = Error;

    open spec fn block_of(&self, read: Reading) -> Result<Option<BlockView>, Error> {
        reading(text_view(read.status), text_view(read.capacity))
    }

    fn next_block(&mut self, read: Reading) -> (block: Result<Option<Block>, Error>)
        ensures
            *final(self) == *old(self),
    {
        let status = match &read.status {
            Some(text) => Battery::get_status(text.as_str()),
            None => return Err(Error::ReadStatus),
        };
        let capacity = match &read.capacity {
            Some(text) => match Battery::get_capacity(text.as_str()) {
                Some(capacity) => capacity,
                None => return Err(Error::ParseCapacity),
            },
            None => return Err(Error::ReadCapacity),
        };
        Ok(Some(Battery::block(status, capacity)))
    }
}

} // verus!
