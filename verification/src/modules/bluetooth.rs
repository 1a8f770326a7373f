//! Bluetooth status bar module.

use crate::block::{block_view, clone_text, text_view, Block, BlockView};
use crate::dbus::{get_object_path, object_path, ManagedObjects};
use crate::text::{decimal, decimal_u8, same_str};
use vstd::prelude::*;
use vstd::string::*;

verus! {

/// The icon of a powered adapter.
pub open spec fn adapter_icon() -> Seq<char> {
    "\u{f294}"@
}

/// The icon of a connected device, by the kind of device that its icon
/// property names.
pub open spec fn device_icon(icon: Seq<char>) -> Seq<char> {
    if icon == "audio-card"@ || icon == "audio-headset"@ {
        "\u{f025}"@
    } else if icon == "input-gaming"@ {
        "\u{f11b}"@
    } else if icon == "input-keyboard"@ {
        "\u{f11c}"@
    } else if icon == "input-mouse"@ {
        "\u{f8cc}"@
    } else {
        "\u{f293}"@
    }
}

/// The name of the interface of an adapter on the bus.
pub open spec fn adapter_interface() -> Seq<char> {
    "org.bluez.Adapter1"@
}

/// The name of the interface of a device on the bus.
pub open spec fn device_interface() -> Seq<char> {
    "org.bluez.Device1"@
}

/// The name of the property that holds an adapter's or a device's address.
pub open spec fn address_property() -> Seq<char> {
    "Address"@
}

/// A property that could not be read.
#[derive(Debug, Clone, Copy, PartialEq, Eq, Structural)]
pub enum Error {
    /// An adapter's powered flag.
    Powered,
    /// A device's alias.
    Alias,
    /// A device's connected flag.
    Connected,
    /// A device's icon.
    Icon,
}

/// Bluetooth status bar module.
#[derive(Debug, Clone)]
pub struct Bluetooth {
    /// The address of the bluetooth adapter.
    pub address: String,
}

impl Bluetooth {
    /// The path of the adapter with the module's address among the objects
    /// that the bus reports, if there is one.
    pub fn path(&self, objects: &ManagedObjects) -> (path: Option<String>)
        ensures
            text_view(path) == object_path(
                objects.objects@,
                adapter_interface(),
                address_property(),
                self.address@,
            ),
    {
        get_object_path(objects, "org.bluez.Adapter1", "Address", self.address.as_str())
    }
}

/// Bluetooth device status bar module.
#[derive(Debug, Clone)]
pub struct BluetoothDevice {
    /// The address of the bluetooth device.
    pub address: String,
}

impl BluetoothDevice {
    /// The path of the device with the module's address among the objects that
    /// the bus reports, if there is one.
    pub fn path(&self, objects: &ManagedObjects) -> (path: Option<String>)
        ensures
            text_view(path) == object_path(
                objects.objects@,
                device_interface(),
                address_property(),
                self.address@,
            ),
    {
        get_object_path(objects, "org.bluez.Device1", "Address", self.address.as_str())
    }
}

/// What the module knows of an adapter.
#[derive(Debug, Clone, Copy, PartialEq, Eq, Structural)]
pub struct Adapter {
    /// Whether the adapter is powered.
    pub powered: bool,
}

/// The block of an adapter: its icon while it is powered, nothing otherwise.
pub open spec fn adapter_block(adapter: Adapter) -> Option<BlockView> {
    if adapter.powered {
        Some(BlockView { text: adapter_icon(), short_text: Some(adapter_icon()), color: None })
    } else {
        None
    }
}

/// The adapter after a change of its powered flag, or the error where the flag
/// could not be read.
pub open spec fn adapter_after(adapter: Adapter, change: Option<bool>) -> Result<Adapter, Error> {
    match change {
        Some(powered) => Ok(Adapter { powered }),
        None => Err(Error::Powered),
    }
}

/// The blocks that an adapter's stream yields while changes arrive: the block
/// of the adapter as it starts, then one block after each change, up to the
/// first change that cannot be read, where the stream ends.
pub open spec fn adapter_emissions(adapter: Adapter, changes: Seq<Option<bool>>) -> Seq<
    Option<BlockView>,
>
    decreases changes.len(),
{
    if changes.len() == 0 {
        seq![adapter_block(adapter)]
    } else {
        match adapter_after(adapter, changes[0]) {
            Ok(next) => seq![adapter_block(adapter)] + adapter_emissions(
                next,
                changes.drop_first(),
            ),
            Err(_) => seq![adapter_block(adapter)],
        }
    }
}

impl Adapter {
    /// Makes the adapter from the powered flag as first read, `None` where it
    /// could not be read.
    pub fn connect(powered: Option<bool>) -> (adapter: Result<Adapter, Error>)
        ensures
            adapter == match powered {
                Some(powered) => Ok::<Adapter, Error>(Adapter { powered }),
                None => Err(Error::Powered),
            },
    {
        match powered {
            Some(powered) => Ok(Adapter { powered }),
            None => Err(Error::Powered),
        }
    }

    /// The block that shows the adapter.
    pub fn block(&self) -> (block: Option<Block>)
        ensures
            block_view(block) == adapter_block(*self),
    {
        if self.powered {
            Some(
                Block {
                    text: "\u{f294}".to_owned(),
                    short_text: Some("\u{f294}".to_owned()),
                    color: None,
                },
            )
        } else {
            None
        }
    }

    /// Takes a change of the powered flag, `None` where the flag could not be
    /// read: the adapter then stays as it is, and the error is returned.
    pub fn wait_for_change(&mut self, change: Option<bool>) -> (res: Result<(), Error>)
        ensures
            match adapter_after(*old(self), change) {
                Ok(next) => res is Ok && *final(self) == next,
                Err(error) => res == Err::<(), Error>(error) && *final(self) == *old(self),
            },
    {
        match change {
            Some(powered) => {
                self.powered = powered;
                Ok(())
            },
            None => Err(Error::Powered),
        }
    }

    /// Runs the adapter over the changes that arrive and returns the blocks of
    /// its stream.
    pub fn stream(self, changes: &Vec<Option<bool>>) -> (blocks: Vec<Option<Block>>)
        ensures
            crate::bar::cache_view(blocks@) == adapter_emissions(self, changes@),
    {
        let mut adapter = self;
        let mut blocks: Vec<Option<Block>> = Vec::new();
        let mut next: usize = 0;
        assert(changes@.skip(0) == changes@);
        loop
            invariant
                next <= changes@.len(),
                adapter_emissions(self, changes@) == crate::bar::cache_view(blocks@)
                    + adapter_emissions(adapter, changes@.skip(next as int)),
            decreases changes@.len() - next,
        {
            let ghost rest = changes@.skip(next as int);
            let ghost earlier = crate::bar::cache_view(blocks@);
            let block = adapter.block();
            blocks.push(block);
            assert(crate::bar::cache_view(blocks@) =~= earlier + seq![block_view(block)]);
            if next >= changes.len() {
                assert(rest.len() == 0);
                return blocks;
            }
            assert(rest[0] == changes@[next as int]);
            assert(rest.drop_first() == changes@.skip(next + 1));
            match adapter.wait_for_change(changes[next]) {
                Ok(()) => {},
                Err(_) => {
                    return blocks;
                },
            }
            next += 1;
        }
    }
}

/// What the module knows of a device.
#[derive(Debug)]
pub struct Device {
    /// The name of the device.
    pub alias: String,
    /// Whether the device is connected.
    pub connected: bool,
    /// The kind of the device.
    pub icon: String,
    /// The charge of the device's battery in percent, where it is known.
    pub battery_percentage: Option<u8>,
}

/// The value of a [`Device`].
pub struct DeviceView {
    pub alias: Seq<char>,
    pub connected: bool,
    pub icon: Seq<char>,
    pub battery_percentage: Option<u8>,
}

impl View for Device {
    type V = DeviceView;

    open spec fn view(&self) -> DeviceView {
        DeviceView {
            alias: self.alias@,
            connected: self.connected,
            icon: self.icon@,
            battery_percentage: self.battery_percentage,
        }
    }
}

/// A change of a property of a device. The value is `None` where the property
/// could not be read.
#[derive(Debug)]
pub enum DeviceChange {
    /// The name of the device.
    Alias(Option<String>),
    /// Whether the device is connected.
    Connected(Option<bool>),
    /// The kind of the device.
    Icon(Option<String>),
    /// The charge of the device's battery in percent.
    BatteryPercentage(Option<u8>),
}

/// The value of a [`DeviceChange`].
pub enum DeviceChangeView {
    Alias(Option<Seq<char>>),
    Connected(Option<bool>),
    Icon(Option<Seq<char>>),
    BatteryPercentage(Option<u8>),
}

impl View for DeviceChange {
    type V = DeviceChangeView;

    open spec fn view(&self) -> DeviceChangeView {
        match self {
            DeviceChange::Alias(alias) => DeviceChangeView::Alias(text_view(*alias)),
            DeviceChange::Connected(connected) => DeviceChangeView::Connected(*connected),
            DeviceChange::Icon(icon) => DeviceChangeView::Icon(text_view(*icon)),
            DeviceChange::BatteryPercentage(percentage) => DeviceChangeView::BatteryPercentage(
                *percentage,
            ),
        }
    }
}

impl Clone for DeviceChange {
    fn clone(&self) -> (res: DeviceChange)
        ensures
            res@ == self@,
    {
        match self {
            DeviceChange::Alias(alias) => DeviceChange::Alias(clone_text(alias)),
            DeviceChange::Connected(connected) => DeviceChange::Connected(*connected),
            DeviceChange::Icon(icon) => DeviceChange::Icon(clone_text(icon)),
            DeviceChange::BatteryPercentage(percentage) => DeviceChange::BatteryPercentage(
                *percentage,
            ),
        }
    }
}

/// The values of a sequence of changes, in arrival order.
pub open spec fn device_changes_view(changes: Seq<DeviceChange>) -> Seq<DeviceChangeView> {
    changes.map_values(|change: DeviceChange| change@)
}

/// The block of a device: nothing while it is not connected; else its icon,
/// followed by the charge of its battery where that is known.
pub open spec fn device_block(device: DeviceView) -> Option<BlockView> {
    if !device.connected {
        None
    } else {
        let text = match device.battery_percentage {
            Some(percentage) => device_icon(device.icon) + seq![' '] + decimal(percentage as nat),
            None => device_icon(device.icon),
        };
        Some(BlockView { text, short_text: Some(text), color: None })
    }
}

/// The device made from its properties as first read, each `None` where it
/// could not be read. The alias, the connected flag and the icon are needed,
/// and the first of them that is missing, in this order, is the error; a
/// battery charge that cannot be read is a charge that is not known.
pub open spec fn device_connected(
    alias: Option<Seq<char>>,
    connected: Option<bool>,
    icon: Option<Seq<char>>,
    battery_percentage: Option<u8>,
) -> Result<DeviceView, Error> {
    match (alias, connected, icon) {
        (None, _, _) => Err(Error::Alias),
        (Some(_), None, _) => Err(Error::Connected),
        (Some(_), Some(_), None) => Err(Error::Icon),
        (Some(alias), Some(connected), Some(icon)) => Ok(
            DeviceView { alias, connected, icon, battery_percentage },
        ),
    }
}

/// The device after a change, or the error where the changed property is
/// needed and could not be read.
pub open spec fn device_after(device: DeviceView, change: DeviceChangeView) -> Result<
    DeviceView,
    Error,
> {
    match change {
        DeviceChangeView::Alias(Some(alias)) => Ok(DeviceView { alias, ..device }),
        DeviceChangeView::Alias(None) => Err(Error::Alias),
        DeviceChangeView::Connected(Some(connected)) => Ok(DeviceView { connected, ..device }),
        DeviceChangeView::Connected(None) => Err(Error::Connected),
        DeviceChangeView::Icon(Some(icon)) => Ok(DeviceView { icon, ..device }),
        DeviceChangeView::Icon(None) => Err(Error::Icon),
        DeviceChangeView::BatteryPercentage(battery_percentage) => Ok(
            DeviceView { battery_percentage, ..device },
        ),
    }
}

/// The blocks that a device's stream yields while changes arrive: the block of
/// the device as it starts, then one block after each change, up to the first
/// change of a needed property that cannot be read, where the stream ends.
pub open spec fn device_emissions(device: DeviceView, changes: Seq<DeviceChangeView>) -> Seq<
    Option<BlockView>,
>
    decreases changes.len(),
{
    if changes.len() == 0 {
        seq![device_block(device)]
    } else {
        match device_after(device, changes[0]) {
            Ok(next) => seq![device_block(device)] + device_emissions(next, changes.drop_first()),
            Err(_) => seq![device_block(device)],
        }
    }
}

impl Device {
    /// Makes the device from its properties as first read, each `None` where
    /// it could not be read.
    pub fn connect(
        alias: Option<String>,
        connected: Option<bool>,
        icon: Option<String>,
        battery_percentage: Option<u8>,
    ) -> (device: Result<Device, Error>)
        ensures
            match device_connected(text_view(alias), connected, text_view(icon), battery_percentage) {
                Ok(view) => device is Ok && device->Ok_0@ == view,
                Err(error) => device is Err && device->Err_0 == error,
            },
    {
        let alias = match alias {
            Some(alias) => alias,
            None => return Err(Error::Alias),
        };
        let connected = match connected {
            Some(connected) => connected,
            None => return Err(Error::Connected),
        };
        let icon = match icon {
            Some(icon) => icon,
            None => return Err(Error::Icon),
        };
        Ok(Device { alias, connected, icon, battery_percentage })
    }

    /// The block that shows the device.
    pub fn block(&self) -> (block: Option<Block>)
        ensures
            block_view(block) == device_block(self@),
    {
        if !self.connected {
            return None;
        }
        let kind = self.icon.as_str();
        let icon = if same_str(kind, "audio-card") || same_str(kind, "audio-headset") {
            "\u{f025}"
        } else if same_str(kind, "input-gaming") {
            "\u{f11b}"
        } else if same_str(kind, "input-keyboard") {
            "\u{f11c}"
        } else if same_str(kind, "input-mouse") {
            "\u{f8cc}"
        } else {
            "\u{f293}"
        };
        let mut text = icon.to_owned();
        match self.battery_percentage {
            Some(percentage) => {
                text.append(" ");
                text.append(decimal_u8(percentage).as_str());
                proof {
                    reveal_strlit(" ");
                    assert(text@ =~= device_icon(self.icon@) + seq![' '] + decimal(
                        percentage as nat,
                    ));
                }
            },
            None => {},
        }
        let short_text = text.clone();
        Some(Block { text, short_text: Some(short_text), color: None })
    }

    /// Takes a change of one of the device's properties. Where a property that
    /// is needed could not be read, the device stays as it is and the error is
    /// returned.
    pub fn wait_for_change(&mut self, change: DeviceChange) -> (res: Result<(), Error>)
        ensures
            match device_after(old(self)@, change@) {
                Ok(next) => res is Ok && final(self)@ == next,
                Err(error) => res == Err::<(), Error>(error) && final(self)@ == old(self)@,
            },
    {
        match change {
            DeviceChange::Alias(Some(alias)) => {
                self.alias = alias;
            },
            DeviceChange::Alias(None) => {
                return Err(Error::Alias);
            },
            DeviceChange::Connected(Some(connected)) => {
                self.connected = connected;
            },
            DeviceChange::Connected(None) => {
                return Err(Error::Connected);
            },
            DeviceChange::Icon(Some(icon)) => {
                self.icon = icon;
            },
            DeviceChange::Icon(None) => {
                return Err(Error::Icon);
            },
            DeviceChange::BatteryPercentage(percentage) => {
                self.battery_percentage = percentage;
            },
        }
        Ok(())
    }

    /// Runs the device over the changes that arrive and returns the blocks of
    /// its stream.
    pub fn stream(self, changes: &Vec<DeviceChange>) -> (blocks: Vec<Option<Block>>)
        ensures
            crate::bar::cache_view(blocks@) == device_emissions(
                self@,
                device_changes_view(changes@),
            ),
    {
        let ghost arrived = device_changes_view(changes@);
        let mut device = self;
        let mut blocks: Vec<Option<Block>> = Vec::new();
        let mut next: usize = 0;
        assert(arrived.skip(0) == arrived);
        loop
            invariant
                next <= changes@.len(),
                arrived == device_changes_view(changes@),
                device_emissions(self@, arrived) == crate::bar::cache_view(blocks@)
                    + device_emissions(device@, arrived.skip(next as int)),
            decreases changes@.len() - next,
        {
            let ghost rest = arrived.skip(next as int);
            let ghost earlier = crate::bar::cache_view(blocks@);
            let block = device.block();
            blocks.push(block);
            assert(crate::bar::cache_view(blocks@) =~= earlier + seq![block_view(block)]);
            if next >= changes.len() {
                assert(rest.len() == 0);
                return blocks;
            }
            assert(rest[0] == changes@[next as int]@);
            assert(rest.drop_first() == arrived.skip(next + 1));
            match device.wait_for_change(changes[next].clone()) {
                Ok(()) => {},
                Err(_) => {
                    return blocks;
                },
            }
            next += 1;
        }
    }
}

} // verus!
