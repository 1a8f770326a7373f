use sustas::block::Block;
use sustas::dbus::{Interface, ManagedObjects, Object, Property, Value};
use sustas::modules::bluetooth::{Adapter, Bluetooth, BluetoothDevice, Device, DeviceChange, Error};

fn object(path: &str, interface: &str, address: &str) -> Object {
    Object {
        path: path.to_owned(),
        interfaces: vec![Interface {
            name: interface.to_owned(),
            properties: vec![Property {
                name: "Address".to_owned(),
                value: Value::Str(address.to_owned()),
            }],
        }],
    }
}

fn objects() -> ManagedObjects {
    ManagedObjects {
        objects: vec![
            object("/org/bluez/hci0", "org.bluez.Adapter1", "00:11"),
            object("/org/bluez/hci0/dev_22_33", "org.bluez.Device1", "22:33"),
            object("/org/bluez/hci1", "org.bluez.Adapter1", "44:55"),
        ],
    }
}

fn shown(text: &str) -> Option<Block> {
    Some(Block { text: text.to_owned(), short_text: Some(text.to_owned()), color: None })
}

fn device(icon: &str, battery_percentage: Option<u8>) -> Device {
    Device { alias: "pad".to_owned(), connected: true, icon: icon.to_owned(), battery_percentage }
}

#[test]
fn adapter_path_is_found_by_address() {
    let module = Bluetooth { address: "44:55".to_owned() };
    assert_eq!(module.path(&objects()).as_deref(), Some("/org/bluez/hci1"));
    assert_eq!(Bluetooth { address: "22:33".to_owned() }.path(&objects()), None);
}

#[test]
fn device_path_is_found_by_address() {
    let module = BluetoothDevice { address: "22:33".to_owned() };
    assert_eq!(module.path(&objects()).as_deref(), Some("/org/bluez/hci0/dev_22_33"));
    assert_eq!(BluetoothDevice { address: "00:11".to_owned() }.path(&objects()), None);
}

#[test]
fn adapter_connects_with_a_readable_flag() {
    assert_eq!(Adapter::connect(Some(true)), Ok(Adapter { powered: true }));
    assert_eq!(Adapter::connect(Some(false)), Ok(Adapter { powered: false }));
    assert_eq!(Adapter::connect(None), Err(Error::Powered));
}

#[test]
fn adapter_block_shows_while_powered() {
    assert_eq!(Adapter { powered: true }.block(), shown("\u{f294}"));
    assert_eq!(Adapter { powered: false }.block(), None);
}

#[test]
fn adapter_takes_changes() {
    let mut adapter = Adapter { powered: false };
    assert_eq!(adapter.wait_for_change(Some(true)), Ok(()));
    assert!(adapter.powered);
    assert_eq!(adapter.wait_for_change(None), Err(Error::Powered));
    assert!(adapter.powered);
    assert_eq!(adapter.wait_for_change(Some(false)), Ok(()));
    assert!(!adapter.powered);
}

#[test]
fn adapter_stream_yields_a_block_per_change() {
    let blocks = Adapter { powered: false }.stream(&vec![Some(true), Some(true), Some(false)]);
    assert_eq!(blocks, vec![None, shown("\u{f294}"), shown("\u{f294}"), None]);
    assert_eq!(Adapter { powered: true }.stream(&Vec::new()), vec![shown("\u{f294}")]);
}

#[test]
fn adapter_stream_ends_at_an_unreadable_flag() {
    let blocks = Adapter { powered: false }.stream(&vec![Some(true), None, Some(false)]);
    assert_eq!(blocks, vec![None, shown("\u{f294}")]);
    assert_eq!(Adapter { powered: true }.stream(&vec![None]), vec![shown("\u{f294}")]);
}

#[test]
fn device_connects_with_the_needed_properties() {
    let device = Device::connect(
        Some("pad".to_owned()),
        Some(true),
        Some("input-gaming".to_owned()),
        None,
    )
    .expect("device");
    assert_eq!(device.alias, "pad");
    assert!(device.connected);
    assert_eq!(device.icon, "input-gaming");
    assert_eq!(device.battery_percentage, None);
    let charged =
        Device::connect(Some("a".to_owned()), Some(false), Some("b".to_owned()), Some(80))
            .expect("device");
    assert_eq!(charged.battery_percentage, Some(80));
}

#[test]
fn device_connect_reports_the_first_missing_property() {
    let text = || Some("x".to_owned());
    assert_eq!(Device::connect(None, None, None, None).err(), Some(Error::Alias));
    assert_eq!(Device::connect(None, Some(true), text(), Some(1)).err(), Some(Error::Alias));
    assert_eq!(Device::connect(text(), None, None, None).err(), Some(Error::Connected));
    assert_eq!(Device::connect(text(), None, text(), Some(1)).err(), Some(Error::Connected));
    assert_eq!(Device::connect(text(), Some(true), None, Some(1)).err(), Some(Error::Icon));
}

#[test]
fn device_block_is_hidden_while_not_connected() {
    let mut device = device("input-mouse", Some(50));
    device.connected = false;
    assert_eq!(device.block(), None);
}

#[test]
fn device_block_shows_the_kind() {
    assert_eq!(device("audio-card", None).block(), shown("\u{f025}"));
    assert_eq!(device("audio-headset", None).block(), shown("\u{f025}"));
    assert_eq!(device("input-gaming", None).block(), shown("\u{f11b}"));
    assert_eq!(device("input-keyboard", None).block(), shown("\u{f11c}"));
    assert_eq!(device("input-mouse", None).block(), shown("\u{f8cc}"));
    assert_eq!(device("phone", None).block(), shown("\u{f293}"));
    assert_eq!(device("", None).block(), shown("\u{f293}"));
    assert_eq!(device("Input-Mouse", None).block(), shown("\u{f293}"));
}

#[test]
fn device_block_shows_the_charge() {
    assert_eq!(device("input-mouse", Some(0)).block(), shown("\u{f8cc} 0"));
    assert_eq!(device("input-mouse", Some(85)).block(), shown("\u{f8cc} 85"));
    assert_eq!(device("phone", Some(100)).block(), shown("\u{f293} 100"));
}

#[test]
fn device_takes_changes() {
    let mut device = device("phone", None);
    assert_eq!(device.wait_for_change(DeviceChange::Alias(Some("new".to_owned()))), Ok(()));
    assert_eq!(device.alias, "new");
    assert_eq!(device.wait_for_change(DeviceChange::Connected(Some(false))), Ok(()));
    assert!(!device.connected);
    assert_eq!(device.wait_for_change(DeviceChange::Icon(Some("input-mouse".to_owned()))), Ok(()));
    assert_eq!(device.icon, "input-mouse");
    assert_eq!(device.wait_for_change(DeviceChange::BatteryPercentage(Some(12))), Ok(()));
    assert_eq!(device.battery_percentage, Some(12));
    assert_eq!(device.wait_for_change(DeviceChange::BatteryPercentage(None)), Ok(()));
    assert_eq!(device.battery_percentage, None);
}

#[test]
fn device_keeps_its_state_on_unreadable_changes() {
    let mut device = device("phone", Some(3));
    assert_eq!(device.wait_for_change(DeviceChange::Alias(None)), Err(Error::Alias));
    assert_eq!(device.wait_for_change(DeviceChange::Connected(None)), Err(Error::Connected));
    assert_eq!(device.wait_for_change(DeviceChange::Icon(None)), Err(Error::Icon));
    assert_eq!(device.alias, "pad");
    assert!(device.connected);
    assert_eq!(device.icon, "phone");
    assert_eq!(device.battery_percentage, Some(3));
}

#[test]
fn device_stream_yields_a_block_per_change() {
    let blocks = device("phone", None).stream(&vec![
        DeviceChange::BatteryPercentage(Some(40)),
        DeviceChange::Alias(Some("new".to_owned())),
        DeviceChange::Icon(Some("input-mouse".to_owned())),
        DeviceChange::Connected(Some(false)),
        DeviceChange::BatteryPercentage(None),
        DeviceChange::Connected(Some(true)),
    ]);
    assert_eq!(
        blocks,
        vec![
            shown("\u{f293}"),
            shown("\u{f293} 40"),
            shown("\u{f293} 40"),
            shown("\u{f8cc} 40"),
            None,
            None,
            shown("\u{f8cc}"),
        ]
    );
    assert_eq!(device("phone", Some(1)).stream(&Vec::new()), vec![shown("\u{f293} 1")]);
}

#[test]
fn device_stream_ends_at_an_unreadable_property() {
    let blocks = device("phone", None).stream(&vec![
        DeviceChange::BatteryPercentage(Some(40)),
        DeviceChange::Icon(None),
        DeviceChange::BatteryPercentage(Some(41)),
    ]);
    assert_eq!(blocks, vec![shown("\u{f293}"), shown("\u{f293} 40")]);
    let blocks = device("phone", None).stream(&vec![DeviceChange::Connected(None)]);
    assert_eq!(blocks, vec![shown("\u{f293}")]);
}

#[test]
fn device_change_clone_keeps_the_value() {
    let change = DeviceChange::Alias(Some("x".to_owned()));
    assert!(matches!(change.clone(), DeviceChange::Alias(Some(alias)) if alias == "x"));
    let change = DeviceChange::BatteryPercentage(Some(9));
    assert!(matches!(change.clone(), DeviceChange::BatteryPercentage(Some(9))));
}
