use sustas::block::Block;
use sustas::modules::battery::{Battery, Config, Error, Reading, Status, INTERVAL_SECS};
use sustas::Module;

fn battery() -> Battery {
    Battery::new(Config { name: "BAT0".to_owned() })
}

fn read(status: Option<&str>, capacity: Option<&str>) -> Reading {
    Reading { status: status.map(str::to_owned), capacity: capacity.map(str::to_owned) }
}

fn discharging(icon: &str, capacity: u8, color: Option<&str>) -> Block {
    Block {
        text: format!("{icon} {capacity}%"),
        short_text: None,
        color: color.map(str::to_owned),
    }
}

#[test]
fn battery_reads_its_files_below_the_power_supplies() {
    assert_eq!(battery().capacity_path(), "/sys/class/power_supply/BAT0/capacity");
    assert_eq!(battery().status_path(), "/sys/class/power_supply/BAT0/status");
    assert_eq!(INTERVAL_SECS, 5);
}

#[test]
fn battery_paths_agree_with_std() {
    for name in ["BAT0", "BAT1/", "", "/tmp/fake", "a/b", "macsmc-battery", "\u{f1e6}"] {
        let battery = Battery::new(Config { name: name.to_owned() });
        let directory = std::path::Path::new("/sys/class/power_supply").join(name);
        assert_eq!(
            battery.capacity_path().as_str(),
            directory.join("capacity").to_string_lossy(),
            "{name:?}"
        );
        assert_eq!(
            battery.status_path().as_str(),
            directory.join("status").to_string_lossy(),
            "{name:?}"
        );
    }
}

#[test]
fn status_is_charging_only_when_charging() {
    assert!(Status::Charging.is_charging());
    assert!(!Status::Discharging.is_charging());
}

#[test]
fn status_is_read_from_trimmed_text() {
    assert_eq!(Battery::get_status("Charging\n"), Status::Charging);
    assert_eq!(Battery::get_status("  Charging  "), Status::Charging);
    assert_eq!(Battery::get_status("Discharging\n"), Status::Discharging);
    assert_eq!(Battery::get_status("Full\n"), Status::Discharging);
    assert_eq!(Battery::get_status("Not charging\n"), Status::Discharging);
    assert_eq!(Battery::get_status("charging\n"), Status::Discharging);
    assert_eq!(Battery::get_status(""), Status::Discharging);
}

#[test]
fn capacity_is_read_from_trimmed_text() {
    assert_eq!(Battery::get_capacity("87\n"), Some(87));
    assert_eq!(Battery::get_capacity(" 100 \n"), Some(100));
    assert_eq!(Battery::get_capacity("0"), Some(0));
    assert_eq!(Battery::get_capacity("255\n"), Some(255));
    assert_eq!(Battery::get_capacity("256\n"), None);
    assert_eq!(Battery::get_capacity("\n"), None);
    assert_eq!(Battery::get_capacity("8 7\n"), None);
    assert_eq!(Battery::get_capacity("87%\n"), None);
}

#[test]
fn charging_block_is_green() {
    assert_eq!(
        Battery::block(Status::Charging, 42),
        Block {
            text: "\u{f1e6} 42%".to_owned(),
            short_text: None,
            color: Some("#00ff00".to_owned()),
        }
    );
    assert_eq!(Battery::block(Status::Charging, 5).text, "\u{f1e6} 5%");
    assert_eq!(Battery::block(Status::Charging, 100).text, "\u{f1e6} 100%");
}

#[test]
fn discharging_block_shows_the_level() {
    assert_eq!(Battery::block(Status::Discharging, 0), discharging("\u{f243}", 0, Some("#ff0000")));
    assert_eq!(Battery::block(Status::Discharging, 25), discharging("\u{f243}", 25, Some("#ff0000")));
    assert_eq!(Battery::block(Status::Discharging, 26), discharging("\u{f242}", 26, None));
    assert_eq!(Battery::block(Status::Discharging, 50), discharging("\u{f242}", 50, None));
    assert_eq!(Battery::block(Status::Discharging, 51), discharging("\u{f241}", 51, None));
    assert_eq!(Battery::block(Status::Discharging, 75), discharging("\u{f241}", 75, None));
    assert_eq!(Battery::block(Status::Discharging, 76), discharging("\u{f240}", 76, None));
    assert_eq!(Battery::block(Status::Discharging, 100), discharging("\u{f240}", 100, None));
    assert_eq!(Battery::block(Status::Discharging, 255), discharging("\u{f240}", 255, None));
}

#[test]
fn next_block_reads_both_files() {
    assert_eq!(
        battery().next_block(read(Some("Discharging\n"), Some("63\n"))),
        Ok(Some(discharging("\u{f241}", 63, None)))
    );
    assert_eq!(
        battery().next_block(read(Some("Charging\n"), Some("10\n"))),
        Ok(Some(Block {
            text: "\u{f1e6} 10%".to_owned(),
            short_text: None,
            color: Some("#00ff00".to_owned()),
        }))
    );
}

#[test]
fn next_block_reports_what_failed() {
    let charging = Some("Charging\n");
    assert_eq!(battery().next_block(read(None, Some("63\n"))), Err(Error::ReadStatus));
    assert_eq!(battery().next_block(read(None, None)), Err(Error::ReadStatus));
    assert_eq!(battery().next_block(read(None, Some("x"))), Err(Error::ReadStatus));
    assert_eq!(battery().next_block(read(charging, None)), Err(Error::ReadCapacity));
    assert_eq!(battery().next_block(read(charging, Some("x"))), Err(Error::ParseCapacity));
    assert_eq!(battery().next_block(read(charging, Some(""))), Err(Error::ParseCapacity));
    assert_eq!(battery().next_block(read(charging, Some("300"))), Err(Error::ParseCapacity));
}

#[test]
fn next_block_leaves_the_module_as_it_is() {
    let mut battery = battery();
    assert!(battery.next_block(read(None, None)).is_err());
    assert_eq!(battery.status_path(), "/sys/class/power_supply/BAT0/status");
    assert!(battery.next_block(read(Some("Full"), Some("100"))).is_ok());
    assert_eq!(battery.capacity_path(), "/sys/class/power_supply/BAT0/capacity");
}
