use sustas::bar::Bar;
use sustas::block::Block;
use sustas::config::Config;
use sustas::format::Format;
use sustas::modules::battery::Battery;
use sustas::modules::bluetooth::Bluetooth;
use sustas::modules::clock::Clock;
use sustas::modules::Module;

fn two_modules() -> Vec<Module> {
    vec![
        Module::Clock(Clock::new(sustas::modules::clock::Config::default())),
        Module::Bluetooth(Bluetooth { address: "00:11".to_owned() }),
    ]
}

fn block(text: &str) -> Option<Block> {
    Some(Block::from(text))
}

#[test]
fn new_bar_has_one_empty_slot_per_module() {
    let bar = Bar::new(Format::Debug, two_modules());
    assert_eq!(bar.snapshot(), vec![None, None]);
    assert_eq!(bar.format(), Format::Debug);
}

#[test]
fn new_bar_has_no_slot_without_modules() {
    let bar = Bar::new(Format::Swaybar, Vec::new());
    assert_eq!(bar.snapshot(), Vec::<Option<Block>>::new());
    assert_eq!(bar.streams().len(), 0);
}

#[test]
fn new_bar_tags_streams_with_positions() {
    let bar = Bar::new(Format::Debug, two_modules());
    let streams = bar.streams();
    assert_eq!(streams.len(), 2);
    assert_eq!(streams[0].id(), 0);
    assert_eq!(streams[1].id(), 1);
    assert!(matches!(streams[0].module(), Module::Clock(_)));
    assert!(matches!(streams[1].module(), Module::Bluetooth(_)));
}

#[test]
fn update_overwrites_the_slot_and_asks_for_a_render() {
    let mut bar = Bar::new(Format::Debug, two_modules());
    assert!(bar.update(1, block("A")));
    assert_eq!(bar.snapshot(), vec![None, block("A")]);
}

#[test]
fn update_with_the_same_block_is_suppressed() {
    let mut bar = Bar::new(Format::Debug, two_modules());
    assert!(bar.update(0, block("A")));
    assert!(!bar.update(0, block("A")));
    assert_eq!(bar.snapshot(), vec![block("A"), None]);
}

#[test]
fn update_with_absent_block_on_empty_slot_is_suppressed() {
    let mut bar = Bar::new(Format::Debug, two_modules());
    assert!(!bar.update(0, None));
    assert_eq!(bar.snapshot(), vec![None, None]);
}

#[test]
fn update_can_hide_a_slot() {
    let mut bar = Bar::new(Format::Debug, two_modules());
    assert!(bar.update(0, block("A")));
    assert!(bar.update(0, None));
    assert_eq!(bar.snapshot(), vec![None, None]);
}

#[test]
fn update_out_of_range_is_ignored() {
    let mut bar = Bar::new(Format::Debug, two_modules());
    assert!(!bar.update(2, block("A")));
    assert!(!bar.update(usize::MAX, block("A")));
    assert_eq!(bar.snapshot(), vec![None, None]);
}

#[test]
fn update_tells_blocks_apart_by_every_field() {
    let mut bar = Bar::new(Format::Debug, two_modules());
    let plain = Block::from("A");
    let short = Block { text: "A".to_owned(), short_text: Some("A".to_owned()), color: None };
    let colored = Block { text: "A".to_owned(), short_text: None, color: Some("".to_owned()) };
    assert!(bar.update(0, Some(plain)));
    assert!(bar.update(0, Some(short.clone())));
    assert!(!bar.update(0, Some(short)));
    assert!(bar.update(0, Some(colored)));
}

#[test]
fn run_renders_duplicate_once() {
    let mut bar = Bar::new(Format::Debug, two_modules());
    let rendered = bar.run(&vec![(0, block("A")), (0, block("A")), (0, block("B"))]);
    assert_eq!(rendered, vec![vec![block("A"), None], vec![block("B"), None]]);
    assert_eq!(bar.snapshot(), vec![block("B"), None]);
}

#[test]
fn run_without_updates_renders_nothing() {
    let mut bar = Bar::new(Format::Debug, two_modules());
    assert_eq!(bar.run(&Vec::new()), Vec::<Vec<Option<Block>>>::new());
    assert_eq!(bar.snapshot(), vec![None, None]);
}

#[test]
fn run_keeps_slot_order_whatever_the_arrival_order() {
    let mut first = Bar::new(Format::Debug, two_modules());
    let mut second = Bar::new(Format::Debug, two_modules());
    let one = first.run(&vec![(0, block("A")), (1, block("B"))]);
    let other = second.run(&vec![(1, block("B")), (0, block("A"))]);
    assert_eq!(one, vec![vec![block("A"), None], vec![block("A"), block("B")]]);
    assert_eq!(other, vec![vec![None, block("B")], vec![block("A"), block("B")]]);
    assert_eq!(first.snapshot(), second.snapshot());
}

#[test]
fn run_holds_the_latest_block_of_each_slot() {
    let mut bar = Bar::new(Format::Debug, two_modules());
    let rendered = bar.run(
        &vec![(1, block("x")), (0, block("y")), (7, block("lost")), (1, None), (1, block("z"))],
    );
    assert_eq!(rendered.len(), 4);
    assert_eq!(rendered[3], vec![block("y"), block("z")]);
    assert_eq!(bar.snapshot(), vec![block("y"), block("z")]);
}

#[test]
fn run_goes_on_from_the_cache_it_finds() {
    let mut bar = Bar::new(Format::Debug, two_modules());
    assert_eq!(bar.run(&vec![(0, block("A"))]).len(), 1);
    assert_eq!(bar.run(&vec![(0, block("A"))]).len(), 0);
    assert_eq!(bar.run(&vec![(1, block("A"))]), vec![vec![block("A"), block("A")]]);
}

#[test]
fn bar_from_config_builds_the_modules_in_order() {
    let config = Config {
        format: Format::Swaybar,
        modules: vec![
            sustas::config::Module::Battery(sustas::modules::battery::Config {
                name: "BAT0".to_owned(),
            }),
            sustas::config::Module::Wifi(sustas::modules::wifi::Config {
                interface: "wlan0".to_owned(),
            }),
            sustas::config::Module::Clock(sustas::modules::clock::Config::default()),
        ],
    };
    let bar = Bar::from(config);
    assert_eq!(bar.format(), Format::Swaybar);
    assert_eq!(bar.snapshot(), vec![None, None, None]);
    let streams = bar.streams();
    assert_eq!(streams.len(), 3);
    match streams[0].module() {
        Module::Battery(battery) => {
            assert_eq!(battery.status_path(), "/sys/class/power_supply/BAT0/status");
        }
        other => panic!("unexpected module {other:?}"),
    }
    match streams[1].module() {
        Module::Wifi(config) => assert_eq!(config.interface, "wlan0"),
        other => panic!("unexpected module {other:?}"),
    }
    assert!(matches!(streams[2].module(), Module::Clock(_)));
    assert_eq!(streams[2].id(), 2);
}

#[test]
fn module_from_config_keeps_the_options() {
    let module = Module::from(sustas::config::Module::Battery(sustas::modules::battery::Config {
        name: "BAT1".to_owned(),
    }));
    match module {
        Module::Battery(battery) => {
            assert_eq!(battery.capacity_path(), "/sys/class/power_supply/BAT1/capacity");
        }
        other => panic!("unexpected module {other:?}"),
    }
    let battery = Battery::new(sustas::modules::battery::Config { name: "BAT2".to_owned() });
    assert_eq!(battery.capacity_path(), "/sys/class/power_supply/BAT2/capacity");
}

#[test]
fn render_writes_the_cache_in_the_format_of_the_bar() {
    let mut debug = Bar::new(Format::Debug, two_modules());
    let mut swaybar = Bar::new(Format::Swaybar, two_modules());
    assert_eq!(debug.render().as_deref(), Some("[None, None]\n"));
    assert_eq!(swaybar.render().as_deref(), Some("[],\n"));
    assert!(debug.update(1, block("B")));
    assert!(swaybar.update(1, block("B")));
    assert_eq!(
        debug.render().as_deref(),
        Some("[None, Some(Block { text: \"B\", short_text: None, color: None })]\n")
    );
    assert_eq!(swaybar.render().as_deref(), Some("[{\"full_text\":\"B\"}],\n"));
}

#[test]
fn rendered_snapshots_are_written_one_line_each() {
    let mut bar = Bar::new(Format::Swaybar, two_modules());
    let rendered = bar.run(&vec![(0, block("A")), (0, block("A")), (0, block("B"))]);
    let lines: Vec<Option<String>> =
        rendered.iter().map(|snapshot| bar.format().update(snapshot)).collect();
    assert_eq!(
        lines,
        vec![
            Some("[{\"full_text\":\"A\"}],\n".to_owned()),
            Some("[{\"full_text\":\"B\"}],\n".to_owned()),
        ]
    );
}
