use sustas::block::{clone_text, same_text, Block, Stream};
use sustas::modules::bluetooth::BluetoothDevice;
use sustas::modules::Module;

#[test]
fn block_from_string_has_only_text() {
    let block = Block::from("12:00".to_owned());
    assert_eq!(block.text, "12:00");
    assert_eq!(block.short_text, None);
    assert_eq!(block.color, None);
}

#[test]
fn block_from_str_has_only_text() {
    let block = Block::from("12:00");
    assert_eq!(block.text, "12:00");
    assert_eq!(block.short_text, None);
    assert_eq!(block.color, None);
    let same: Block = "12:00".into();
    assert_eq!(block, same);
}

#[test]
fn blocks_are_equal_when_all_fields_match() {
    let one = Block {
        text: "a".to_owned(),
        short_text: Some("b".to_owned()),
        color: Some("#fff".to_owned()),
    };
    assert_eq!(one, one.clone());
    assert_ne!(one, Block { text: "x".to_owned(), ..one.clone() });
    assert_ne!(one, Block { short_text: Some("x".to_owned()), ..one.clone() });
    assert_ne!(one, Block { color: Some("x".to_owned()), ..one.clone() });
}

#[test]
fn absent_field_differs_from_empty_field() {
    let absent = Block { text: "a".to_owned(), short_text: None, color: None };
    let empty_short = Block { text: "a".to_owned(), short_text: Some(String::new()), color: None };
    let empty_color = Block { text: "a".to_owned(), short_text: None, color: Some(String::new()) };
    assert_ne!(absent, empty_short);
    assert_ne!(absent, empty_color);
    assert_ne!(empty_short, empty_color);
}

#[test]
fn optional_texts_compare_by_content() {
    assert!(same_text(&None, &None));
    assert!(same_text(&Some("a".to_owned()), &Some("a".to_owned())));
    assert!(!same_text(&Some("a".to_owned()), &Some("b".to_owned())));
    assert!(!same_text(&Some(String::new()), &None));
    assert!(!same_text(&None, &Some(String::new())));
    assert_eq!(clone_text(&Some("a".to_owned())), Some("a".to_owned()));
    assert_eq!(clone_text(&None), None);
}

#[test]
fn stream_tags_items_with_its_slot() {
    let stream = Stream::new(3, Module::BluetoothDevice(BluetoothDevice { address: "a".to_owned() }));
    assert_eq!(stream.id(), 3);
    assert_eq!(stream.poll_next(Some(Some(Block::from("x")))), Some((3, Some(Block::from("x")))));
    assert_eq!(stream.poll_next(Some(None)), Some((3, None)));
    assert!(matches!(stream.module(), Module::BluetoothDevice(_)));
}

#[test]
fn stream_ends_when_the_module_ends() {
    let stream = Stream::new(0, Module::BluetoothDevice(BluetoothDevice { address: "a".to_owned() }));
    assert_eq!(stream.poll_next(None), None);
}

#[test]
fn block_is_reached_from_the_crate_root() {
    let block: sustas::Block = Block::from("x");
    assert_eq!(block, sustas::block::Block::from("x".to_owned()));
}
