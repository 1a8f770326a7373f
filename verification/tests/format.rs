use sustas::block::Block;
use sustas::format::{swaybar, swaybar_block, Format};

fn full() -> Block {
    Block {
        text: "long".to_owned(),
        short_text: Some("s".to_owned()),
        color: Some("#888888".to_owned()),
    }
}

fn field(name: &str, value: &str) -> (String, String) {
    (name.to_owned(), value.to_owned())
}

#[test]
fn init_writes_nothing_for_debug() {
    assert_eq!(Format::Debug.init(), "");
}

#[test]
fn init_writes_the_swaybar_header() {
    assert_eq!(Format::Swaybar.init(), "{\"version\":1}\n[\n");
}

#[test]
fn frame_ends_a_render() {
    assert_eq!(Format::Debug.frame("x".to_owned()), "x\n");
    assert_eq!(Format::Swaybar.frame("[]".to_owned()), "[],\n");
}

#[test]
fn debug_update_dumps_the_cache() {
    let line = Format::Debug.update(&vec![Some(Block::from("A")), None]);
    assert_eq!(
        line.as_deref(),
        Some("[Some(Block { text: \"A\", short_text: None, color: None }), None]\n")
    );
}

#[test]
fn debug_update_dumps_an_empty_cache() {
    assert_eq!(Format::Debug.update(&Vec::new()).as_deref(), Some("[]\n"));
}

#[test]
fn swaybar_update_omits_absent_slots() {
    let line = Format::Swaybar.update(&vec![None, Some(Block::from("A")), None]);
    assert_eq!(line.as_deref(), Some("[{\"full_text\":\"A\"}],\n"));
}

#[test]
fn swaybar_update_of_empty_cache_is_an_empty_array() {
    assert_eq!(Format::Swaybar.update(&Vec::new()).as_deref(), Some("[],\n"));
    assert_eq!(Format::Swaybar.update(&vec![None, None]).as_deref(), Some("[],\n"));
}

#[test]
fn swaybar_update_writes_present_fields_only() {
    let line = Format::Swaybar.update(&vec![Some(full()), Some(Block::from("B"))]);
    assert_eq!(
        line.as_deref(),
        Some("[{\"color\":\"#888888\",\"full_text\":\"long\",\"short_text\":\"s\"},{\"full_text\":\"B\"}],\n")
    );
}

#[test]
fn swaybar_update_escapes_text() {
    let line = Format::Swaybar.update(&vec![Some(Block::from("say \"hi\"\n\\"))]);
    assert_eq!(line.as_deref(), Some("[{\"full_text\":\"say \\\"hi\\\"\\n\\\\\"}],\n"));
}

#[test]
fn swaybar_update_is_valid_json() {
    let line = Format::Swaybar.update(&vec![Some(full()), None]).expect("line");
    let json = line.strip_suffix(",\n").expect("terminator");
    let parsed: serde_json::Value = serde_json::from_str(json).expect("json");
    let entries = parsed.as_array().expect("array");
    assert_eq!(entries.len(), 1);
    assert_eq!(entries[0].get("full_text").and_then(|v| v.as_str()), Some("long"));
    assert_eq!(entries[0].get("short_text").and_then(|v| v.as_str()), Some("s"));
    assert_eq!(entries[0].get("color").and_then(|v| v.as_str()), Some("#888888"));
}

#[test]
fn swaybar_block_lists_present_fields() {
    assert_eq!(
        swaybar_block(&full()),
        vec![field("full_text", "long"), field("short_text", "s"), field("color", "#888888")]
    );
    assert_eq!(swaybar_block(&Block::from("A")), vec![field("full_text", "A")]);
    let colored = Block { text: "A".to_owned(), short_text: None, color: Some("c".to_owned()) };
    assert_eq!(swaybar_block(&colored), vec![field("full_text", "A"), field("color", "c")]);
}

#[test]
fn swaybar_entries_follow_slot_order() {
    let entries = swaybar(&vec![Some(Block::from("A")), None, Some(Block::from("B"))]);
    assert_eq!(entries, vec![vec![field("full_text", "A")], vec![field("full_text", "B")]]);
}
