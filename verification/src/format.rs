//! Status bar output format.

use crate::block::{text_view, Block, BlockView};
use vstd::prelude::*;
use vstd::string::*;

verus! {

/// The fields of one entry of the swaybar protocol: names and string values.
pub type Fields = Vec<(String, String)>;

/// The value of a block as three plain values: the text, the short text and
/// the color.
pub open spec fn plain_block(block: Option<BlockView>) -> Option<
    (Seq<char>, Option<Seq<char>>, Option<Seq<char>>),
> {
    match block {
        Some(block) => Some((block.text, block.short_text, block.color)),
        None => None,
    }
}

/// The values of the slots of a cache as plain values.
pub open spec fn plain_blocks(blocks: Seq<Option<BlockView>>) -> Seq<
    Option<(Seq<char>, Option<Seq<char>>, Option<Seq<char>>)>,
> {
    blocks.map_values(|block: Option<BlockView>| plain_block(block))
}

/// The names and values of the fields of one entry.
pub open spec fn fields_view(fields: Seq<(String, String)>) -> Seq<(Seq<char>, Seq<char>)> {
    fields.map_values(|field: (String, String)| (field.0@, field.1@))
}

/// The names and values of the fields of a sequence of entries.
pub open spec fn entries_view(entries: Seq<Fields>) -> Seq<Seq<(Seq<char>, Seq<char>)>> {
    entries.map_values(|fields: Fields| fields_view(fields@))
}

/// The JSON text of an array of objects, each given by the names and string
/// values of its fields, or `None` where the array cannot be serialized.
pub uninterp spec fn json_text(entries: Seq<Seq<(Seq<char>, Seq<char>)>>) -> Option<Seq<char>>;

/// The debug text of a sequence of optional blocks.
pub uninterp spec fn debug_text(
    blocks: Seq<Option<(Seq<char>, Option<Seq<char>>, Option<Seq<char>>)>>,
) -> Seq<char>;

/// The swaybar entry of a block: its full text, and its short text and its
/// color where it has them.
pub open spec fn swaybar_fields(block: BlockView) -> Seq<(Seq<char>, Seq<char>)> {
    let short_text = match block.short_text {
        Some(short_text) => seq![("short_text"@, short_text)],
        None => Seq::empty(),
    };
    let color = match block.color {
        Some(color) => seq![("color"@, color)],
        None => Seq::empty(),
    };
    seq![("full_text"@, block.text)] + short_text + color
}

/// The swaybar entries of a cache: one for each slot that holds a block, in
/// slot order. A slot without a block has no entry.
pub open spec fn swaybar_entries(blocks: Seq<Option<BlockView>>) -> Seq<
    Seq<(Seq<char>, Seq<char>)>,
>
    decreases blocks.len(),
{
    if blocks.len() == 0 {
        Seq::empty()
    } else {
        match blocks.last() {
            Some(block) => swaybar_entries(blocks.drop_last()).push(swaybar_fields(block)),
            None => swaybar_entries(blocks.drop_last()),
        }
    }
}

/// Status bar output format.
#[derive(Debug, Clone, Copy, PartialEq, Eq, Structural)]
pub enum Format {
    /// Debug output format.
    Debug,
    /// Swaybar output format.
    Swaybar,
}

impl Format {
    /// What is written once, before the first render.
    pub open spec fn header(self) -> Seq<char> {
        match self {
            Format::Debug => Seq::empty(),
            Format::Swaybar => "{\"version\":1}\n[\n"@,
        }
    }

    /// What ends the text of one render.
    pub open spec fn terminator(self) -> Seq<char> {
        match self {
            Format::Debug => "\n"@,
            Format::Swaybar => ",\n"@,
        }
    }

    /// The text of a cache in this format, before its terminator.
    pub open spec fn rendered(self, blocks: Seq<Option<BlockView>>) -> Option<Seq<char>> {
        match self {
            Format::Debug => Some(debug_text(plain_blocks(blocks))),
            Format::Swaybar => json_text(swaybar_entries(blocks)),
        }
    }

    /// The text that one render of a cache writes.
    pub open spec fn line(self, blocks: Seq<Option<BlockView>>) -> Option<Seq<char>> {
        match self.rendered(blocks) {
            Some(text) => Some(text + self.terminator()),
            None => None,
        }
    }

    /// Initializes the status bar: returns what is to be written before the
    /// first render.
    pub fn init(&self) -> (header: String)
        ensures
            header@ == self.header(),
    {
        match self {
            Format::Debug => String::new(),
            Format::Swaybar => "{\"version\":1}\n[\n".to_owned(),
        }
    }

    /// Ends the text of one render with the format's terminator.
    pub fn frame(&self, rendered: String) -> (line: String)
        ensures
            line@ == rendered@ + self.terminator(),
    {
        let mut line = rendered;
        match self {
            Format::Debug => line.append("\n"),
            Format::Swaybar => line.append(",\n"),
        }
        line
    }

    /// Updates the status bar: returns what is to be written for the given
    /// cache, or `None` where the cache cannot be serialized.
    pub fn update(&self, blocks: &[Option<Block>]) -> (line: Option<String>)
        ensures
            text_view(line) == self.line(crate::bar::cache_view(blocks@)),
    {
        let rendered = match self {
            Format::Debug => Some(debug_dump(blocks)),
            Format::Swaybar => {
                let entries = swaybar(blocks);
                to_json(&entries)
            },
        };
        match rendered {
            Some(text) => Some(self.frame(text)),
            None => None,
        }
    }
}

/// The swaybar entry of a block.
pub fn swaybar_block(block: &Block) -> (fields: Fields)
    ensures
        fields_view(fields@) == swaybar_fields(block@),
{
    let mut fields: Fields = Vec::new();
    fields.push(("full_text".to_owned(), block.text.clone()));
    match &block.short_text {
        Some(short_text) => fields.push(("short_text".to_owned(), short_text.clone())),
        None => {},
    }
    match &block.color {
        Some(color) => fields.push(("color".to_owned(), color.clone())),
        None => {},
    }
    assert(fields_view(fields@) =~= swaybar_fields(block@));
    fields
}

/// The swaybar entries of a cache: one for each slot that holds a block.
pub fn swaybar(blocks: &[Option<Block>]) -> (entries: Vec<Fields>)
    ensures
        entries_view(entries@) == swaybar_entries(crate::bar::cache_view(blocks@)),
{
    let ghost cache = crate::bar::cache_view(blocks@);
    let mut entries: Vec<Fields> = Vec::new();
    let mut slot: usize = 0;
    assert(cache.take(0) == Seq::<Option<BlockView>>::empty());
    assert(entries_view(entries@) =~= swaybar_entries(cache.take(0)));
    while slot < blocks.len()
        invariant
            slot <= blocks@.len(),
            cache == crate::bar::cache_view(blocks@),
            entries_view(entries@) == swaybar_entries(cache.take(slot as int)),
        decreases blocks@.len() - slot,
    {
        proof {
            assert(cache.take(slot + 1).drop_last() == cache.take(slot as int));
            assert(cache.take(slot + 1).last() == crate::block::block_view(blocks@[slot as int]));
        }
        let ghost earlier = entries_view(entries@);
        match &blocks[slot] {
            Some(block) => {
                let fields = swaybar_block(block);
                entries.push(fields);
                assert(entries_view(entries@) =~= earlier.push(swaybar_fields(block@)));
            },
            None => {},
        }
        slot += 1;
    }
    assert(cache.take(slot as int) == cache);
    entries
}

/// Calls `serde_json::to_string` on an array of objects whose fields are
/// strings, made from the entries one for one.
///
/// Assumed of serde_json, and not proved: the text that it writes depends on
/// the names and the values of the fields alone, so that [`json_text`] names
/// it. `None` stands for an error of the serializer.
#[verifier::external_body]
fn to_json(entries: &Vec<Fields>) -> (text: Option<String>)
    ensures
        text_view(text) == json_text(entries_view(entries@)),
{
    let array: Vec<serde_json::Map<String, serde_json::Value>> = entries.iter().map(
        |fields| fields.iter().map(
            |field| (field.0.clone(), serde_json::Value::String(field.1.clone())),
        ).collect(),
    ).collect();
    serde_json::to_string(&array).ok()
}

/// Calls std's `format!` with `{:?}` on the cache.
///
/// Assumed of std, and not proved: the text that the derived `Debug` writes
/// depends on the fields of the blocks alone, so that [`debug_text`] names it.
#[verifier::external_body]
fn debug_dump(blocks: &[Option<Block>]) -> (text: String)
    ensures
        text@ == debug_text(plain_blocks(crate::bar::cache_view(blocks@))),
{
    format!("{blocks:?}")
}

} // verus!
