//! A status bar block.

use crate::modules::Module;
use vstd::prelude::*;

verus! {

/// The mathematical value of a [`Block`]: its three fields as character sequences.
pub struct BlockView {
    pub text: Seq<char>,
    pub short_text: Option<Seq<char>>,
    pub color: Option<Seq<char>>,
}

/// The characters of an optional string.
pub open spec fn text_view(text: Option<String>) -> Option<Seq<char>> {
    match text {
        Some(text) => Some(text@),
        None => None,
    }
}

/// The value of an optional block: `None` stands for a hidden slot.
pub open spec fn block_view(block: Option<Block>) -> Option<BlockView> {
    match block {
        Some(block) => Some(block@),
        None => None,
    }
}

/// A status bar block.
#[derive(Debug)]
pub struct Block {
    /// The full text to display.
    pub text: String,
    /// The text to display when the bar is shortened.
    pub short_text: Option<String>,
    /// The color to display the text with.
    pub color: Option<String>,
}

impl View for Block {
    type V = BlockView;

    open spec fn view(&self) -> BlockView {
        BlockView {
            text: self.text@,
            short_text: text_view(self.short_text),
            color: text_view(self.color),
        }
    }
}

/// Copies an optional string.
pub fn clone_text(text: &Option<String>) -> (res: Option<String>)
    ensures
        text_view(res) == text_view(*text),
{
    match text {
        Some(text) => Some(text.clone()),
        None => None,
    }
}

/// Tells whether two optional strings hold the same characters, or are both absent.
pub fn same_text(a: &Option<String>, b: &Option<String>) -> (res: bool)
    ensures
        res == (text_view(*a) == text_view(*b)),
{
    match (a, b) {
        (Some(a), Some(b)) => *a == *b,
        (None, None) => true,
        _ => false,
    }
}

impl Clone for Block {
    fn clone(&self) -> (res: Block)
        ensures
            res@ == self@,
    {
        Block {
            text: self.text.clone(),
            short_text: clone_text(&self.short_text),
            color: clone_text(&self.color),
        }
    }
}

impl PartialEq for Block {
    fn eq(&self, other: &Block) -> (res: bool) {
        self.text == other.text && same_text(&self.short_text, &other.short_text) && same_text(
            &self.color,
            &other.color,
        )
    }
}

impl Eq for Block {

}

impl vstd::std_specs::cmp::PartialEqSpecImpl for Block {
    open spec fn obeys_eq_spec() -> bool {
        true
    }

    open spec fn eq_spec(&self, other: &Block) -> bool {
        self@ == other@
    }
}

impl From<String> for Block {
    fn from(text: String) -> (res: Block)
        ensures
            res@ == (BlockView { text: text@, short_text: None, color: None }),
    {
        Block { text, short_text: None, color: None }
    }
}

impl vstd::std_specs::convert::FromSpecImpl<String> for Block {
    open spec fn obeys_from_spec() -> bool {
        true
    }

    open spec fn from_spec(text: String) -> Block {
        Block { text, short_text: None, color: None }
    }
}

impl<'a> From<&'a str> for Block {
    fn from(text: &'a str) -> (res: Block)
        ensures
            res@ == (BlockView { text: text@, short_text: None, color: None }),
    {
        Block { text: text.to_owned(), short_text: None, color: None }
    }
}

/// The conversion from a string slice is stated by the contract of `from`
/// alone: no block is singled out among those with the right value.
impl<'a> vstd::std_specs::convert::FromSpecImpl<&'a str> for Block {
    open spec fn obeys_from_spec() -> bool {
        false
    }

    open spec fn from_spec(text: &'a str) -> Block {
        arbitrary()
    }
}

/// A module's stream of block updates, tagged with the module's slot.
///
/// The slot is fixed when the stream is made and never changes: every item
/// that the module produces leaves the stream with that slot attached.
#[derive(Debug, Clone)]
pub struct Stream {
    id: usize,
    module: Module,
}

impl Stream {
    /// The slot that the stream's items are tagged with.
    pub closed spec fn spec_id(&self) -> usize {
        self.id
    }

    /// The module that produces the stream's items.
    pub closed spec fn spec_module(&self) -> Module {
        self.module
    }

    /// Constructs a new instance of [`Stream`].
    pub fn new(id: usize, module: Module) -> (res: Stream)
        ensures
            res.spec_id() == id,
            res.spec_module() == module,
    {
        Stream { id, module }
    }

    /// The slot that the stream's items are tagged with.
    #[verifier::when_used_as_spec(spec_id)]
    pub fn id(&self) -> (res: usize)
        ensures
            res == self.spec_id(),
    {
        self.id
    }

    /// The module that produces the stream's items.
    pub fn module(&self) -> (res: &Module)
        ensures
            *res == self.spec_module(),
    {
        &self.module
    }

    /// Tags what the module's own stream yielded with the stream's slot: an
    /// item becomes an update for that slot, and the end of the module's
    /// stream is the end of this one.
    pub fn poll_next(&self, item: Option<Option<Block>>) -> (res: Option<(usize, Option<Block>)>)
        ensures
            res == match item {
                Some(block) => Some((self.spec_id(), block)),
                None => None,
            },
    {
        match item {
            Some(block) => Some((self.id, block)),
            None => None,
        }
    }
}

} // verus!
