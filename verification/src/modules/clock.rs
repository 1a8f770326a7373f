//! Clock status bar module.

use crate::block::{text_view, Block, BlockView};
use crate::{outcome_view, Module};
use vstd::prelude::*;

verus! {

/// The number of seconds between two readings of the clock.
pub const INTERVAL_SECS: u64 = 1;

/// A point in time, as seen from a time zone.
#[derive(Debug, Clone, Copy, PartialEq, Eq, Structural)]
pub struct Timestamp {
    /// The seconds since the start of 1970 in UTC, leap seconds not counted.
    pub secs: i64,
    /// The nanoseconds since the last whole second.
    pub nanos: u32,
    /// The seconds that the time zone's clocks are ahead of UTC.
    pub offset: i32,
}

/// The text of a point in time in a format of `strftime`'s kind, or `None`
/// where the point in time is out of range or the format is not valid.
pub uninterp spec fn formatted_time(secs: i64, nanos: u32, offset: i32, format: Seq<char>) -> Option<
    Seq<char>,
>;

/// The block of the clock from the time in the long and in the short format,
/// each `None` where the time could not be formatted. The long format is
/// looked at first.
pub open spec fn clock_block(text: Option<Seq<char>>, short_text: Option<Seq<char>>) -> Result<
    Option<BlockView>,
    Error,
> {
    match (text, short_text) {
        (None, _) => Err(Error::Format),
        (Some(_), None) => Err(Error::ShortFormat),
        (Some(text), Some(short_text)) => Ok(
            Some(BlockView { text, short_text: Some(short_text), color: None }),
        ),
    }
}

/// Why the clock has no block.
#[derive(Debug, Clone, Copy, PartialEq, Eq, Structural)]
pub enum Error {
    /// The time could not be written in the long format.
    Format,
    /// The time could not be written in the short format.
    ShortFormat,
}

/// Clock module config.
#[derive(Debug)]
pub struct Config {
    /// The date and time format to display.
    pub format: String,
    /// The short date and time format to display.
    pub short_format: String,
}

impl Default for Config {
    fn default() -> (config: Config)
        ensures
            config.format@ == "%Y-%m-%d %H:%M"@,
            config.short_format@ == "%H:%M"@,
    {
        Config { format: "%Y-%m-%d %H:%M".to_owned(), short_format: "%H:%M".to_owned() }
    }
}

/// Clock status bar module.
#[derive(Debug, Clone)]
pub struct Clock {
    format: String,
    short_format: String,
}

impl Clock {
    /// The date and time format to display.
    pub closed spec fn spec_format(&self) -> Seq<char> {
        self.format@
    }

    /// The short date and time format to display.
    pub closed spec fn spec_short_format(&self) -> Seq<char> {
        self.short_format@
    }

    /// Creates a new clock module with the provided config.
    pub fn new(config: Config) -> (clock: Clock)
        ensures
            clock.spec_format() == config.format@,
            clock.spec_short_format() == config.short_format@,
    {
        Clock { format: config.format, short_format: config.short_format }
    }

    /// Makes the block of the clock from the time in the long and in the short
    /// format, each `None` where the time could not be formatted.
    pub fn assemble(text: Option<String>, short_text: Option<String>) -> (block: Result<
        Option<Block>,
        Error,
    >)
        ensures
            outcome_view(block) == clock_block(text_view(text), text_view(short_text)),
    {
        let text = match text {
            Some(text) => text,
            None => return Err(Error::Format),
        };
        let short_text = match short_text {
            Some(short_text) => short_text,
            None => return Err(Error::ShortFormat),
        };
        Ok(Some(Block { text, short_text: Some(short_text), color: None }))
    }
}

impl Module for Clock {
    type Reading = Timestamp;

    type Error = Error;

    /// The given time in the long format, with the same time in the short
    /// format as its short text.
    open spec fn block_of(&self, now: Timestamp) -> Result<Option<BlockView>, Error> {
        clock_block(
            formatted_time(now.secs, now.nanos, now.offset, self.spec_format()),
            formatted_time(now.secs, now.nanos, now.offset, self.spec_short_format()),
        )
    }

    fn next_block(&mut self, now: Timestamp) -> (block: Result<Option<Block>, Error>)
        ensures
            *final(self) == *old(self),
    {
        let text = format_time(now, self.format.as_str());
        let short_text = format_time(now, self.short_format.as_str());
        Clock::assemble(text, short_text)
    }
}

/// Calls chrono's `DateTime::format` and writes the result with
/// `DelayedFormat::write_to`. The point in time is made with
/// `DateTime::from_timestamp` and moved to the offset that
/// `FixedOffset::east_opt` makes.
///
/// Assumed of chrono, and not proved: the text that it writes depends on the
/// point in time, the offset and the format alone, so that [`formatted_time`]
/// names it. `None` stands for a point in time or an offset that chrono does
/// not take, and for a format that it cannot apply.
#[verifier::external_body]
fn format_time(now: Timestamp, format: &str) -> (text: Option<String>)
    ensures
        text_view(text) == formatted_time(now.secs, now.nanos, now.offset, format@),
{
    let offset = chrono::FixedOffset::east_opt(now.offset)?;
    let time = chrono::DateTime::from_timestamp(now.secs, now.nanos)?.with_timezone(&offset);
    let mut text = String::new();
    time.format(format).write_to(&mut text).ok()?;
    Some(text)
}

} // verus!
