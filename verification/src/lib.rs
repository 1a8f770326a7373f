//! Components for building a status bar.
//!
//! A status bar is a row of [`Block`]s, one for each module, in the order in
//! which the modules are configured. The [`bar::Bar`] keeps the last block of
//! every module and asks for a render whenever an update changes one of them.
//! The modules in [`modules`] turn what is read at regular intervals, or the
//! property changes that the bus reports, into their next block. Waiting for
//! a tick or for a change is left to the caller: every function here takes
//! what has been read or what has arrived and returns what is to be shown.

pub mod bar;
pub mod block;
pub mod config;
pub mod dbus;
pub mod format;
pub mod modules;
pub mod text;

pub use crate::block::Block;

use crate::block::{block_view, BlockView};
use vstd::prelude::*;

verus! {

/// The value of what [`Module::next_block`] returns.
pub open spec fn outcome_view<E>(outcome: Result<Option<Block>, E>) -> Result<Option<BlockView>, E> {
    match outcome {
        Ok(block) => Ok(block_view(block)),
        Err(error) => Err(error),
    }
}

/// A status bar module that produces blocks from what is read at regular
/// intervals.
pub trait Module {
    /// What is read for one block.
    type Reading;

    /// Why a reading gives no block.
    type Error;

    /// The block that a reading gives, or why it gives none.
    spec fn block_of(&self, reading: Self::Reading) -> Result<Option<BlockView>, Self::Error>;

    /// Makes the next block from a reading.
    fn next_block(&mut self, reading: Self::Reading) -> (block: Result<Option<Block>, Self::Error>)
        ensures
            outcome_view(block) == old(self).block_of(reading),
    ;
}

} // verus!
