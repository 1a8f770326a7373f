//! Status bar.

use crate::block::{block_view, Block, BlockView, Stream};
use crate::config::Config;
use crate::format::Format;
use crate::modules::Module;
use vstd::prelude::*;

verus! {

/// The values of a cache, slot by slot.
pub open spec fn cache_view(cache: Seq<Option<Block>>) -> Seq<Option<BlockView>> {
    cache.map_values(|block: Option<Block>| block_view(block))
}

/// The value of one update: its slot and the block that the module produced.
pub open spec fn update_view(update: (usize, Option<Block>)) -> (int, Option<BlockView>) {
    (update.0 as int, block_view(update.1))
}

/// The values of a sequence of updates, in arrival order.
pub open spec fn updates_view(updates: Seq<(usize, Option<Block>)>) -> Seq<
    (int, Option<BlockView>),
> {
    updates.map_values(|update: (usize, Option<Block>)| update_view(update))
}

/// The values of a sequence of snapshots.
pub open spec fn snapshots_view(snapshots: Seq<Vec<Option<Block>>>) -> Seq<
    Seq<Option<BlockView>>,
> {
    snapshots.map_values(|snapshot: Vec<Option<Block>>| cache_view(snapshot@))
}

/// The cache of a bar with `len` slots before any update: every slot absent.
pub open spec fn empty_cache(len: nat) -> Seq<Option<BlockView>> {
    Seq::new(len, |slot: int| None::<BlockView>)
}

/// The cache after an update for `id` with the value `block`: an update for a
/// slot that does not exist changes nothing.
pub open spec fn cache_after(cache: Seq<Option<BlockView>>, id: int, block: Option<BlockView>) -> Seq<
    Option<BlockView>,
> {
    if 0 <= id < cache.len() {
        cache.update(id, block)
    } else {
        cache
    }
}

/// Whether an update for `id` with the value `block` changes the cache, and so
/// calls for a render.
pub open spec fn renders(cache: Seq<Option<BlockView>>, id: int, block: Option<BlockView>) -> bool {
    0 <= id < cache.len() && cache[id] != block
}

/// The cache after a sequence of updates, applied one at a time in arrival
/// order.
pub open spec fn cache_after_all(
    cache: Seq<Option<BlockView>>,
    updates: Seq<(int, Option<BlockView>)>,
) -> Seq<Option<BlockView>>
    decreases updates.len(),
{
    if updates.len() == 0 {
        cache
    } else {
        cache_after(
            cache_after_all(cache, updates.drop_last()),
            updates.last().0,
            updates.last().1,
        )
    }
}

/// The snapshots handed to the render sink while a sequence of updates is
/// applied: one for each update that changes the cache, taken right after it.
pub open spec fn snapshots(
    cache: Seq<Option<BlockView>>,
    updates: Seq<(int, Option<BlockView>)>,
) -> Seq<Seq<Option<BlockView>>>
    decreases updates.len(),
{
    if updates.len() == 0 {
        Seq::empty()
    } else {
        let before = cache_after_all(cache, updates.drop_last());
        let earlier = snapshots(cache, updates.drop_last());
        if renders(before, updates.last().0, updates.last().1) {
            earlier.push(cache_after(before, updates.last().0, updates.last().1))
        } else {
            earlier
        }
    }
}

/// The block that the latest update for `slot` carried, absent where no
/// update was for that slot.
pub open spec fn latest(updates: Seq<(int, Option<BlockView>)>, slot: int) -> Option<BlockView>
    decreases updates.len(),
{
    if updates.len() == 0 {
        None
    } else if updates.last().0 == slot {
        updates.last().1
    } else {
        latest(updates.drop_last(), slot)
    }
}

/// Status bar.
pub struct Bar {
    format: Format,
    cache: Vec<Option<Block>>,
    updates: Vec<Stream>,
}

impl View for Bar {
    type V = Seq<Option<BlockView>>;

    /// The cache: the last known block of each slot.
    closed spec fn view(&self) -> Seq<Option<BlockView>> {
        cache_view(self.cache@)
    }
}

impl Bar {
    /// The output format that the bar was made with.
    pub closed spec fn spec_format(&self) -> Format {
        self.format
    }

    /// The update streams of the bar's modules, in slot order.
    pub closed spec fn spec_streams(&self) -> Seq<Stream> {
        self.updates@
    }

    /// Creates a new instance of [`Bar`].
    ///
    /// The bar has one slot for each module, in the order in which the modules
    /// are given, each of them empty, and one update stream for each module,
    /// tagged with the module's slot.
    pub fn new(format: Format, modules: Vec<Module>) -> (bar: Bar)
        ensures
            bar.spec_format() == format,
            bar@ == empty_cache(modules@.len()),
            bar.spec_streams().len() == modules@.len(),
            forall|slot: int|
                0 <= slot < modules@.len() ==> (#[trigger] bar.spec_streams()[slot]).spec_id()
                    == slot && bar.spec_streams()[slot].spec_module() == modules@[slot],
    {
        let ghost given = modules@;
        let mut cache: Vec<Option<Block>> = Vec::new();
        let mut updates: Vec<Stream> = Vec::new();
        for module in rest: modules
            invariant
                rest.seq() == given,
                cache@.len() == rest.index(),
                updates@.len() == rest.index(),
                forall|slot: int| 0 <= slot < cache@.len() ==> (#[trigger] cache@[slot]) is None,
                forall|slot: int|
                    0 <= slot < updates@.len() ==> (#[trigger] updates@[slot]).spec_id() == slot
                        && updates@[slot].spec_module() == given[slot],
        {
            let position: usize = updates.len();
            updates.push(Stream::new(position, module));
            cache.push(None);
        }
        assert(cache_view(cache@) =~= empty_cache(given.len()));
        Bar { format, cache, updates }
    }

    /// The output format that the bar was made with.
    pub fn format(&self) -> (format: Format)
        ensures
            format == self.spec_format(),
    {
        self.format
    }

    /// The update streams of the bar's modules, in slot order.
    pub fn streams(&self) -> (streams: &Vec<Stream>)
        ensures
            streams@ == self.spec_streams(),
    {
        &self.updates
    }

    /// A copy of the cache, as the render sink gets it: the last known block of
    /// every slot, in slot order.
    pub fn snapshot(&self) -> (snapshot: Vec<Option<Block>>)
        ensures
            cache_view(snapshot@) == self@,
    {
        let mut snapshot: Vec<Option<Block>> = Vec::new();
        let mut slot: usize = 0;
        while slot < self.cache.len()
            invariant
                slot <= self.cache@.len(),
                snapshot@.len() == slot,
                forall|done: int|
                    0 <= done < slot ==> block_view(#[trigger] snapshot@[done]) == block_view(
                        self.cache@[done],
                    ),
            decreases self.cache@.len() - slot,
        {
            let block = match &self.cache[slot] {
                Some(block) => Some(block.clone()),
                None => None,
            };
            snapshot.push(block);
            slot += 1;
        }
        assert(cache_view(snapshot@) =~= cache_view(self.cache@));
        snapshot
    }

    /// The text that a render of the cache writes in the bar's format, or
    /// `None` where the cache cannot be serialized.
    pub fn render(&self) -> (line: Option<String>)
        ensures
            crate::block::text_view(line) == self.spec_format().line(self@),
    {
        self.format.update(self.cache.as_slice())
    }

    /// Applies one update to the cache and tells whether the bar has to be
    /// rendered anew.
    ///
    /// An update for a slot that the bar does not have is ignored, and so is one
    /// that carries what the slot already holds. Any other update overwrites
    /// the slot and asks for a render.
    pub fn update(&mut self, id: usize, block: Option<Block>) -> (changed: bool)
        ensures
            changed == renders(old(self)@, id as int, block_view(block)),
            final(self)@ == cache_after(old(self)@, id as int, block_view(block)),
            final(self).spec_format() == old(self).spec_format(),
            final(self).spec_streams() == old(self).spec_streams(),
    {
        if id < self.cache.len() {
            if self.cache[id] != block {
                self.cache.set(id, block);
                assert(cache_view(self.cache@) =~= cache_after(
                    old(self)@,
                    id as int,
                    block_view(block),
                ));
                return true;
            }
            assert(cache_view(self.cache@) =~= cache_after(
                old(self)@,
                id as int,
                block_view(block),
            ));
        }
        false
    }

    /// Runs the status bar over the updates that have arrived, one at a time in
    /// arrival order, and returns the snapshots to render: one for each update
    /// that changed the cache, taken right after that update.
    pub fn run(&mut self, updates: &Vec<(usize, Option<Block>)>) -> (rendered: Vec<
        Vec<Option<Block>>,
    >)
        ensures
            snapshots_view(rendered@) == snapshots(old(self)@, updates_view(updates@)),
            final(self)@ == cache_after_all(old(self)@, updates_view(updates@)),
            final(self).spec_format() == old(self).spec_format(),
            final(self).spec_streams() == old(self).spec_streams(),
    {
        let ghost start = self@;
        let ghost arrived = updates_view(updates@);
        let mut rendered: Vec<Vec<Option<Block>>> = Vec::new();
        let mut next: usize = 0;
        while next < updates.len()
            invariant
                next <= updates@.len(),
                arrived == updates_view(updates@),
                self@ == cache_after_all(start, arrived.take(next as int)),
                snapshots_view(rendered@) == snapshots(start, arrived.take(next as int)),
                self.spec_format() == old(self).spec_format(),
                self.spec_streams() == old(self).spec_streams(),
            decreases updates@.len() - next,
        {
            let id: usize = updates[next].0;
            let block = match &updates[next].1 {
                Some(block) => Some(block.clone()),
                None => None,
            };
            proof {
                assert(arrived.take(next + 1).drop_last() == arrived.take(next as int));
                assert(arrived.take(next + 1).last() == (id as int, block_view(block)));
            }
            let ghost earlier = snapshots_view(rendered@);
            if self.update(id, block) {
                let snapshot = self.snapshot();
                rendered.push(snapshot);
                assert(snapshots_view(rendered@) =~= earlier.push(self@));
            }
            next += 1;
        }
        assert(arrived.take(next as int) == arrived);
        rendered
    }
}

impl From<Config> for Bar {
    /// Makes the bar that a config asks for: in the config's format, with the
    /// config's modules in the config's order.
    fn from(config: Config) -> (bar: Bar)
        ensures
            bar.spec_format() == config.format,
            bar@ == empty_cache(config.modules@.len()),
            bar.spec_streams().len() == config.modules@.len(),
            forall|slot: int|
                0 <= slot < config.modules@.len() ==> (#[trigger] bar.spec_streams()[slot]).spec_id()
                    == slot && crate::modules::configured(
                    config.modules@[slot],
                    bar.spec_streams()[slot].spec_module(),
                ),
    {
        let ghost asked = config.modules@;
        let mut modules: Vec<Module> = Vec::new();
        for module in rest: config.modules
            invariant
                rest.seq() == asked,
                modules@.len() == rest.index(),
                forall|slot: int|
                    0 <= slot < modules@.len() ==> crate::modules::configured(
                        asked[slot],
                        #[trigger] modules@[slot],
                    ),
        {
            modules.push(Module::from(module));
        }
        Bar::new(config.format, modules)
    }
}

/// The conversion from a config is stated by the contract of `from` alone.
impl vstd::std_specs::convert::FromSpecImpl<Config> for Bar {
    open spec fn obeys_from_spec() -> bool {
        false
    }

    open spec fn from_spec(config: Config) -> Bar {
        arbitrary()
    }
}

/// After any sequence of updates, each slot of the cache holds the block of the
/// latest update for that slot, and a slot that no update was for is absent.
/// The cache keeps its length, so a slot's place in a snapshot never moves.
pub proof fn lemma_cache_holds_latest(len: nat, updates: Seq<(int, Option<BlockView>)>, slot: int)
    requires
        0 <= slot < len,
    ensures
        cache_after_all(empty_cache(len), updates).len() == len,
        cache_after_all(empty_cache(len), updates)[slot] == latest(updates, slot),
        (forall|n: int| 0 <= n < updates.len() ==> updates[n].0 != slot) ==> cache_after_all(
            empty_cache(len),
            updates,
        )[slot] is None,
    decreases updates.len(),
{
    if updates.len() > 0 {
        lemma_cache_holds_latest(len, updates.drop_last(), slot);
        if forall|n: int| 0 <= n < updates.len() ==> updates[n].0 != slot {
            assert forall|n: int| 0 <= n < updates.drop_last().len() implies updates.drop_last()[n].0
                != slot by {
                assert(updates.drop_last()[n] == updates[n]);
            }
            assert(updates.last() == updates[updates.len() - 1]);
        }
    }
}

/// Every snapshot that is rendered by a bar that starts empty holds, at each
/// slot, the block of the latest update for that slot among the updates that
/// had arrived when it was taken, and nothing at a slot that none of them was
/// for.
pub proof fn lemma_snapshot_holds_latest(
    len: nat,
    updates: Seq<(int, Option<BlockView>)>,
    n: int,
    slot: int,
) -> (arrived: int)
    requires
        0 <= n < snapshots(empty_cache(len), updates).len(),
        0 <= slot < len,
    ensures
        0 < arrived <= updates.len(),
        snapshots(empty_cache(len), updates)[n].len() == len,
        snapshots(empty_cache(len), updates)[n][slot] == latest(updates.take(arrived), slot),
{
    let arrived = lemma_snapshot_is_cache(empty_cache(len), updates, n);
    lemma_cache_holds_latest(len, updates.take(arrived), slot);
    arrived
}

/// Every snapshot that is rendered is the cache as it stood right after some
/// update that changed it: the `n`-th snapshot is the cache after a prefix of
/// the updates whose last update rendered.
pub proof fn lemma_snapshot_is_cache(
    cache: Seq<Option<BlockView>>,
    updates: Seq<(int, Option<BlockView>)>,
    n: int,
) -> (arrived: int)
    requires
        0 <= n < snapshots(cache, updates).len(),
    ensures
        0 < arrived <= updates.len(),
        snapshots(cache, updates)[n] == cache_after_all(cache, updates.take(arrived)),
        snapshots(cache, updates.take(arrived)).len() == n + 1,
        renders(
            cache_after_all(cache, updates.take(arrived - 1)),
            updates[arrived - 1].0,
            updates[arrived - 1].1,
        ),
        snapshots(cache, updates)[n].len() == cache.len(),
    decreases updates.len(),
{
    let before = cache_after_all(cache, updates.drop_last());
    let earlier = snapshots(cache, updates.drop_last());
    lemma_cache_keeps_length(cache, updates);
    if n < earlier.len() {
        let arrived = lemma_snapshot_is_cache(cache, updates.drop_last(), n);
        assert(updates.drop_last().take(arrived) == updates.take(arrived));
        assert(updates.drop_last().take(arrived - 1) == updates.take(arrived - 1));
        arrived
    } else {
        assert(updates.take(updates.len() as int) == updates);
        assert(updates.take(updates.len() - 1) == updates.drop_last());
        updates.len() as int
    }
}

/// Updates never add or remove a slot.
pub proof fn lemma_cache_keeps_length(
    cache: Seq<Option<BlockView>>,
    updates: Seq<(int, Option<BlockView>)>,
)
    ensures
        cache_after_all(cache, updates).len() == cache.len(),
    decreases updates.len(),
{
    if updates.len() > 0 {
        lemma_cache_keeps_length(cache, updates.drop_last());
    }
}

/// Delivering the same update twice in a row renders no more often than
/// delivering it once, and leaves the same cache: the second delivery is
/// suppressed.
pub proof fn lemma_update_is_idempotent(
    cache: Seq<Option<BlockView>>,
    id: int,
    block: Option<BlockView>,
)
    ensures
        !renders(cache_after(cache, id, block), id, block),
        cache_after(cache_after(cache, id, block), id, block) == cache_after(cache, id, block),
        snapshots(cache, seq![(id, block), (id, block)]) == snapshots(cache, seq![(id, block)]),
        snapshots(cache, seq![(id, block)]).len() == if renders(cache, id, block) {
            1nat
        } else {
            0nat
        },
{
    let once = seq![(id, block)];
    let twice = seq![(id, block), (id, block)];
    lemma_one_update(cache, (id, block));
    assert(twice.drop_last() == once);
}

/// A single update takes the cache one step, and renders if that step changes
/// the cache.
proof fn lemma_one_update(cache: Seq<Option<BlockView>>, update: (int, Option<BlockView>))
    ensures
        cache_after_all(cache, seq![update]) == cache_after(cache, update.0, update.1),
        snapshots(cache, seq![update]) == if renders(cache, update.0, update.1) {
            seq![cache_after(cache, update.0, update.1)]
        } else {
            Seq::empty()
        },
{
    let one = seq![update];
    let none = Seq::<(int, Option<BlockView>)>::empty();
    assert(one.drop_last() == none);
    assert(cache_after_all(cache, none) == cache);
    assert(snapshots(cache, none) == Seq::<Seq<Option<BlockView>>>::empty());
    assert(snapshots(cache, one) =~= if renders(cache, update.0, update.1) {
        seq![cache_after(cache, update.0, update.1)]
    } else {
        Seq::empty()
    });
}

/// Updates for two different slots can arrive in either order: the cache ends
/// up the same, with each block at its own slot.
pub proof fn lemma_slots_are_independent(
    cache: Seq<Option<BlockView>>,
    first: (int, Option<BlockView>),
    second: (int, Option<BlockView>),
)
    requires
        first.0 != second.0,
    ensures
        cache_after_all(cache, seq![first, second]) == cache_after_all(cache, seq![second, first]),
        0 <= first.0 < cache.len() ==> cache_after_all(cache, seq![first, second])[first.0]
            == first.1,
        0 <= second.0 < cache.len() ==> cache_after_all(cache, seq![first, second])[second.0]
            == second.1,
{
    let one = seq![first, second];
    let other = seq![second, first];
    lemma_one_update(cache, first);
    lemma_one_update(cache, second);
    assert(one.drop_last() == seq![first]);
    assert(other.drop_last() == seq![second]);
    assert(cache_after_all(cache, one) =~= cache_after_all(cache, other));
}

} // verus!
