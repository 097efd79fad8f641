//! The shared state the request path reads: the latest observed slot and
//! the cached triple of rendered views.
//!
//! Both are single-writer stores: the refresh pipeline is the only writer,
//! and the embedding program may place them behind whatever concurrent
//! read-sharing primitive it likes.  The contracts here pin the sequential
//! behaviour: `publish` overwrites, `get_latest_slot` returns the latest
//! published value, and `replace` installs a whole triple at once, so a
//! reader never sees a mix of two triples.

use vstd::prelude::*;
use crate::models::SortKey;
use crate::templates::{page_of, with_key, PageData, RenderedView};

verus! {

/// The most recently observed chain slot.  Overwrite on publish, no
/// history; the latest write wins, with no ordering guard between writes.
pub struct LatestSlotInfo {
    slot: u64,
}

impl LatestSlotInfo {
    /// The latest published slot, or the initial placeholder when nothing
    /// has been published yet.
    pub closed spec fn latest(self) -> u64 {
        self.slot
    }

    /// A tracker holding `initial_slot` as its placeholder value.
    pub fn new(initial_slot: u64) -> (s: Self)
        ensures
            s.latest() == initial_slot,
    {
        LatestSlotInfo { slot: initial_slot }
    }

    /// Records `slot` as the latest value, overwriting any previously
    /// published but unread value.  Every later read returns `slot` until
    /// the next publish.
    pub fn publish(&mut self, slot: u64)
        ensures
            final(self).latest() == slot,
    {
        self.slot = slot;
    }

    /// Returns the latest published value; never blocks, never fails.
    pub fn get_latest_slot(&self) -> (slot: u64)
        ensures
            slot == self.latest(),
    {
        self.slot
    }
}

/// The three current rendered views, one per sort order.  Replaced
/// wholesale on each successful refresh cycle, never partially updated.
pub struct CachedTemplates {
    pub default: RenderedView,
    pub by_value_desc: RenderedView,
    pub by_value_asc: RenderedView,
}

impl CachedTemplates {
    /// The view served for a sort order.
    pub open spec fn spec_get(self, key: SortKey) -> RenderedView {
        match key {
            SortKey::DefaultOrder => self.default,
            SortKey::ValueDescending => self.by_value_desc,
            SortKey::ValueAscending => self.by_value_asc,
        }
    }

    /// The startup placeholder: three empty views, served until the first
    /// successful refresh cycle.
    pub open spec fn is_placeholder(self) -> bool {
        &&& self.default@ == Seq::<char>::empty()
        &&& self.by_value_desc@ == Seq::<char>::empty()
        &&& self.by_value_asc@ == Seq::<char>::empty()
    }

    /// All three views are the renders of one page content, each under its
    /// own sort order.
    pub open spec fn renders_data(self, d: PageData) -> bool {
        &&& self.default@ == page_of(with_key(d, SortKey::DefaultOrder))
        &&& self.by_value_desc@ == page_of(with_key(d, SortKey::ValueDescending))
        &&& self.by_value_asc@ == page_of(with_key(d, SortKey::ValueAscending))
    }

    /// The cache never mixes two snapshots: it is either the startup
    /// placeholder triple or the renders of exactly one page content.
    pub open spec fn coherent(self) -> bool {
        self.is_placeholder() || exists|d: PageData| self.renders_data(d)
    }

    /// A coherent cache past its placeholder serves, for every sort order,
    /// the render of one shared page content: no view ever interleaves the
    /// data of two snapshots.
    pub proof fn lemma_coherent_views_share_content(self)
        requires
            self.coherent(),
            !self.is_placeholder(),
        ensures
            exists|d: PageData|
                #![trigger self.renders_data(d)]
                self.renders_data(d) && (forall|key: SortKey|
                    self.spec_get(key)@ == #[trigger] page_of(with_key(d, key))),
    {
        let d = choose|d: PageData| self.renders_data(d);
        assert forall|key: SortKey|
            self.spec_get(key)@ == #[trigger] page_of(with_key(d, key)) by {
            match key {
                SortKey::DefaultOrder => {
                    assert(self.spec_get(key) == self.default);
                },
                SortKey::ValueDescending => {
                    assert(self.spec_get(key) == self.by_value_desc);
                },
                SortKey::ValueAscending => {
                    assert(self.spec_get(key) == self.by_value_asc);
                },
            }
        }
    }

    /// The placeholder triple: requests arriving before the first refresh
    /// cycle completes still succeed.
    pub fn new() -> (c: Self)
        ensures
            c.is_placeholder(),
            c.coherent(),
    {
        CachedTemplates {
            default: String::new(),
            by_value_desc: String::new(),
            by_value_asc: String::new(),
        }
    }

    /// Returns the current view for a sort order; read-only, never blocks
    /// the writer beyond the instant of a concurrent swap.
    pub fn get(&self, key: SortKey) -> (v: &RenderedView)
        ensures
            *v == self.spec_get(key),
    {
        match key {
            SortKey::DefaultOrder => &self.default,
            SortKey::ValueDescending => &self.by_value_desc,
            SortKey::ValueAscending => &self.by_value_asc,
        }
    }

    /// Installs a new triple as a single unit: after the call the cache
    /// holds exactly the three given views, nothing of the old triple.
    pub fn replace(
        &mut self,
        default_view: RenderedView,
        by_value_desc: RenderedView,
        by_value_asc: RenderedView,
    )
        ensures
            final(self).default == default_view,
            final(self).by_value_desc == by_value_desc,
            final(self).by_value_asc == by_value_asc,
    {
        self.default = default_view;
        self.by_value_desc = by_value_desc;
        self.by_value_asc = by_value_asc;
    }
}

} // verus!
