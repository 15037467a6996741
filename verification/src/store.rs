use vstd::prelude::*;

use std::collections::HashMap;

use crate::geometry::Dimensions;

verus! {

broadcast use vstd::std_specs::hash::group_hash_axioms;

/// How a tracked window currently stands: free-floating, pinned to a half
/// of the work area, or maximized. Exactly one holds at a time.
#[derive(Clone, Copy, Debug, PartialEq, Eq, Structural)]
pub enum State {
    Windowed,
    SplitLeft,
    SplitRight,
    Maximized,
}

/// What the store remembers of a window. `dimensions` is always the
/// geometry to restore to when the window later leaves a non-Windowed
/// state; for a Windowed entry it is simply the current geometry.
#[derive(Clone, Copy, Debug, PartialEq, Eq, Structural)]
pub struct Properties {
    pub state: State,
    pub dimensions: Dimensions,
}

/// The window state store: at most one entry per window handle, keyed by
/// the windowing system's stable identifier. Entries are created lazily and
/// never deleted — handles are not reused during a session, so entries of
/// destroyed windows are accepted dead weight, not evicted.
///
/// The store is owned by the event loop alone and every command is fully
/// processed before the next is read, so it needs no synchronization.
pub struct StateStore {
    map: HashMap<u32, Properties>,
}

impl View for StateStore {
    type V = Map<u32, Properties>;

    closed spec fn view(&self) -> Map<u32, Properties> {
        self.map@
    }
}

impl StateStore {
    pub fn new() -> (s: StateStore)
        ensures
            s@ == Map::<u32, Properties>::empty(),
    {
        StateStore { map: HashMap::new() }
    }

    /// Looks a window up; no side effect.
    pub fn lookup(&self, handle: u32) -> (r: Option<Properties>)
        ensures
            r == if self@.contains_key(handle) {
                Some(self@[handle])
            } else {
                None::<Properties>
            },
    {
        match self.map.get(&handle) {
            Some(p) => Some(*p),
            None => None,
        }
    }

    /// Adds or replaces the entry for a window.
    pub fn upsert(&mut self, handle: u32, props: Properties)
        ensures
            final(self)@ == old(self)@.insert(handle, props),
    {
        self.map.insert(handle, props);
    }

    /// How many windows are tracked.
    pub fn len(&self) -> (n: usize)
        ensures
            n == self@.dom().len(),
    {
        self.map.len()
    }
}

} // verus!
