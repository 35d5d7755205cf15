//! Callback registries.
//!
//! The foreign libraries accept a single untyped call-in address per callback
//! slot and carry no user context through it, so user callbacks are kept on
//! this side: one process-wide slot per inherently global callback (error
//! reporting, debug messages) and one table keyed by window handle for
//! per-window callbacks (resize notifications). Registering `None` clears an
//! entry; the caller then also deregisters the foreign-side call-in. The
//! trampolines that the foreign side invokes look their callback up here.

use vstd::prelude::*;

verus! {

/// A single callback slot, for callbacks that are global to the process.
///
/// At most one callback is active at a time; registering replaces the
/// previous entry and registering `None` clears the slot.
pub struct CallbackSlot<T> {
    entry: Option<T>,
}

impl<T> CallbackSlot<T> {
    /// The currently registered callback, if any.
    pub closed spec fn entry(&self) -> Option<T> {
        self.entry
    }

    /// Creates an empty slot.
    pub fn new() -> (s: CallbackSlot<T>)
        ensures
            s.entry() is None,
    {
        CallbackSlot { entry: None }
    }

    /// Registers `cb`, replacing whatever was registered before; `None`
    /// clears the slot. Returns whether a foreign-side call-in should now be
    /// installed (a callback is present) rather than deregistered.
    pub fn set(&mut self, cb: Option<T>) -> (install: bool)
        ensures
            final(self).entry() == cb,
            install == (cb is Some),
    {
        let install = cb.is_some();
        self.entry = cb;
        install
    }

    /// The registered callback, for a trampoline to dispatch to. `None`
    /// means the slot is unset and the call-in should never have happened.
    pub fn current(&self) -> (r: &Option<T>)
        ensures
            *r == self.entry(),
    {
        &self.entry
    }
}

/// Builds the map that a sequence of keyed entries represents: later entries
/// shadow earlier ones with the same key.
pub open spec fn entries_map<T>(s: Seq<(usize, Option<T>)>) -> Map<usize, Option<T>>
    decreases s.len(),
{
    if s.len() == 0 {
        Map::empty()
    } else {
        entries_map(s.drop_last()).insert(s.last().0, s.last().1)
    }
}

/// A key is in the represented map exactly when some entry carries it.
proof fn lemma_entries_map_dom<T>(s: Seq<(usize, Option<T>)>, k: usize)
    ensures
        entries_map(s).dom().contains(k) <==> exists|i: int|
            0 <= i < s.len() && (#[trigger] s[i]).0 == k,
    decreases s.len(),
{
    if s.len() > 0 {
        lemma_entries_map_dom(s.drop_last(), k);
        if s.last().0 != k && entries_map(s).dom().contains(k) {
            let i = choose|i: int| 0 <= i < s.drop_last().len() && (#[trigger] s.drop_last()[i]).0 == k;
            assert(s[i].0 == k);
        }
        if exists|i: int| 0 <= i < s.len() && (#[trigger] s[i]).0 == k {
            let i = choose|i: int| 0 <= i < s.len() && (#[trigger] s[i]).0 == k;
            if i < s.len() - 1 {
                assert(s.drop_last()[i].0 == k);
            }
        }
    }
}

/// With unique keys, the entry at index `i` gives the represented map's
/// value for its key.
proof fn lemma_entries_map_get<T>(s: Seq<(usize, Option<T>)>, i: int)
    requires
        0 <= i < s.len(),
        forall|p: int, q: int| 0 <= p < q < s.len() ==> (#[trigger] s[p]).0 != (#[trigger] s[q]).0,
    ensures
        entries_map(s).dom().contains(s[i].0),
        entries_map(s)[s[i].0] == s[i].1,
    decreases s.len(),
{
    if i < s.len() - 1 {
        lemma_entries_map_get(s.drop_last(), i);
        assert(s.drop_last()[i] == s[i]);
    }
}

/// With unique keys, updating the entry that carries a key updates the
/// represented map at that key.
proof fn lemma_entries_map_update<T>(s: Seq<(usize, Option<T>)>, i: int, v: Option<T>)
    requires
        0 <= i < s.len(),
        forall|p: int, q: int| 0 <= p < q < s.len() ==> (#[trigger] s[p]).0 != (#[trigger] s[q]).0,
    ensures
        entries_map(s.update(i, (s[i].0, v))) =~= entries_map(s).insert(s[i].0, v),
    decreases s.len(),
{
    let k = s[i].0;
    let t = s.update(i, (k, v));
    if i == s.len() - 1 {
        assert(t.drop_last() =~= s.drop_last());
    } else {
        lemma_entries_map_update(s.drop_last(), i, v);
        assert(t.drop_last() =~= s.drop_last().update(i, (k, v)));
        assert(s.last().0 != k);
        assert(entries_map(t) =~= entries_map(s).insert(k, v));
    }
}

/// The per-window callback table, keyed by the raw window handle value.
///
/// A map lookup substitutes for attaching user data to a window, which the
/// foreign library does not support. Entries are added at registration and
/// replaced on re-registration; registering `None` leaves a cleared entry.
pub struct WindowCallbacks<T> {
    entries: Vec<(usize, Option<T>)>,
}

impl<T> WindowCallbacks<T> {
    /// Each window handle owns at most one entry.
    pub closed spec fn wf(&self) -> bool {
        forall|p: int, q: int| 0 <= p < q < self.entries@.len()
            ==> (#[trigger] self.entries@[p]).0 != (#[trigger] self.entries@[q]).0
    }

    /// The registered callbacks as a map from window handle to entry.
    pub closed spec fn view(&self) -> Map<usize, Option<T>> {
        entries_map(self.entries@)
    }

    /// Creates an empty table.
    pub fn new() -> (t: WindowCallbacks<T>)
        ensures
            t.wf(),
            t@ =~= Map::<usize, Option<T>>::empty(),
    {
        WindowCallbacks { entries: Vec::new() }
    }

    /// Registers `cb` for `window`, replacing whatever the window had
    /// registered before; `None` clears the window's entry. Returns whether
    /// a foreign-side call-in should now be installed for the window (a
    /// callback is present) rather than deregistered.
    pub fn register(&mut self, window: usize, cb: Option<T>) -> (install: bool)
        requires
            old(self).wf(),
        ensures
            final(self).wf(),
            final(self)@ =~= old(self)@.insert(window, cb),
            install == (cb is Some),
    {
        let install = cb.is_some();
        match self.find_index(window) {
            Some(i) => {
                let ghost s = self.entries@;
                self.entries.set(i, (window, cb));
                proof {
                    lemma_entries_map_update(s, i as int, cb);
                }
            },
            None => {
                let ghost s = self.entries@;
                self.entries.push((window, cb));
                proof {
                    assert(self.entries@.drop_last() =~= s);
                    lemma_entries_map_dom(s, window);
                }
            },
        }
        install
    }

    /// Returns the index of the entry that carries `window`, if any.
    fn find_index(&self, window: usize) -> (r: Option<usize>)
        ensures
            match r {
                Some(i) => i < self.entries@.len() && self.entries@[i as int].0 == window,
                None => forall|j: int|
                    0 <= j < self.entries@.len() ==> (#[trigger] self.entries@[j]).0 != window,
            },
    {
        let n = self.entries.len();
        let mut i: usize = 0;
        while i < n
            invariant
                n == self.entries@.len(),
                i <= n,
                forall|j: int| 0 <= j < i ==> (#[trigger] self.entries@[j]).0 != window,
            decreases n - i,
        {
            if self.entries[i].0 == window {
                return Some(i);
            }
            i = i + 1;
        }
        None
    }

    /// Looks up the entry registered for `window`: `None` if the window was
    /// never registered, otherwise the window's current entry (which is
    /// itself `None` when the callback was cleared).
    pub fn lookup(&self, window: usize) -> (r: Option<&Option<T>>)
        requires
            self.wf(),
        ensures
            match r {
                Some(e) => self@.dom().contains(window) && *e == self@[window],
                None => !self@.dom().contains(window),
            },
    {
        match self.find_index(window) {
            Some(i) => {
                proof {
                    lemma_entries_map_get(self.entries@, i as int);
                }
                Some(&self.entries[i].1)
            },
            None => {
                proof {
                    lemma_entries_map_dom(self.entries@, window);
                }
                None
            },
        }
    }
}

/// Clearing a callback is idempotent and leaves no residual dispatch:
/// clearing an already-cleared entry changes nothing, and a callback that is
/// registered and then cleared is no longer found at its key.
pub proof fn lemma_clear_leaves_no_residual<T>(m: Map<usize, Option<T>>, window: usize, cb: T)
    ensures
        m.insert(window, None).insert(window, None) =~= m.insert(window, None),
        m.insert(window, Some(cb)).insert(window, None)[window] is None,
{
}

} // verus!
