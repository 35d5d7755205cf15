//! Function-resolution cache.
//!
//! Foreign entry points of the graphics API are looked up by name through the
//! windowing library's address-resolution call. Each entry point owns one
//! cache slot: the first call fills it with the resolved address and every
//! later call reuses that address, so the foreign lookup runs at most once
//! per symbol. A null address means the symbol is unresolvable; it is never
//! stored.

use vstd::prelude::*;

verus! {

/// A one-per-symbol slot for a resolved function address. Empty until the
/// first call that needs the symbol; filled exactly once; immutable
/// thereafter.
pub struct ProcSlot {
    addr: Option<usize>,
}

impl ProcSlot {
    /// A stored address is never the null sentinel.
    pub closed spec fn wf(&self) -> bool {
        self.addr matches Some(a) ==> a != 0
    }

    /// Whether the symbol has been resolved.
    pub closed spec fn resolved(&self) -> bool {
        self.addr is Some
    }

    /// The resolved address. Meaningful only once `resolved()` holds.
    pub closed spec fn address(&self) -> usize {
        self.addr->0
    }

    /// Creates an empty slot: no resolution has happened yet.
    pub fn new() -> (s: ProcSlot)
        ensures
            s.wf(),
            !s.resolved(),
    {
        ProcSlot { addr: None }
    }

    /// Whether a foreign symbol lookup is still needed before the entry
    /// point can be called.
    pub fn needs_resolution(&self) -> (b: bool)
        ensures
            b == !self.resolved(),
    {
        self.addr.is_none()
    }

    /// Stores the address the foreign lookup returned. Only an unresolved
    /// slot accepts an address, so resolution happens at most once per
    /// symbol, and a null address is never stored.
    pub fn fill(&mut self, addr: usize)
        requires
            !old(self).resolved(),
            addr != 0,
        ensures
            final(self).wf(),
            final(self).resolved(),
            final(self).address() == addr,
    {
        self.addr = Some(addr);
    }

    /// The cached address of the entry point.
    pub fn get(&self) -> (a: usize)
        requires
            self.wf(),
            self.resolved(),
        ensures
            a == self.address(),
            a != 0,
    {
        self.addr.unwrap()
    }

    /// One wrapped call's cache step: resolves the slot if it is still
    /// empty, using `addr` as the address the foreign lookup returned, and
    /// returns whether that foreign lookup was performed. A slot that is
    /// already resolved is left exactly as it was, so two calls in a row
    /// perform the foreign lookup at most once.
    pub fn ensure_resolved(&mut self, addr: usize) -> (performed: bool)
        requires
            old(self).wf(),
            addr != 0,
        ensures
            final(self).wf(),
            final(self).resolved(),
            performed == !old(self).resolved(),
            old(self).resolved() ==> *final(self) == *old(self),
            !old(self).resolved() ==> final(self).address() == addr,
    {
        if self.needs_resolution() {
            self.fill(addr);
            true
        } else {
            false
        }
    }
}

} // verus!
