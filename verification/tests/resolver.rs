//! Function-resolution cache behavior.

use hitchcock::resolver::ProcSlot;

/// A fake address-resolution call-in that counts its invocations.
struct CountingResolver {
    calls: usize,
}

impl CountingResolver {
    fn resolve(&mut self) -> usize {
        self.calls += 1;
        0x7f00_1234
    }
}

#[test]
fn wrapped_call_resolves_at_most_once() {
    let mut resolver = CountingResolver { calls: 0 };
    let mut slot = ProcSlot::new();

    // Two wrapped calls in a row: each consults the cache and performs the
    // foreign lookup only when the slot is still empty.
    for _ in 0..2 {
        if slot.needs_resolution() {
            let addr = resolver.resolve();
            slot.fill(addr);
        }
        assert_eq!(slot.get(), 0x7f00_1234);
    }
    assert_eq!(resolver.calls, 1);
}

#[test]
fn ensure_resolved_reports_single_resolution() {
    let mut slot = ProcSlot::new();
    assert!(slot.needs_resolution());

    let performed = slot.ensure_resolved(0x1111);
    assert!(performed);
    assert_eq!(slot.get(), 0x1111);

    // The second wrapped call performs no foreign lookup and keeps the
    // first resolution's address, whatever a fresh lookup would return.
    let performed = slot.ensure_resolved(0x2222);
    assert!(!performed);
    assert_eq!(slot.get(), 0x1111);
    assert!(!slot.needs_resolution());
}
