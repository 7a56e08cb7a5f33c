//! The device index registry: assigns stable, dense `u64` indices,
//! starting at 1, to opaque native touch-device handles (carried here as
//! plain `u64` values). An index, once assigned, is never changed and
//! never reused; the registry only grows.

use vstd::prelude::*;

verus! {

/// The largest index the registry can hand out. Handles arriving once
/// every index is taken all resolve to this value; with one index per
/// physical device the bound is unreachable in practice.
pub open spec fn max_index() -> int {
    u64::MAX as int
}

/// The registry contents after resolving `h` against the handles `s`
/// (in assignment order): a known or saturated handle leaves the
/// registry unchanged, a fresh one is appended.
pub open spec fn registry_after(s: Seq<u64>, h: u64) -> Seq<u64> {
    if s.contains(h) {
        s
    } else if s.len() < max_index() {
        s.push(h)
    } else {
        s
    }
}

/// The index that resolving `h` against the handles `s` returns: the
/// position of its first occurrence plus one, or the next unused index
/// (`s.len() + 1`) for a fresh handle while indices remain.
pub open spec fn resolved_index(s: Seq<u64>, h: u64) -> u64 {
    if s.contains(h) {
        (s.index_of_first(h)->Some_0 + 1) as u64
    } else if s.len() < max_index() {
        (s.len() + 1) as u64
    } else {
        u64::MAX
    }
}

/// Maps opaque native device handles to dense indices 1, 2, 3, …
/// in order of first appearance.
pub struct DeviceRegistry {
    handles: Vec<u64>,
}

impl View for DeviceRegistry {
    type V = Seq<u64>;

    closed spec fn view(&self) -> Seq<u64> {
        self.handles@
    }
}

/// No handle occurs twice in `s`.
pub open spec fn distinct_handles(s: Seq<u64>) -> bool {
    forall|i: int, j: int| #![trigger s[i], s[j]] 0 <= i < j < s.len() ==> s[i] != s[j]
}

impl DeviceRegistry {
    /// No handle is recorded twice, so every handle keeps one index.
    pub open spec fn wf(&self) -> bool {
        distinct_handles(self@)
    }

    /// An empty registry: no handle seen, the first index handed out is 1.
    pub fn new() -> (r: DeviceRegistry)
        ensures
            r@ == Seq::<u64>::empty(),
            r.wf(),
    {
        DeviceRegistry { handles: Vec::new() }
    }

    /// How many handles have been assigned an index.
    pub fn len(&self) -> (n: usize)
        ensures
            n == self@.len(),
    {
        self.handles.len()
    }

    /// Finds the position of the first occurrence of `handle`.
    fn find_index(&self, handle: u64) -> (r: Option<usize>)
        ensures
            match r {
                Some(i) => i < self@.len() && self@.len() <= usize::MAX && self@[i as int]
                    == handle && (forall|j: int| 0 <= j < i ==> self@[j] != handle),
                None => !self@.contains(handle),
            },
    {
        let n = self.handles.len();
        let mut i: usize = 0;
        while i < n
            invariant
                n == self.handles@.len(),
                i <= n,
                forall|j: int| 0 <= j < i ==> self.handles@[j] != handle,
            decreases n - i,
        {
            if self.handles[i] == handle {
                return Some(i);
            }
            i = i + 1;
        }
        proof {
            assert(!self@.contains(handle)) by {
                if self@.contains(handle) {
                    let k = choose|k: int| 0 <= k < self@.len() && self@[k] == handle;
                    assert(self@[k] != handle);
                }
            }
        }
        None
    }

    /// Returns the index of `handle`, assigning the next unused one
    /// (first 1, then 2, …) if the handle has not been seen before.
    /// Resolving a seen handle never changes the registry.
    pub fn resolve(&mut self, handle: u64) -> (idx: u64)
        requires
            old(self).wf(),
        ensures
            final(self).wf(),
            final(self)@ == registry_after(old(self)@, handle),
            idx == resolved_index(old(self)@, handle),
    {
        let ghost s = old(self).handles@;
        match self.find_index(handle) {
            Some(i) => {
                proof {
                    assert(s.contains(handle));
                    s.index_of_first_ensures(handle);
                    let k = s.index_of_first(handle)->Some_0;
                    if k < i {
                        assert(s[k] != handle);
                    }
                    if k > i {
                        assert(s[i as int] != handle);
                    }
                    assert(k == i);
                }
                (i as u64) + 1
            },
            None => {
                let n = self.handles.len();
                if (n as u64) < u64::MAX {
                    self.handles.push(handle);
                    proof {
                        let s2 = self.handles@;
                        assert(s2 == s.push(handle));
                        assert forall|p: int, q: int| #![trigger s2[p], s2[q]] 0 <= p < q
                            < s2.len() implies s2[p] != s2[q] by {
                            if q < s.len() {
                                assert(s[p] != s[q]);
                            } else {
                                assert(s2[q] == handle);
                                assert(s2[p] == s[p]);
                                if s[p] == handle {
                                    assert(s.contains(handle));
                                }
                            }
                        }
                    }
                    (n as u64) + 1
                } else {
                    u64::MAX
                }
            },
        }
    }
}

/// Law: index assignment is idempotent. Resolving the same handle a
/// second time returns the index the first resolution returned and
/// leaves the registry exactly as the first resolution left it.
pub proof fn lemma_resolve_idempotent(s: Seq<u64>, h: u64)
    ensures
        resolved_index(registry_after(s, h), h) == resolved_index(s, h),
        registry_after(registry_after(s, h), h) == registry_after(s, h),
{
    if s.contains(h) {
    } else if s.len() < max_index() {
        let s2 = s.push(h);
        assert(s2[s.len() as int] == h);
        assert(s2.contains(h));
        s2.index_of_first_ensures(h);
        let k = s2.index_of_first(h)->Some_0;
        if k < s.len() {
            assert(s2[k] == h);
            assert(s[k] == h);
            assert(s.contains(h));
        }
        assert(k == s.len());
    } else {
    }
}

/// Law: two distinct fresh handles receive distinct, consecutive
/// indices: the next unused index, then the one after it.
pub proof fn lemma_resolve_distinct(s: Seq<u64>, h1: u64, h2: u64)
    requires
        h1 != h2,
        !s.contains(h1),
        !s.contains(h2),
        s.len() + 1 < max_index(),
    ensures
        resolved_index(s, h1) == s.len() + 1,
        resolved_index(registry_after(s, h1), h2) == s.len() + 2,
{
    let s2 = registry_after(s, h1);
    assert(s2 == s.push(h1));
    assert(!s2.contains(h2)) by {
        if s2.contains(h2) {
            let k = choose|k: int| 0 <= k < s2.len() && s2[k] == h2;
            if k < s.len() {
                assert(s[k] == h2);
                assert(s.contains(h2));
            }
        }
    }
}

} // verus!
