//! The per-property serialization guard.
//!
//! Two concurrent dispatches for the same property must not have
//! overlapping command executions. The guard realizes the chosen policy —
//! the second of two overlapping requests is rejected outright — as an
//! explicit permit set: a dispatch acquires the permit for its addressing
//! key before running the command and releases it afterwards; while the
//! permit is held, every further acquisition for the same key is refused.
//!
//! The guard itself is sequential state; the binary around the library
//! keeps it behind a mutual-exclusion primitive and consults it from every
//! dispatch task.

use vstd::prelude::*;

verus! {

/// The addressing key of one in-flight dispatch.
pub struct InflightKey {
    pub device_id: String,
    pub property_id: String,
}

/// The set of addressing keys whose dispatches currently hold the
/// execution permit.
pub struct InflightGuard {
    pub keys: Vec<InflightKey>,
}

impl InflightGuard {
    /// Whether the permit for (dev, prop) is currently held.
    pub open spec fn holds(self, dev: Seq<char>, prop: Seq<char>) -> bool {
        exists|i: int|
            0 <= i < self.keys@.len() && self.keys@[i].device_id@ == dev
                && self.keys@[i].property_id@ == prop
    }

    /// Well-formedness: no addressing key is recorded twice.
    pub open spec fn wf(self) -> bool {
        forall|i: int, j: int|
            0 <= i < j < self.keys@.len() ==> !(self.keys@[i].device_id@
                == self.keys@[j].device_id@ && self.keys@[i].property_id@
                == self.keys@[j].property_id@)
    }

    /// A fresh guard: no permit is held.
    pub fn new() -> (r: Self)
        ensures
            r.wf(),
            forall|d: Seq<char>, p: Seq<char>| !r.holds(d, p),
    {
        InflightGuard { keys: Vec::new() }
    }

    /// Whether the permit for the given key is currently held.
    pub fn is_held(&self, device_id: &String, property_id: &String) -> (r: bool)
        ensures
            r == self.holds(device_id@, property_id@),
    {
        let mut i: usize = 0;
        #[verifier::loop_isolation(false)]
        while i < self.keys.len()
            invariant
                forall|a: int|
                    0 <= a < i ==> !(self.keys@[a].device_id@ == device_id@
                        && self.keys@[a].property_id@ == property_id@),
            decreases self.keys@.len() - i,
        {
            if self.keys[i].device_id == *device_id && self.keys[i].property_id == *property_id {
                return true;
            }
            i = i + 1;
        }
        false
    }

    /// Tries to acquire the execution permit for (device_id, property_id).
    ///
    /// Grants it — and records the key — exactly when no dispatch for the
    /// same key is in flight; otherwise refuses and leaves the guard
    /// unchanged.
    pub fn try_acquire(&mut self, device_id: &String, property_id: &String) -> (r: bool)
        requires
            old(self).wf(),
        ensures
            final(self).wf(),
            r == !old(self).holds(device_id@, property_id@),
            forall|d: Seq<char>, p: Seq<char>|
                final(self).holds(d, p) <==> (old(self).holds(d, p) || (r && d == device_id@ && p
                    == property_id@)),
    {
        if self.is_held(device_id, property_id) {
            return false;
        }
        self.keys.push(
            InflightKey { device_id: device_id.clone(), property_id: property_id.clone() },
        );
        proof {
            let n = self.keys@.len() - 1;
            assert(self.keys@[n].device_id@ == device_id@ && self.keys@[n].property_id@
                == property_id@);
            assert forall|d: Seq<char>, p: Seq<char>| self.holds(d, p) implies (old(self).holds(
                d,
                p,
            ) || (d == device_id@ && p == property_id@)) by {
                if self.holds(d, p) {
                    let i = choose|i: int|
                        0 <= i < self.keys@.len() && self.keys@[i].device_id@ == d
                            && self.keys@[i].property_id@ == p;
                    if i < n {
                        assert(old(self).keys@[i].device_id@ == d && old(
                            self,
                        ).keys@[i].property_id@ == p);
                    }
                }
            }
            assert forall|d: Seq<char>, p: Seq<char>| old(self).holds(d, p) implies self.holds(
                d,
                p,
            ) by {
                if old(self).holds(d, p) {
                    let i = choose|i: int|
                        0 <= i < old(self).keys@.len() && old(self).keys@[i].device_id@ == d && old(
                            self,
                        ).keys@[i].property_id@ == p;
                    assert(self.keys@[i].device_id@ == d && self.keys@[i].property_id@ == p);
                }
            }
        }
        true
    }

    /// Releases the execution permit for (device_id, property_id).
    ///
    /// Afterwards the permit for that key is free again; every other key
    /// is unaffected. Releasing a key that is not held changes nothing.
    pub fn release(&mut self, device_id: &String, property_id: &String)
        requires
            old(self).wf(),
        ensures
            final(self).wf(),
            forall|d: Seq<char>, p: Seq<char>|
                final(self).holds(d, p) <==> (old(self).holds(d, p) && !(d == device_id@ && p
                    == property_id@)),
    {
        let mut i: usize = 0;
        #[verifier::loop_isolation(false)]
        while i < self.keys.len()
            invariant
                *self == *old(self),
                forall|a: int|
                    0 <= a < i ==> !(self.keys@[a].device_id@ == device_id@
                        && self.keys@[a].property_id@ == property_id@),
            decreases self.keys@.len() - i,
        {
            if self.keys[i].device_id == *device_id && self.keys[i].property_id == *property_id {
                self.keys.remove(i);
                proof {
                    let oldk = old(self).keys@;
                    let n = oldk.len();
                    assert(self.keys@ == oldk.remove(i as int));
                    assert forall|d: Seq<char>, p: Seq<char>| self.holds(d, p) implies (old(
                        self,
                    ).holds(d, p) && !(d == device_id@ && p == property_id@)) by {
                        if self.holds(d, p) {
                            let j = choose|j: int|
                                0 <= j < self.keys@.len() && self.keys@[j].device_id@ == d
                                    && self.keys@[j].property_id@ == p;
                            let jj = if j < i { j } else { j + 1 };
                            assert(oldk[jj] == self.keys@[j]);
                            assert(oldk[jj].device_id@ == d && oldk[jj].property_id@ == p);
                            assert(jj != i);
                            assert(!(d == device_id@ && p == property_id@));
                        }
                    }
                    assert forall|d: Seq<char>, p: Seq<char>|
                        (old(self).holds(d, p) && !(d == device_id@ && p
                            == property_id@)) implies self.holds(d, p) by {
                        let j = choose|j: int|
                            0 <= j < oldk.len() && oldk[j].device_id@ == d && oldk[j].property_id@
                                == p;
                        assert(j != i);
                        let jj = if j < i { j } else { j - 1 };
                        assert(self.keys@[jj] == oldk[j]);
                        assert(self.keys@[jj].device_id@ == d && self.keys@[jj].property_id@ == p);
                    }
                    assert forall|a: int, b: int| 0 <= a < b < self.keys@.len() implies !(
                    self.keys@[a].device_id@ == self.keys@[b].device_id@
                        && self.keys@[a].property_id@ == self.keys@[b].property_id@) by {
                        let aa = if a < i { a } else { a + 1 };
                        let bb = if b < i { b } else { b + 1 };
                        assert(self.keys@[a] == oldk[aa]);
                        assert(self.keys@[b] == oldk[bb]);
                    }
                }
                return;
            }
            i = i + 1;
        }
    }
}

/// Dispatches for the same property are serialized: from any guard state
/// reached right after `try_acquire` granted the permit for (dev, prop),
/// a second `try_acquire` for the same key is refused — so two command
/// executions for one property can never overlap.
pub proof fn lemma_same_property_serialized(
    before: InflightGuard,
    after: InflightGuard,
    dev: Seq<char>,
    prop: Seq<char>,
)
    requires
        !before.holds(dev, prop),
        forall|d: Seq<char>, p: Seq<char>|
            after.holds(d, p) <==> (before.holds(d, p) || (d == dev && p == prop)),
    ensures
        after.holds(dev, prop),
{
    assert(after.holds(dev, prop) <==> (before.holds(dev, prop) || (dev == dev && prop == prop)));
}

} // verus!
