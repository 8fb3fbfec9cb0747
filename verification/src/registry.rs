//! The compliance registry: a set of sanctioned addresses.
//!
//! Presence of an address in the registry is the sanction flag; there is no
//! boolean field that could linger on a stale record. At most one entry per
//! address ever exists.

use vstd::prelude::*;

use crate::errors::ErrorCode;

verus! {

/// An address of the surrounding value-transfer substrate, reduced to the one
/// thing the ledger reads of it: its identity.
pub type Address = u64;

/// The set of sanctioned addresses. Administration (who may change the set)
/// lives in the engine; the registry is the bare set.
pub struct ComplianceRegistry {
    entries: Vec<Address>,
}

impl View for ComplianceRegistry {
    type V = Set<Address>;

    closed spec fn view(&self) -> Set<Address> {
        Set::new(|a: Address| self.entries@.contains(a))
    }
}

impl ComplianceRegistry {
    /// Each address appears at most once in the backing vector.
    pub closed spec fn wf(self) -> bool {
        forall|i: int, j: int|
            0 <= i < j < self.entries@.len() ==> self.entries@[i] != self.entries@[j]
    }

    /// An empty registry: nobody is sanctioned.
    pub fn new() -> (r: ComplianceRegistry)
        ensures
            r.wf(),
            r@ == Set::<Address>::empty(),
    {
        let r = ComplianceRegistry { entries: Vec::new() };
        proof {
            assert(r@ =~= Set::<Address>::empty());
        }
        r
    }

    /// Pure membership test: is `address` sanctioned right now?
    pub fn is_sanctioned(&self, address: Address) -> (r: bool)
        ensures
            r == self@.contains(address),
    {
        let n = self.entries.len();
        let mut i: usize = 0;
        while i < n
            invariant
                n == self.entries@.len(),
                0 <= i <= n,
                forall|k: int| 0 <= k < i ==> self.entries@[k] != address,
            decreases n - i,
        {
            if self.entries[i] == address {
                return true;
            }
            i += 1;
        }
        false
    }

    /// Adds `address` to the registry; refuses an address already present, so
    /// an operator's double entry surfaces instead of being merged.
    pub fn insert(&mut self, address: Address) -> (r: Result<(), ErrorCode>)
        requires
            old(self).wf(),
        ensures
            final(self).wf(),
            r is Ok <==> !old(self)@.contains(address),
            r is Ok ==> final(self)@ == old(self)@.insert(address),
            r is Err ==> r == Err::<(), ErrorCode>(ErrorCode::DuplicateSanction) && *final(self)
                == *old(self),
    {
        if self.is_sanctioned(address) {
            return Err(ErrorCode::DuplicateSanction);
        }
        self.entries.push(address);
        proof {
            assert forall|a: Address| #[trigger] final(self)@.contains(a) implies old(
                self,
            )@.insert(address).contains(a) by {
                let k = choose|k: int| 0 <= k < self.entries@.len() && self.entries@[k] == a;
                if k < old(self).entries@.len() {
                    assert(old(self).entries@[k] == a);
                }
            }
            assert forall|a: Address| #[trigger]
                old(self)@.insert(address).contains(a) implies final(self)@.contains(a) by {
                if old(self)@.contains(a) {
                    let k = choose|k: int|
                        0 <= k < old(self).entries@.len() && old(self).entries@[k] == a;
                    assert(self.entries@[k] == a);
                } else {
                    assert(self.entries@[old(self).entries@.len() as int] == address);
                }
            }
            assert(final(self)@ =~= old(self)@.insert(address));
        }
        Ok(())
    }

    /// Removes `address` from the registry; refuses an address that is not
    /// present.
    pub fn remove(&mut self, address: Address) -> (r: Result<(), ErrorCode>)
        requires
            old(self).wf(),
        ensures
            final(self).wf(),
            r is Ok <==> old(self)@.contains(address),
            r is Ok ==> final(self)@ == old(self)@.remove(address),
            r is Err ==> r == Err::<(), ErrorCode>(ErrorCode::SanctionNotFound) && *final(self)
                == *old(self),
    {
        let n = self.entries.len();
        let mut i: usize = 0;
        while i < n
            invariant
                n == self.entries@.len(),
                0 <= i <= n,
                self.wf(),
                *self == *old(self),
                forall|k: int| 0 <= k < i ==> self.entries@[k] != address,
            decreases n - i,
        {
            if self.entries[i] == address {
                self.entries.remove(i);
                proof {
                    assert forall|a: Address| #[trigger] final(self)@.contains(a) implies old(
                        self,
                    )@.remove(address).contains(a) by {
                        let k = choose|k: int|
                            0 <= k < self.entries@.len() && self.entries@[k] == a;
                        if k < i {
                            assert(old(self).entries@[k] == a);
                        } else {
                            assert(old(self).entries@[k + 1] == a);
                        }
                    }
                    assert forall|a: Address| #[trigger]
                        old(self)@.remove(address).contains(a) implies final(self)@.contains(
                        a,
                    ) by {
                        let k = choose|k: int|
                            0 <= k < old(self).entries@.len() && old(self).entries@[k] == a;
                        if k < i {
                            assert(self.entries@[k] == a);
                        } else {
                            assert(k != i);
                            assert(self.entries@[k - 1] == a);
                        }
                    }
                    assert(final(self)@ =~= old(self)@.remove(address));
                }
                return Ok(());
            }
            i += 1;
        }
        Err(ErrorCode::SanctionNotFound)
    }
}

} // verus!
