//! The nullifier store: the set of already-spent privacy nullifiers.
//!
//! A contributor proves a single unspent contribution by presenting a
//! one-time nullifier hash. Two proofs over the same underlying secret yield
//! the same hash, so insert-fails-on-duplicate is the whole double-spend
//! guard. The store is append-only: nothing in this core ever removes an
//! entry.

use vstd::prelude::*;

use crate::errors::ErrorCode;

verus! {

/// One spent nullifier: the opaque 32-byte hash and the campaign whose
/// donation spent it. Never mutated, never deleted.
pub struct Nullifier {
    pub hash: Vec<u8>,
    pub campaign_id: u64,
}

/// The append-only set of spent nullifiers, viewed as the sequence of
/// (hash, campaign id) pairs in spending order.
pub struct NullifierStore {
    entries: Vec<Nullifier>,
}

impl View for NullifierStore {
    type V = Seq<(Seq<u8>, u64)>;

    closed spec fn view(&self) -> Seq<(Seq<u8>, u64)> {
        Seq::new(
            self.entries@.len(),
            |i: int| (self.entries@[i].hash@, self.entries@[i].campaign_id),
        )
    }
}

impl NullifierStore {
    /// Some spent nullifier carries this hash.
    pub open spec fn contains_hash(self, h: Seq<u8>) -> bool {
        exists|i: int| 0 <= i < self@.len() && self@[i].0 == h
    }

    /// No two spent nullifiers carry the same hash.
    pub open spec fn wf(self) -> bool {
        forall|i: int, j: int| 0 <= i < j < self@.len() ==> self@[i].0 != self@[j].0
    }

    /// An empty store: no nullifier has been spent.
    pub fn new() -> (r: NullifierStore)
        ensures
            r.wf(),
            r@ == Seq::<(Seq<u8>, u64)>::empty(),
    {
        let r = NullifierStore { entries: Vec::new() };
        proof {
            assert(r@ =~= Seq::<(Seq<u8>, u64)>::empty());
        }
        r
    }

    /// Pure lookup: has this hash been spent already?
    pub fn contains(&self, hash: &Vec<u8>) -> (r: bool)
        ensures
            r == self.contains_hash(hash@),
    {
        let n = self.entries.len();
        let mut i: usize = 0;
        while i < n
            invariant
                n == self.entries@.len(),
                0 <= i <= n,
                forall|k: int| 0 <= k < i ==> self@[k].0 != hash@,
            decreases n - i,
        {
            if bytes_eq(&self.entries[i], hash) {
                assert(self@[i as int].0 == hash@);
                return true;
            }
            i += 1;
        }
        false
    }

    /// Atomic insert-if-absent: records the nullifier as spent, or fails with
    /// `NullifierReused` on a duplicate hash with no side effect at all.
    pub fn spend(&mut self, hash: Vec<u8>, campaign_id: u64) -> (r: Result<(), ErrorCode>)
        requires
            old(self).wf(),
        ensures
            final(self).wf(),
            r is Ok <==> !old(self).contains_hash(hash@),
            r is Ok ==> final(self)@ == old(self)@.push((hash@, campaign_id)),
            r is Err ==> r == Err::<(), ErrorCode>(ErrorCode::NullifierReused) && *final(self)
                == *old(self),
    {
        if self.contains(&hash) {
            return Err(ErrorCode::NullifierReused);
        }
        let ghost pre = self@;
        self.entries.push(Nullifier { hash, campaign_id });
        proof {
            assert(final(self)@ =~= pre.push((hash@, campaign_id)));
        }
        Ok(())
    }
}

/// Byte-for-byte equality of a stored nullifier's hash with a candidate hash.
fn bytes_eq(entry: &Nullifier, hash: &Vec<u8>) -> (r: bool)
    ensures
        r == (entry.hash@ == hash@),
{
    if entry.hash.len() != hash.len() {
        return false;
    }
    let n = entry.hash.len();
    let mut i: usize = 0;
    while i < n
        invariant
            n == entry.hash@.len() == hash@.len(),
            0 <= i <= n,
            forall|k: int| 0 <= k < i ==> entry.hash@[k] == hash@[k],
        decreases n - i,
    {
        if entry.hash[i] != hash[i] {
            return false;
        }
        i += 1;
    }
    proof {
        assert(entry.hash@ =~= hash@);
    }
    true
}

} // verus!
