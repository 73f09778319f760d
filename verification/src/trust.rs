//! Admin-curated allow-list of remote message sources.
//!
//! An entry is a pair of a remote chain id and the 32-byte emitter identity
//! on that chain.  Only messages from listed pairs are honored by inbound
//! processing.  The list is append-only — the bridge defines no removal
//! operation — and adding a pair already present is a no-op, not an error.

use vstd::prelude::*;

use crate::bytes::bytes32_eq;

verus! {

/// Allow-list of `(remote chain id, remote emitter identity)` pairs.
#[derive(Debug)]
#[verifier::ext_equal]
pub struct TrustRegistry {
    entries: Vec<(u16, [u8; 32])>,
}

impl View for TrustRegistry {
    type V = Seq<(u16, [u8; 32])>;

    closed spec fn view(&self) -> Seq<(u16, [u8; 32])> {
        self.entries@
    }
}

impl TrustRegistry {
    /// An empty registry: no remote source is trusted.
    pub fn new() -> (r: TrustRegistry)
        ensures
            r@ == Seq::<(u16, [u8; 32])>::empty(),
    {
        TrustRegistry { entries: Vec::new() }
    }

    /// Is the pair `(chain_id, emitter)` on the allow-list?
    pub fn is_trusted(&self, chain_id: u16, emitter: &[u8; 32]) -> (r: bool)
        ensures
            r == self@.contains((chain_id, *emitter)),
    {
        let mut i: usize = 0;
        while i < self.entries.len()
            invariant
                0 <= i <= self.entries.len(),
                forall|j: int| 0 <= j < i ==> self.entries@[j] != (chain_id, *emitter),
            decreases self.entries.len() - i,
        {
            let entry = &self.entries[i];
            if entry.0 == chain_id && bytes32_eq(&entry.1, emitter) {
                return true;
            }
            i += 1;
        }
        false
    }

    /// Put `(chain_id, emitter)` on the allow-list.
    ///
    /// Idempotent: a pair already listed is left alone, so the list never
    /// holds duplicates it created itself.
    pub fn add(&mut self, chain_id: u16, emitter: [u8; 32])
        ensures
            final(self)@ == if old(self)@.contains((chain_id, emitter)) {
                old(self)@
            } else {
                old(self)@.push((chain_id, emitter))
            },
            final(self)@.contains((chain_id, emitter)),
            forall|p: (u16, [u8; 32])| old(self)@.contains(p) ==> final(self)@.contains(p),
    {
        if !self.is_trusted(chain_id, &emitter) {
            self.entries.push((chain_id, emitter));
            proof {
                assert(self@[self@.len() - 1] == (chain_id, emitter));
                assert forall|p: (u16, [u8; 32])| old(self)@.contains(p) implies self@.contains(
                    p,
                ) by {
                    let j = choose|j: int| 0 <= j < old(self)@.len() && old(self)@[j] == p;
                    assert(self@[j] == p);
                }
            }
        }
    }
}

} // verus!
