//! Durable set of already-processed message fingerprints.
//!
//! A fingerprint is the deterministic hash of an attested message's full
//! encoded envelope, computed by the transport collaborator; this store
//! only records and tests membership.  The store never forgets an entry:
//! retention is unbounded, so once a fingerprint is recorded the message it
//! stands for can never be processed again.  Capacity provisioning for the
//! record is the hosting environment's concern, not a policy of the store.

use vstd::prelude::*;

use crate::bytes::bytes32_eq;
use crate::errors::BTCMinerError;

verus! {

/// Append-only record of consumed message fingerprints.
#[derive(Debug)]
#[verifier::ext_equal]
pub struct FingerprintStore {
    entries: Vec<[u8; 32]>,
}

impl View for FingerprintStore {
    type V = Seq<[u8; 32]>;

    closed spec fn view(&self) -> Seq<[u8; 32]> {
        self.entries@
    }
}

impl FingerprintStore {
    /// An empty store: no fingerprint has been consumed.
    pub fn new() -> (r: FingerprintStore)
        ensures
            r@ == Seq::<[u8; 32]>::empty(),
    {
        FingerprintStore { entries: Vec::new() }
    }

    /// Membership test: has `fingerprint` already been consumed?
    pub fn has(&self, fingerprint: &[u8; 32]) -> (r: bool)
        ensures
            r == self@.contains(*fingerprint),
    {
        let mut i: usize = 0;
        while i < self.entries.len()
            invariant
                0 <= i <= self.entries.len(),
                forall|j: int| 0 <= j < i ==> self.entries@[j] != *fingerprint,
            decreases self.entries.len() - i,
        {
            if bytes32_eq(&self.entries[i], fingerprint) {
                return true;
            }
            i += 1;
        }
        false
    }

    /// Record `fingerprint` as consumed.
    ///
    /// The check and the insert are one step: insertion succeeds exactly
    /// when the fingerprint was absent, and a present fingerprint is
    /// rejected with no mutation.
    pub fn insert(&mut self, fingerprint: [u8; 32]) -> (r: Result<(), BTCMinerError>)
        ensures
            match r {
                Ok(()) => {
                    &&& !old(self)@.contains(fingerprint)
                    &&& final(self)@ == old(self)@.push(fingerprint)
                },
                Err(e) => {
                    &&& e == BTCMinerError::AlreadyProcessed
                    &&& old(self)@.contains(fingerprint)
                    &&& *final(self) == *old(self)
                },
            },
    {
        if self.has(&fingerprint) {
            Err(BTCMinerError::AlreadyProcessed)
        } else {
            self.entries.push(fingerprint);
            Ok(())
        }
    }
}

} // verus!
