//! Last-known oracle price snapshot with a staleness policy.
//!
//! The oracle collaborator aggregates and authenticates its own feed; the
//! bridge core only stores the latest `(price, confidence, timestamp)`
//! snapshot it is handed and refuses to serve it once it is older than the
//! staleness threshold.  The confidence interval is stored and reported but
//! not enforced against any policy threshold.

use vstd::prelude::*;

use crate::errors::BTCMinerError;

verus! {

/// Maximum age of a price snapshot, in seconds, before a read refuses it.
pub const STALENESS_THRESHOLD: u64 = 300;

/// One reading handed over by the oracle collaborator.
#[derive(Clone, Copy, Debug, PartialEq, Eq, Structural)]
pub struct PriceReading {
    /// The aggregated price, in the oracle's base units.
    pub price: u64,
    /// The oracle's confidence interval around the price.
    pub confidence: u64,
}

/// The last oracle snapshot the bridge accepted.
#[derive(Clone, Copy, Debug, PartialEq, Eq, Structural)]
#[verifier::ext_equal]
pub struct PriceCache {
    /// Price of the latest accepted snapshot.
    pub current_price: u64,
    /// Confidence interval of the latest accepted snapshot.
    pub price_confidence: u64,
    /// Epoch second at which the latest snapshot was accepted.
    pub price_timestamp: u64,
}

impl PriceCache {
    /// The snapshot is still usable at `now`: strictly younger than the
    /// staleness threshold.
    pub open spec fn fresh(self, now: u64) -> bool {
        now < self.price_timestamp + STALENESS_THRESHOLD
    }

    /// An empty cache: a zero snapshot taken at the epoch.
    pub fn new() -> (r: PriceCache)
        ensures
            r == (PriceCache { current_price: 0, price_confidence: 0, price_timestamp: 0 }),
    {
        PriceCache { current_price: 0, price_confidence: 0, price_timestamp: 0 }
    }

    /// Overwrite the snapshot with `reading`, stamped at `now`.
    pub fn update(&mut self, reading: PriceReading, now: u64)
        ensures
            *final(self) == (PriceCache {
                current_price: reading.price,
                price_confidence: reading.confidence,
                price_timestamp: now,
            }),
    {
        self.current_price = reading.price;
        self.price_confidence = reading.confidence;
        self.price_timestamp = now;
    }

    /// Read the cached price at `now`.
    ///
    /// Returns the snapshot's price exactly while the snapshot is fresh; a
    /// snapshot aged `STALENESS_THRESHOLD` seconds or more is refused.
    pub fn read(&self, now: u64) -> (r: Result<u64, BTCMinerError>)
        ensures
            match r {
                Ok(p) => self.fresh(now) && p == self.current_price,
                Err(e) => e == BTCMinerError::OracleStale && !self.fresh(now),
            },
    {
        let usable = if now <= self.price_timestamp {
            true
        } else {
            now - self.price_timestamp < STALENESS_THRESHOLD
        };
        if usable {
            Ok(self.current_price)
        } else {
            Err(BTCMinerError::OracleStale)
        }
    }
}

} // verus!
