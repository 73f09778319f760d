//! The error taxonomy of the bridge core.

use vstd::prelude::*;

verus! {

/// Every failure an operation of the bridge core can surface to its caller.
///
/// Each is terminal for the operation that raised it; no operation retries
/// internally, and no operation leaves partial state behind when it errs.
#[derive(Clone, Copy, Debug, PartialEq, Eq, Structural)]
pub enum BTCMinerError {
    /// The rate limiter rejected a burn; retry after the window rolls over.
    DailyLimitExceeded,
    /// The message fingerprint was already consumed by an earlier delivery.
    AlreadyProcessed,
    /// Outbound burns are rejected while the bridge is paused.
    Paused,
    /// The caller of an admin operation is not the configured authority.
    Unauthorized,
    /// The inbound message's emitter is not on the trust list.
    UntrustedEmitter,
    /// The inbound payload failed to decode, or carried an action other
    /// than mint.
    MalformedMessage,
    /// The cached oracle price is older than the staleness threshold.
    OracleStale,
    /// The oracle refresh supplied no usable reading; the prior snapshot is
    /// retained.
    OracleInvalid,
}

} // verus!
