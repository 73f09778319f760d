//! Settlement and accounting core of a cross-chain token bridge.
//!
//! The library tracks a token's supply across independent chains: tokens
//! removed ("burned") on a source chain are the only tokens that can ever be
//! recreated ("minted") on a destination chain.  Outflow is rate-limited to
//! bound damage from compromise, inbound messages are deduplicated by
//! fingerprint so delivery is idempotent, message sources are gated by an
//! admin-controlled trust list, and an oracle price snapshot is served only
//! while fresh.
//!
//! The external collaborators — the fungible-token ledger that actually
//! mints and burns, the transport that attests cross-chain messages, and the
//! oracle that aggregates prices — are out of scope: the library consumes
//! their outputs as plain values and enforces the policy decisions built on
//! top of them.

pub mod bytes;
pub mod errors;
pub mod fingerprints;
pub mod ledger;
pub mod messages;
pub mod price;
pub mod rate_limiter;
pub mod trust;

pub use errors::BTCMinerError;
pub use fingerprints::FingerprintStore;
pub use ledger::Config;
pub use ledger::CrossChainBurnEvent;
pub use ledger::CrossChainMintEvent;
pub use ledger::PriceUpdateEvent;
pub use ledger::TrustAddedEvent;
pub use ledger::DEFAULT_DAILY_BURN_LIMIT;
pub use ledger::LOCAL_CHAIN_ID;
pub use messages::CrossChainMessage;
pub use messages::MessageAction;
pub use price::PriceCache;
pub use price::PriceReading;
pub use price::STALENESS_THRESHOLD;
pub use rate_limiter::RateLimiter;
pub use rate_limiter::SECONDS_PER_DAY;
pub use trust::TrustRegistry;
