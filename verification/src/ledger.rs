//! The bridge ledger: the orchestrator of the four protocol operations.
//!
//! [`Config`] composes the rate limiter, the fingerprint store, the trust
//! registry and the price cache, and is the only place with cross-cutting
//! authority checks.  External collaborators stay outside: the token
//! ledger that actually mints and burns, the transport that attests
//! messages, and the oracle that aggregates prices all hand this module
//! plain values and take plain values back.
//!
//! An operation with an external effect is split in two, so that a
//! transactional caller can order things as the protocol demands — checks
//! first, then the external call, then the bookkeeping commit, with the
//! commit conditioned on the external call's success:
//!
//! - outbound: [`Config::authorize_burn`] decides, the caller performs the
//!   token-ledger burn, [`Config::cross_chain_burn`] re-checks and commits;
//! - inbound: [`Config::process_wormhole_vaa`] decides, the caller performs
//!   the token-ledger mint, [`Config::cross_chain_mint`] re-checks the
//!   dedup gate and commits in the same step.

use vstd::prelude::*;

use crate::errors::BTCMinerError;
use crate::fingerprints::FingerprintStore;
use crate::messages::msg_bytes;
use crate::messages::valid_encoding;
use crate::messages::CrossChainMessage;
use crate::messages::MessageAction;
use crate::price::PriceCache;
use crate::price::PriceReading;
use crate::rate_limiter::RateLimiter;
use crate::trust::TrustRegistry;

verus! {

/// Default policy ceiling on the daily burn window: one million whole
/// tokens at nine decimal places, in base units.
pub const DEFAULT_DAILY_BURN_LIMIT: u64 = 1_000_000 * 1_000_000_000;

/// The chain id this ledger instance announces as the source of its
/// outbound messages.
pub const LOCAL_CHAIN_ID: u16 = 1;

/// The singleton state of one deployed bridge instance.
#[derive(Debug)]
#[verifier::ext_equal]
pub struct Config {
    /// Identity permitted to perform admin operations; set once.
    pub authority: [u8; 32],
    /// Identity of the transport bridge instance this ledger announces to.
    pub wormhole_bridge: [u8; 32],
    /// Total amount ever burned by successful outbound operations.
    pub total_burned: u64,
    /// Total amount ever minted by successful inbound operations.
    pub total_minted: u64,
    /// The sliding daily burn-rate limiter.
    pub rate_limiter: RateLimiter,
    /// The last accepted oracle snapshot.
    pub price: PriceCache,
    /// When set, outbound burns are rejected; inbound processing and
    /// admin operations are unaffected.
    pub paused: bool,
    /// Fingerprints of inbound messages already consumed.
    pub processed_vaas: FingerprintStore,
    /// Remote sources whose messages are honored.
    pub trusted_emitters: TrustRegistry,
}

/// Announcement of a successful outbound burn.
#[derive(Clone, Copy, Debug, PartialEq, Eq)]
pub struct CrossChainBurnEvent {
    /// The caller whose balance was burned.
    pub user: [u8; 32],
    /// Amount burned, in base units.
    pub amount: u64,
    /// Chain the transfer is addressed to.
    pub target_chain: u16,
    /// Recipient identity on the target chain.
    pub recipient: [u8; 32],
    /// Sender-chosen uniqueness salt.
    pub nonce: u32,
}

/// Announcement of a successful inbound mint.
#[derive(Clone, Copy, Debug, PartialEq, Eq)]
pub struct CrossChainMintEvent {
    /// The recipient credited by the mint.
    pub user: [u8; 32],
    /// Amount minted, in base units.
    pub amount: u64,
    /// Chain the transfer originated from.
    pub source_chain: u16,
    /// Fingerprint of the consumed message.
    pub vaa_hash: [u8; 32],
}

/// Announcement of a newly honored remote source.
#[derive(Clone, Copy, Debug, PartialEq, Eq)]
pub struct TrustAddedEvent {
    /// Chain id of the remote source.
    pub chain_id: u16,
    /// Emitter identity of the remote source.
    pub emitter: [u8; 32],
}

/// Announcement of an accepted oracle refresh.
#[derive(Clone, Copy, Debug, PartialEq, Eq)]
pub struct PriceUpdateEvent {
    /// The accepted price.
    pub price: u64,
    /// The oracle's confidence interval around it.
    pub confidence: u64,
    /// Epoch second at which the snapshot was accepted.
    pub timestamp: u64,
}

/// `c` with the pause flag set to `b` and nothing else changed.
pub open spec fn with_paused(c: Config, b: bool) -> Config {
    Config { paused: b, ..c }
}

/// `c` after a committed outbound burn of `amount` at `now`: the window
/// consumes the amount and the lifetime burn counter grows by it.
pub open spec fn after_burn(c: Config, amount: u64, now: u64) -> Config {
    Config {
        rate_limiter: c.rate_limiter.consumed(amount, now),
        total_burned: (c.total_burned + amount) as u64,
        ..c
    }
}

/// `c` after an accepted oracle refresh of `rd` at `now`.
pub open spec fn after_price_update(c: Config, rd: PriceReading, now: u64) -> Config {
    Config {
        price: PriceCache {
            current_price: rd.price,
            price_confidence: rd.confidence,
            price_timestamp: now,
        },
        ..c
    }
}

impl Config {
    /// The ledger's invariant: the burn window never exceeds its ceiling.
    pub open spec fn wf(self) -> bool {
        self.rate_limiter.wf()
    }

    /// An inbound message from `(emitter_chain, emitter_address)` is
    /// honored.
    pub open spec fn trusts(self, emitter_chain: u16, emitter_address: [u8; 32]) -> bool {
        self.trusted_emitters@.contains((emitter_chain, emitter_address))
    }

    /// The fingerprint was already consumed by an earlier delivery.
    pub open spec fn processed(self, vaa_hash: [u8; 32]) -> bool {
        self.processed_vaas@.contains(vaa_hash)
    }

    /// Create a bridge instance with the given policy ceiling on the
    /// daily burn window.
    ///
    /// Counters start at zero, the window is unanchored, the bridge is
    /// unpaused, no fingerprint is recorded, no emitter is trusted, and
    /// the price cache holds a zero snapshot from the epoch.
    pub fn initialize_with_limit(
        authority: [u8; 32],
        wormhole_bridge: [u8; 32],
        daily_burn_limit: u64,
    ) -> (c: Config)
        ensures
            c.authority == authority,
            c.wormhole_bridge == wormhole_bridge,
            c.total_burned == 0,
            c.total_minted == 0,
            c.rate_limiter == (RateLimiter {
                daily_burn_limit,
                daily_burn_amount: 0,
                last_burn_reset: 0,
            }),
            c.price == (PriceCache { current_price: 0, price_confidence: 0, price_timestamp: 0 }),
            !c.paused,
            c.processed_vaas@ == Seq::<[u8; 32]>::empty(),
            c.trusted_emitters@ == Seq::<(u16, [u8; 32])>::empty(),
            c.wf(),
    {
        Config {
            authority,
            wormhole_bridge,
            total_burned: 0,
            total_minted: 0,
            rate_limiter: RateLimiter::new(daily_burn_limit),
            price: PriceCache::new(),
            paused: false,
            processed_vaas: FingerprintStore::new(),
            trusted_emitters: TrustRegistry::new(),
        }
    }

    /// Create a bridge instance with the default daily burn ceiling.
    pub fn initialize(authority: [u8; 32], wormhole_bridge: [u8; 32]) -> (c: Config)
        ensures
            c.authority == authority,
            c.wormhole_bridge == wormhole_bridge,
            c.total_burned == 0,
            c.total_minted == 0,
            c.rate_limiter == (RateLimiter {
                daily_burn_limit: DEFAULT_DAILY_BURN_LIMIT,
                daily_burn_amount: 0,
                last_burn_reset: 0,
            }),
            c.price == (PriceCache { current_price: 0, price_confidence: 0, price_timestamp: 0 }),
            !c.paused,
            c.processed_vaas@ == Seq::<[u8; 32]>::empty(),
            c.trusted_emitters@ == Seq::<(u16, [u8; 32])>::empty(),
            c.wf(),
    {
        Config::initialize_with_limit(authority, wormhole_bridge, DEFAULT_DAILY_BURN_LIMIT)
    }

    /// The outbound decision alone: would a burn of `amount` at `now` be
    /// accepted?  Mutates nothing; a transactional caller asks this first,
    /// then performs the token-ledger burn, then commits with
    /// [`Self::cross_chain_burn`].
    pub fn authorize_burn(&self, amount: u64, now: u64) -> (r: Result<(), BTCMinerError>)
        requires
            self.wf(),
        ensures
            match r {
                Ok(()) => !self.paused && self.rate_limiter.accepts(amount, now),
                Err(e) => {
                    ||| e == BTCMinerError::Paused && self.paused
                    ||| {
                        &&& e == BTCMinerError::DailyLimitExceeded
                        &&& !self.paused
                        &&& !self.rate_limiter.accepts(amount, now)
                    }
                },
            },
    {
        if self.paused {
            return Err(BTCMinerError::Paused);
        }
        let mut probe = self.rate_limiter;
        match probe.try_consume(amount, now) {
            Ok(_) => Ok(()),
            Err(e) => Err(e),
        }
    }

    /// Outbound burn: authorize, consume the daily window, and commit the
    /// bookkeeping for a burn of `amount` from `user`, announcing the
    /// assembled cross-chain message.
    ///
    /// Rejected while paused, and rejected by the rate limiter when the
    /// rolled-over window cannot take `amount`; a rejected attempt leaves
    /// the whole ledger exactly as it was.  The caller performs the
    /// token-ledger burn between [`Self::authorize_burn`] and this commit.
    pub fn cross_chain_burn(
        &mut self,
        user: [u8; 32],
        amount: u64,
        target_chain: u16,
        recipient: [u8; 32],
        nonce: u32,
        now: u64,
    ) -> (r: Result<(CrossChainMessage, CrossChainBurnEvent), BTCMinerError>)
        requires
            old(self).wf(),
            !old(self).paused && old(self).rate_limiter.accepts(amount, now) ==> old(
                self,
            ).total_burned + amount <= u64::MAX,
        ensures
            final(self).wf(),
            match r {
                Ok((m, ev)) => {
                    &&& !old(self).paused
                    &&& old(self).rate_limiter.accepts(amount, now)
                    &&& *final(self) == after_burn(*old(self), amount, now)
                    &&& m == (CrossChainMessage {
                        action: MessageAction::Burn,
                        amount,
                        recipient,
                        source_chain: LOCAL_CHAIN_ID,
                        target_chain,
                        nonce,
                    })
                    &&& ev == (CrossChainBurnEvent { user, amount, target_chain, recipient, nonce })
                },
                Err(e) => {
                    &&& *final(self) == *old(self)
                    &&& {
                        ||| e == BTCMinerError::Paused && old(self).paused
                        ||| {
                            &&& e == BTCMinerError::DailyLimitExceeded
                            &&& !old(self).paused
                            &&& !old(self).rate_limiter.accepts(amount, now)
                        }
                    }
                },
            },
    {
        if self.paused {
            return Err(BTCMinerError::Paused);
        }
        match self.rate_limiter.try_consume(amount, now) {
            Ok(_) => {
                self.total_burned = self.total_burned + amount;
                let message = CrossChainMessage {
                    action: MessageAction::Burn,
                    amount,
                    recipient,
                    source_chain: LOCAL_CHAIN_ID,
                    target_chain,
                    nonce,
                };
                let event = CrossChainBurnEvent { user, amount, target_chain, recipient, nonce };
                Ok((message, event))
            },
            Err(e) => Err(e),
        }
    }

    /// Inbound commit: record `vaa_hash` as consumed and credit `amount`
    /// to the lifetime mint counter, announcing the completed mint.
    ///
    /// The dedup check and the fingerprint insert are one atomic step: of
    /// two deliveries with the same fingerprint, exactly one can ever
    /// commit, and the loser errs with `AlreadyProcessed` and mutates
    /// nothing.  The caller performs the token-ledger mint after the
    /// [`Self::process_wormhole_vaa`] decision and before this commit.
    pub fn cross_chain_mint(
        &mut self,
        user: [u8; 32],
        amount: u64,
        source_chain: u16,
        vaa_hash: [u8; 32],
    ) -> (r: Result<CrossChainMintEvent, BTCMinerError>)
        requires
            !old(self).processed(vaa_hash) ==> old(self).total_minted + amount <= u64::MAX,
        ensures
            match r {
                Ok(ev) => {
                    &&& !old(self).processed(vaa_hash)
                    &&& final(self).processed_vaas@ == old(self).processed_vaas@.push(vaa_hash)
                    &&& final(self).total_minted == old(self).total_minted + amount
                    &&& final(self).authority == old(self).authority
                    &&& final(self).wormhole_bridge == old(self).wormhole_bridge
                    &&& final(self).total_burned == old(self).total_burned
                    &&& final(self).rate_limiter == old(self).rate_limiter
                    &&& final(self).price == old(self).price
                    &&& final(self).paused == old(self).paused
                    &&& final(self).trusted_emitters@ == old(self).trusted_emitters@
                    &&& ev == (CrossChainMintEvent { user, amount, source_chain, vaa_hash })
                },
                Err(e) => {
                    &&& e == BTCMinerError::AlreadyProcessed
                    &&& old(self).processed(vaa_hash)
                    &&& *final(self) == *old(self)
                },
            },
    {
        match self.processed_vaas.insert(vaa_hash) {
            Ok(()) => {
                self.total_minted = self.total_minted + amount;
                Ok(CrossChainMintEvent { user, amount, source_chain, vaa_hash })
            },
            Err(e) => Err(e),
        }
    }

    /// The inbound decision: validate an attested message against policy
    /// without touching any state.
    ///
    /// The transport collaborator has already verified the attestation and
    /// supplies the emitter identity, the raw payload, and the envelope's
    /// fingerprint.  The gates apply in order: the emitter must be on the
    /// trust list, the fingerprint must be unseen, the payload must decode,
    /// and the decoded action must be mint — the burn tag is not
    /// inbound-processable.  On success the decoded message, whose
    /// encoding is exactly the payload, is handed back for the caller to
    /// perform the mint and then commit with [`Self::cross_chain_mint`].
    pub fn process_wormhole_vaa(
        &self,
        emitter_chain: u16,
        emitter_address: &[u8; 32],
        payload: &Vec<u8>,
        vaa_hash: [u8; 32],
    ) -> (r: Result<CrossChainMessage, BTCMinerError>)
        ensures
            match r {
                Ok(m) => {
                    &&& self.trusts(emitter_chain, *emitter_address)
                    &&& !self.processed(vaa_hash)
                    &&& payload@ == msg_bytes(m)
                    &&& m.action == MessageAction::Mint
                },
                Err(e) => {
                    ||| e == BTCMinerError::UntrustedEmitter && !self.trusts(
                        emitter_chain,
                        *emitter_address,
                    )
                    ||| {
                        &&& e == BTCMinerError::AlreadyProcessed
                        &&& self.trusts(emitter_chain, *emitter_address)
                        &&& self.processed(vaa_hash)
                    }
                    ||| {
                        &&& e == BTCMinerError::MalformedMessage
                        &&& self.trusts(emitter_chain, *emitter_address)
                        &&& !self.processed(vaa_hash)
                        &&& !(valid_encoding(payload@) && payload@[0] == 2)
                    }
                },
            },
    {
        if !self.trusted_emitters.is_trusted(emitter_chain, emitter_address) {
            return Err(BTCMinerError::UntrustedEmitter);
        }
        if self.processed_vaas.has(&vaa_hash) {
            return Err(BTCMinerError::AlreadyProcessed);
        }
        let message = match CrossChainMessage::decode(payload) {
            Ok(m) => m,
            Err(e) => {
                return Err(e);
            },
        };
        match message.action {
            MessageAction::Mint => Ok(message),
            MessageAction::Burn => Err(BTCMinerError::MalformedMessage),
        }
    }

    /// The allowance still available in the daily burn window at `now`,
    /// read-only: applies the same lazy rollover as a burn attempt would,
    /// without re-anchoring the window.  The allowance is global, not
    /// per caller.
    pub fn get_remaining_daily_burn(&self, _user: [u8; 32], now: u64) -> (r: u64)
        requires
            self.wf(),
        ensures
            r == self.rate_limiter.spec_remaining(now),
    {
        self.rate_limiter.remaining(now)
    }

    /// Admin: reject outbound burns until unpaused.  Only the configured
    /// authority may pause; nothing but the flag changes.
    pub fn pause(&mut self, caller: [u8; 32]) -> (r: Result<(), BTCMinerError>)
        ensures
            match r {
                Ok(()) => caller == old(self).authority && *final(self) == with_paused(
                    *old(self),
                    true,
                ),
                Err(e) => {
                    &&& e == BTCMinerError::Unauthorized
                    &&& caller != old(self).authority
                    &&& *final(self) == *old(self)
                },
            },
    {
        if !crate::bytes::bytes32_eq(&caller, &self.authority) {
            return Err(BTCMinerError::Unauthorized);
        }
        self.paused = true;
        Ok(())
    }

    /// Admin: lift the pause.  Only the configured authority may unpause;
    /// nothing but the flag changes, so prior behavior is restored
    /// exactly.
    pub fn unpause(&mut self, caller: [u8; 32]) -> (r: Result<(), BTCMinerError>)
        ensures
            match r {
                Ok(()) => caller == old(self).authority && *final(self) == with_paused(
                    *old(self),
                    false,
                ),
                Err(e) => {
                    &&& e == BTCMinerError::Unauthorized
                    &&& caller != old(self).authority
                    &&& *final(self) == *old(self)
                },
            },
    {
        if !crate::bytes::bytes32_eq(&caller, &self.authority) {
            return Err(BTCMinerError::Unauthorized);
        }
        self.paused = false;
        Ok(())
    }

    /// Admin: honor inbound messages from `(chain_id, emitter_address)`.
    /// Only the configured authority may extend the trust list; adding a
    /// pair already listed is a no-op, and nothing else changes.
    pub fn add_trusted_emitter(
        &mut self,
        caller: [u8; 32],
        chain_id: u16,
        emitter_address: [u8; 32],
    ) -> (r: Result<TrustAddedEvent, BTCMinerError>)
        ensures
            match r {
                Ok(ev) => {
                    &&& caller == old(self).authority
                    &&& ev == (TrustAddedEvent { chain_id, emitter: emitter_address })
                    &&& final(self).trusted_emitters@ == if old(self).trusts(
                        chain_id,
                        emitter_address,
                    ) {
                        old(self).trusted_emitters@
                    } else {
                        old(self).trusted_emitters@.push((chain_id, emitter_address))
                    }
                    &&& final(self).trusts(chain_id, emitter_address)
                    &&& final(self).authority == old(self).authority
                    &&& final(self).wormhole_bridge == old(self).wormhole_bridge
                    &&& final(self).total_burned == old(self).total_burned
                    &&& final(self).total_minted == old(self).total_minted
                    &&& final(self).rate_limiter == old(self).rate_limiter
                    &&& final(self).price == old(self).price
                    &&& final(self).paused == old(self).paused
                    &&& final(self).processed_vaas@ == old(self).processed_vaas@
                },
                Err(e) => {
                    &&& e == BTCMinerError::Unauthorized
                    &&& caller != old(self).authority
                    &&& *final(self) == *old(self)
                },
            },
    {
        if !crate::bytes::bytes32_eq(&caller, &self.authority) {
            return Err(BTCMinerError::Unauthorized);
        }
        self.trusted_emitters.add(chain_id, emitter_address);
        Ok(TrustAddedEvent { chain_id, emitter: emitter_address })
    }

    /// Price refresh: overwrite the snapshot with the reading the oracle
    /// collaborator supplied, stamped at `now`.  Open to any caller — the
    /// oracle feed authenticates itself upstream.  A missing reading is
    /// rejected and the prior snapshot is retained.
    pub fn update_price(&mut self, reading: Option<PriceReading>, now: u64) -> (r: Result<
        PriceUpdateEvent,
        BTCMinerError,
    >)
        ensures
            match r {
                Ok(ev) => {
                    &&& reading matches Some(rd) && *final(self) == after_price_update(
                        *old(self),
                        rd,
                        now,
                    ) && ev == (PriceUpdateEvent {
                        price: rd.price,
                        confidence: rd.confidence,
                        timestamp: now,
                    })
                },
                Err(e) => {
                    &&& e == BTCMinerError::OracleInvalid
                    &&& reading is None
                    &&& *final(self) == *old(self)
                },
            },
    {
        match reading {
            Some(rd) => {
                self.price.update(rd, now);
                Ok(PriceUpdateEvent { price: rd.price, confidence: rd.confidence, timestamp: now })
            },
            None => Err(BTCMinerError::OracleInvalid),
        }
    }

    /// The cached oracle price at `now`: served exactly while the snapshot
    /// is younger than the staleness threshold, refused as stale
    /// otherwise.
    pub fn get_current_price(&self, now: u64) -> (r: Result<u64, BTCMinerError>)
        ensures
            match r {
                Ok(p) => self.price.fresh(now) && p == self.price.current_price,
                Err(e) => e == BTCMinerError::OracleStale && !self.price.fresh(now),
            },
    {
        self.price.read(now)
    }

    /// Assemble the wire record of `message` for the transport
    /// collaborator to post cross-chain.  The ledger itself does not
    /// deliver anything; it only hands the encoded payload out.
    pub fn send_wormhole_message(&self, message: &CrossChainMessage) -> (r: Vec<u8>)
        ensures
            r@ == msg_bytes(*message),
            valid_encoding(r@),
    {
        message.encode()
    }
}

/// The ledger after an outbound burn attempt of `amount` at `now`,
/// accepted or rejected: exactly the transition
/// [`Config::cross_chain_burn`] commits, as its contract states — a
/// rejection, whether by the pause gate or by the rate limiter, changes
/// nothing.
pub open spec fn burn_attempt(c: Config, amount: u64, now: u64) -> Config {
    if !c.paused && c.rate_limiter.accepts(amount, now) {
        after_burn(c, amount, now)
    } else {
        c
    }
}

/// The ledger after a whole sequence of outbound burn attempts, each a
/// pair of `(amount, timestamp)`, applied in order.
pub open spec fn run_burns(c: Config, reqs: Seq<(u64, u64)>) -> Config
    decreases reqs.len(),
{
    if reqs.len() == 0 {
        c
    } else {
        run_burns(burn_attempt(c, reqs[0].0, reqs[0].1), reqs.drop_first())
    }
}

/// The sum of the amounts that a sequence of outbound burn attempts gets
/// accepted, applied in order from `c`.
pub open spec fn burns_accepted_sum(c: Config, reqs: Seq<(u64, u64)>) -> int
    decreases reqs.len(),
{
    if reqs.len() == 0 {
        0
    } else {
        let head: int = if !c.paused && c.rate_limiter.accepts(reqs[0].0, reqs[0].1) {
            reqs[0].0 as int
        } else {
            0
        };
        head + burns_accepted_sum(burn_attempt(c, reqs[0].0, reqs[0].1), reqs.drop_first())
    }
}

/// Law: over any sequence of outbound burn attempts that all fall within
/// one 24-hour window, the amounts the ledger accepts sum — on top of
/// whatever usage the window started with — to no more than
/// `daily_burn_limit`; while paused the ledger accepts nothing and rides
/// through the whole sequence unchanged.
pub proof fn lemma_burn_sequence_bounded(c: Config, reqs: Seq<(u64, u64)>)
    requires
        c.wf(),
        crate::rate_limiter::in_window(c.rate_limiter, reqs),
    ensures
        c.paused ==> run_burns(c, reqs) == c && burns_accepted_sum(c, reqs) == 0,
        !c.paused ==> run_burns(c, reqs).rate_limiter == crate::rate_limiter::run(
            c.rate_limiter,
            reqs,
        ),
        burns_accepted_sum(c, reqs) == if c.paused {
            0
        } else {
            crate::rate_limiter::accepted_sum(c.rate_limiter, reqs)
        },
        c.rate_limiter.daily_burn_amount + burns_accepted_sum(c, reqs)
            <= c.rate_limiter.daily_burn_limit,
    decreases reqs.len(),
{
    crate::rate_limiter::lemma_daily_limit_bounds_accepted_sum(c.rate_limiter, reqs);
    if reqs.len() > 0 {
        let c1 = burn_attempt(c, reqs[0].0, reqs[0].1);
        assert(forall|i: int|
            0 <= i < reqs.drop_first().len() ==> reqs.drop_first()[i] == reqs[i + 1]);
        if c.paused {
            assert(c1 == c);
            lemma_burn_sequence_bounded(c, reqs.drop_first());
        } else {
            assert(!c.rate_limiter.window_expired(reqs[0].1));
            assert(c1.paused == c.paused);
            assert(c1.rate_limiter == c.rate_limiter.stepped(reqs[0].0, reqs[0].1));
            assert(c1.rate_limiter.last_burn_reset == c.rate_limiter.last_burn_reset);
            assert(c1.wf());
            assert(crate::rate_limiter::in_window(c1.rate_limiter, reqs.drop_first()));
            lemma_burn_sequence_bounded(c1, reqs.drop_first());
        }
    }
}

/// Law: replay protection is permanent.  Recording a fingerprint makes it
/// a member of the store, membership survives any later deliveries, and no
/// recording removes an earlier member — so a repeated delivery of the
/// same attested message always hits the dedup gate, where
/// [`Config::cross_chain_mint`] errs with `AlreadyProcessed` and mutates
/// nothing, by its contract: the first delivery mints exactly once.
pub proof fn lemma_replay_idempotent(
    recorded: Seq<[u8; 32]>,
    vaa_hash: [u8; 32],
    later: Seq<[u8; 32]>,
)
    ensures
        recorded.push(vaa_hash).contains(vaa_hash),
        forall|h: [u8; 32]| recorded.contains(h) ==> #[trigger] recorded.push(vaa_hash).contains(h),
        (recorded.push(vaa_hash) + later).contains(vaa_hash),
{
    let pushed = recorded.push(vaa_hash);
    assert(pushed[recorded.len() as int] == vaa_hash);
    assert forall|h: [u8; 32]| recorded.contains(h) implies #[trigger] pushed.contains(h) by {
        let j = choose|j: int| 0 <= j < recorded.len() && recorded[j] == h;
        assert(pushed[j] == h);
    }
    assert((pushed + later)[recorded.len() as int] == vaa_hash);
}

/// Law: unpausing restores the exact state from before the pause.  A
/// pause flips only the flag, an unpause flips it back, and every other
/// field of the ledger rides through untouched.
pub proof fn lemma_unpause_restores(c: Config)
    requires
        !c.paused,
    ensures
        with_paused(with_paused(c, true), false) == c,
{
    assert(with_paused(with_paused(c, true), false) =~= c);
}

} // verus!
