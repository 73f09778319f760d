use btcminer::BTCMinerError;
use btcminer::Config;
use btcminer::CrossChainMessage;
use btcminer::CrossChainMintEvent;
use btcminer::MessageAction;
use btcminer::PriceReading;

const AUTH: [u8; 32] = [1u8; 32];
const BRIDGE: [u8; 32] = [0u8; 32];
const USER: [u8; 32] = [2u8; 32];

fn mint_message(amount: u64, source_chain: u16) -> CrossChainMessage {
    CrossChainMessage {
        action: MessageAction::Mint,
        amount,
        recipient: [3u8; 32],
        source_chain,
        target_chain: 1,
        nonce: 11,
    }
}

#[test]
fn daily_limit_scenario() {
    let mut c = Config::initialize_with_limit(AUTH, BRIDGE, 1000);
    let t0: u64 = 1_000_000;

    let r1 = c.cross_chain_burn(USER, 600, 2, [3u8; 32], 1, t0);
    assert!(r1.is_ok());
    assert_eq!(c.get_remaining_daily_burn(USER, t0), 400);
    assert_eq!(c.total_burned, 600);

    let r2 = c.cross_chain_burn(USER, 500, 2, [3u8; 32], 2, t0 + 10);
    assert_eq!(r2.unwrap_err(), BTCMinerError::DailyLimitExceeded);
    assert_eq!(c.get_remaining_daily_burn(USER, t0 + 10), 400);
    assert_eq!(c.total_burned, 600);

    let t1 = t0 + 86400;
    let r3 = c.cross_chain_burn(USER, 500, 2, [3u8; 32], 3, t1);
    assert!(r3.is_ok());
    assert_eq!(c.get_remaining_daily_burn(USER, t1), 500);
    assert_eq!(c.total_burned, 1100);
}

#[test]
fn window_rollover_boundary() {
    let mut c = Config::initialize_with_limit(AUTH, BRIDGE, 1000);
    let t0: u64 = 100_000;

    assert!(c.cross_chain_burn(USER, 100, 2, [3u8; 32], 1, t0).is_ok());
    assert_eq!(c.rate_limiter.last_burn_reset, t0);

    // One second before a full day: the window does not reset.
    assert!(c.cross_chain_burn(USER, 100, 2, [3u8; 32], 2, t0 + 86399).is_ok());
    assert_eq!(c.rate_limiter.last_burn_reset, t0);
    assert_eq!(c.rate_limiter.daily_burn_amount, 200);

    // Exactly a full day after the anchor: usage resets before the burn.
    assert!(c.cross_chain_burn(USER, 100, 2, [3u8; 32], 3, t0 + 86400).is_ok());
    assert_eq!(c.rate_limiter.last_burn_reset, t0 + 86400);
    assert_eq!(c.rate_limiter.daily_burn_amount, 100);
}

#[test]
fn burn_message_carries_all_fields() {
    let mut c = Config::initialize(AUTH, BRIDGE);
    let recipient = [9u8; 32];
    let (m, ev) = c.cross_chain_burn(USER, 77, 5, recipient, 42, 50_000_000).unwrap();
    assert_eq!(m.action, MessageAction::Burn);
    assert_eq!(m.amount, 77);
    assert_eq!(m.recipient, recipient);
    assert_eq!(m.source_chain, btcminer::LOCAL_CHAIN_ID);
    assert_eq!(m.target_chain, 5);
    assert_eq!(m.nonce, 42);
    assert_eq!(ev.user, USER);
    assert_eq!(ev.amount, 77);
    assert_eq!(c.send_wormhole_message(&m), m.encode());
}

#[test]
fn pause_gates_burns_and_unpause_restores() {
    let mut c = Config::initialize_with_limit(AUTH, BRIDGE, 1000);
    let t0: u64 = 1_000_000;
    assert!(c.cross_chain_burn(USER, 100, 2, [3u8; 32], 1, t0).is_ok());

    assert!(c.pause(AUTH).is_ok());
    assert!(c.paused);
    let r = c.cross_chain_burn(USER, 100, 2, [3u8; 32], 2, t0 + 1);
    assert_eq!(r.unwrap_err(), BTCMinerError::Paused);
    assert_eq!(c.total_burned, 100);
    assert_eq!(c.rate_limiter.daily_burn_amount, 100);

    // Inbound processing is unaffected by the pause.
    assert!(c.cross_chain_mint(USER, 50, 2, [8u8; 32]).is_ok());
    assert_eq!(c.total_minted, 50);

    assert!(c.unpause(AUTH).is_ok());
    assert!(!c.paused);
    assert!(c.cross_chain_burn(USER, 100, 2, [3u8; 32], 3, t0 + 2).is_ok());
    assert_eq!(c.total_burned, 200);
}

#[test]
fn authorize_burn_agrees_with_commit() {
    let mut c = Config::initialize_with_limit(AUTH, BRIDGE, 1000);
    let t0: u64 = 1_000_000;
    assert_eq!(c.authorize_burn(600, t0), Ok(()));
    // The decision mutates nothing: the window is still unanchored.
    assert_eq!(c.rate_limiter.daily_burn_amount, 0);
    assert!(c.cross_chain_burn(USER, 600, 2, [3u8; 32], 1, t0).is_ok());
    assert_eq!(
        c.authorize_burn(500, t0 + 1),
        Err(BTCMinerError::DailyLimitExceeded)
    );
    assert!(c.pause(AUTH).is_ok());
    assert_eq!(c.authorize_burn(1, t0 + 2), Err(BTCMinerError::Paused));
}

#[test]
fn admin_operations_reject_non_authority() {
    let mut c = Config::initialize(AUTH, BRIDGE);
    let stranger = [4u8; 32];
    assert_eq!(c.pause(stranger).unwrap_err(), BTCMinerError::Unauthorized);
    assert!(!c.paused);
    assert_eq!(c.unpause(stranger).unwrap_err(), BTCMinerError::Unauthorized);
    assert_eq!(
        c.add_trusted_emitter(stranger, 2, [9u8; 32]).unwrap_err(),
        BTCMinerError::Unauthorized
    );
    assert!(!c.trusted_emitters.is_trusted(2, &[9u8; 32]));
}

#[test]
fn trusted_delivery_then_replay() {
    let mut c = Config::initialize(AUTH, BRIDGE);
    let emitter = [9u8; 32];
    let ev = c.add_trusted_emitter(AUTH, 2, emitter).unwrap();
    assert_eq!(ev.chain_id, 2);
    assert_eq!(ev.emitter, emitter);

    let m = mint_message(250, 2);
    let payload = m.encode();
    let fingerprint = [7u8; 32];

    let got = c.process_wormhole_vaa(2, &emitter, &payload, fingerprint).unwrap();
    assert_eq!(got, m);
    let ev = c.cross_chain_mint(got.recipient, got.amount, got.source_chain, fingerprint).unwrap();
    assert_eq!(
        ev,
        CrossChainMintEvent {
            user: m.recipient,
            amount: 250,
            source_chain: 2,
            vaa_hash: fingerprint,
        }
    );
    assert_eq!(c.total_minted, 250);
    assert!(c.processed_vaas.has(&fingerprint));

    // Delivering the same attested message again hits the dedup gate.
    let replay = c.process_wormhole_vaa(2, &emitter, &payload, fingerprint);
    assert_eq!(replay.unwrap_err(), BTCMinerError::AlreadyProcessed);
    let recommit = c.cross_chain_mint(m.recipient, m.amount, m.source_chain, fingerprint);
    assert_eq!(recommit.unwrap_err(), BTCMinerError::AlreadyProcessed);
    assert_eq!(c.total_minted, 250);
}

#[test]
fn untrusted_emitter_rejected_without_state_change() {
    let mut c = Config::initialize(AUTH, BRIDGE);
    assert!(c.add_trusted_emitter(AUTH, 2, [9u8; 32]).is_ok());

    let m = mint_message(250, 3);
    let payload = m.encode();
    let fingerprint = [7u8; 32];

    let r = c.process_wormhole_vaa(3, &[8u8; 32], &payload, fingerprint);
    assert_eq!(r.unwrap_err(), BTCMinerError::UntrustedEmitter);
    assert!(!c.processed_vaas.has(&fingerprint));
    assert_eq!(c.total_minted, 0);
}

#[test]
fn malformed_payloads_rejected() {
    let mut c = Config::initialize(AUTH, BRIDGE);
    let emitter = [9u8; 32];
    assert!(c.add_trusted_emitter(AUTH, 2, emitter).is_ok());

    // Too short.
    let short = vec![2u8; 10];
    let r = c.process_wormhole_vaa(2, &emitter, &short, [7u8; 32]);
    assert_eq!(r.unwrap_err(), BTCMinerError::MalformedMessage);

    // Unknown action tag.
    let mut unknown = mint_message(1, 2).encode();
    unknown[0] = 0;
    let r = c.process_wormhole_vaa(2, &emitter, &unknown, [7u8; 32]);
    assert_eq!(r.unwrap_err(), BTCMinerError::MalformedMessage);

    // A well-formed burn-action message is not inbound-processable.
    let mut burn = mint_message(1, 2);
    burn.action = MessageAction::Burn;
    let r = c.process_wormhole_vaa(2, &emitter, &burn.encode(), [7u8; 32]);
    assert_eq!(r.unwrap_err(), BTCMinerError::MalformedMessage);
    assert!(!c.processed_vaas.has(&[7u8; 32]));
}

#[test]
fn price_staleness_boundary() {
    let mut c = Config::initialize(AUTH, BRIDGE);
    let ev = c
        .update_price(Some(PriceReading { price: 42, confidence: 5 }), 1000)
        .unwrap();
    assert_eq!(ev.price, 42);
    assert_eq!(ev.confidence, 5);
    assert_eq!(ev.timestamp, 1000);

    assert_eq!(c.get_current_price(1000 + 299), Ok(42));
    assert_eq!(
        c.get_current_price(1000 + 300),
        Err(BTCMinerError::OracleStale)
    );
    assert_eq!(
        c.get_current_price(1000 + 301),
        Err(BTCMinerError::OracleStale)
    );
}

#[test]
fn invalid_oracle_reading_keeps_prior_snapshot() {
    let mut c = Config::initialize(AUTH, BRIDGE);
    assert!(c
        .update_price(Some(PriceReading { price: 42, confidence: 5 }), 1000)
        .is_ok());
    let r = c.update_price(None, 1100);
    assert_eq!(r.unwrap_err(), BTCMinerError::OracleInvalid);
    assert_eq!(c.price.current_price, 42);
    assert_eq!(c.price.price_timestamp, 1000);
    assert_eq!(c.get_current_price(1299), Ok(42));
}

#[test]
fn remaining_allowance_rolls_over_read_only() {
    let mut c = Config::initialize_with_limit(AUTH, BRIDGE, 1000);
    let t0: u64 = 1_000_000;
    assert!(c.cross_chain_burn(USER, 600, 2, [3u8; 32], 1, t0).is_ok());
    // After the window expires the full allowance is reported again,
    // without mutating the window itself.
    assert_eq!(c.get_remaining_daily_burn(USER, t0 + 86400), 1000);
    assert_eq!(c.rate_limiter.daily_burn_amount, 600);
    assert_eq!(c.rate_limiter.last_burn_reset, t0);
    assert_eq!(c.get_remaining_daily_burn(USER, t0 + 86399), 400);
}

#[test]
fn initialize_defaults() {
    let c = Config::initialize(AUTH, BRIDGE);
    assert_eq!(c.authority, AUTH);
    assert_eq!(c.wormhole_bridge, BRIDGE);
    assert_eq!(c.total_burned, 0);
    assert_eq!(c.total_minted, 0);
    assert_eq!(c.rate_limiter.daily_burn_limit, 1_000_000 * 1_000_000_000);
    assert_eq!(c.rate_limiter.daily_burn_amount, 0);
    assert!(!c.paused);
    assert_eq!(c.get_current_price(0), Ok(0));
}
