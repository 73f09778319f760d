use btcminer::BTCMinerError;
use btcminer::CrossChainMessage;
use btcminer::MessageAction;

fn sample() -> CrossChainMessage {
    let mut recipient = [0u8; 32];
    let mut i: usize = 0;
    while i < 32 {
        recipient[i] = i as u8;
        i += 1;
    }
    CrossChainMessage {
        action: MessageAction::Mint,
        amount: 0x0102030405060708,
        recipient,
        source_chain: 2,
        target_chain: 1,
        nonce: 0xAABBCCDD,
    }
}

#[test]
fn encode_exact_wire_bytes() {
    let m = sample();
    let bytes = m.encode();
    assert_eq!(bytes.len(), 49);
    assert_eq!(bytes[0], 2); // mint tag
    // amount, little-endian
    assert_eq!(&bytes[1..9], &[0x08, 0x07, 0x06, 0x05, 0x04, 0x03, 0x02, 0x01]);
    // recipient, verbatim
    assert_eq!(&bytes[9..41], &m.recipient[..]);
    // chain ids, little-endian
    assert_eq!(&bytes[41..43], &[0x02, 0x00]);
    assert_eq!(&bytes[43..45], &[0x01, 0x00]);
    // nonce, little-endian
    assert_eq!(&bytes[45..49], &[0xDD, 0xCC, 0xBB, 0xAA]);
}

#[test]
fn decode_inverts_encode() {
    let m = sample();
    let decoded = CrossChainMessage::decode(&m.encode()).unwrap();
    assert_eq!(decoded, m);

    let mut burn = sample();
    burn.action = MessageAction::Burn;
    let bytes = burn.encode();
    assert_eq!(bytes[0], 1); // burn tag
    assert_eq!(CrossChainMessage::decode(&bytes).unwrap(), burn);
}

#[test]
fn decode_rejects_wrong_length() {
    let m = sample();
    let mut bytes = m.encode();
    bytes.push(0);
    assert_eq!(
        CrossChainMessage::decode(&bytes).unwrap_err(),
        BTCMinerError::MalformedMessage
    );
    assert_eq!(
        CrossChainMessage::decode(&Vec::new()).unwrap_err(),
        BTCMinerError::MalformedMessage
    );
    assert_eq!(
        CrossChainMessage::decode(&vec![2u8; 48]).unwrap_err(),
        BTCMinerError::MalformedMessage
    );
}

#[test]
fn decode_rejects_unknown_tag() {
    let mut bytes = sample().encode();
    bytes[0] = 3;
    assert_eq!(
        CrossChainMessage::decode(&bytes).unwrap_err(),
        BTCMinerError::MalformedMessage
    );
    bytes[0] = 0;
    assert_eq!(
        CrossChainMessage::decode(&bytes).unwrap_err(),
        BTCMinerError::MalformedMessage
    );
}

#[test]
fn encoding_distinguishes_messages() {
    let m = sample();
    let mut other = sample();
    other.nonce = m.nonce + 1;
    assert_ne!(m.encode(), other.encode());
    let mut other_amount = sample();
    other_amount.amount = m.amount + 1;
    assert_ne!(m.encode(), other_amount.encode());
}
