//! The cross-chain message and its wire format.
//!
//! A message travels between chains as a fixed 49-byte record: a one-byte
//! action tag (1 for burn, 2 for mint), the amount as a little-endian
//! 64-bit integer, the 32-byte recipient identity, the source and target
//! chain ids as little-endian 16-bit integers, and the sender-chosen nonce
//! as a little-endian 32-bit integer.  Any payload of another length, or
//! with an unknown action tag, is malformed.

use vstd::prelude::*;

use crate::errors::BTCMinerError;

verus! {

broadcast use vstd::array::group_array_axioms;

/// Length of an encoded message, in bytes.
pub const ENCODED_LEN: usize = 49;

/// What a cross-chain message asks the receiving chain to do.
#[derive(Clone, Copy, Debug, PartialEq, Eq, Structural)]
pub enum MessageAction {
    /// Supply was removed on the source chain.
    Burn,
    /// Supply is to be created for the recipient.
    Mint,
}

/// A cross-chain transfer message, transient: only its fingerprint is
/// persisted, by the inbound processing that consumes it.
#[derive(Clone, Copy, Debug, PartialEq, Eq)]
pub struct CrossChainMessage {
    /// The requested operation.
    pub action: MessageAction,
    /// Transfer amount in base units.
    pub amount: u64,
    /// Chain-agnostic 32-byte identity of the recipient.
    pub recipient: [u8; 32],
    /// Chain id the message originates from.
    pub source_chain: u16,
    /// Chain id the message is addressed to.
    pub target_chain: u16,
    /// Sender-chosen uniqueness salt.
    pub nonce: u32,
}

/// The wire tag of an action.
pub open spec fn action_tag(a: MessageAction) -> u8 {
    match a {
        MessageAction::Burn => 1,
        MessageAction::Mint => 2,
    }
}

/// Little-endian bytes of a 16-bit integer.
pub open spec fn u16_le(x: u16) -> Seq<u8> {
    seq![(x & 0xff) as u8, ((x >> 8) & 0xff) as u8]
}

/// Little-endian bytes of a 32-bit integer.
pub open spec fn u32_le(x: u32) -> Seq<u8> {
    seq![
        (x & 0xff) as u8,
        ((x >> 8) & 0xff) as u8,
        ((x >> 16) & 0xff) as u8,
        ((x >> 24) & 0xff) as u8,
    ]
}

/// Little-endian bytes of a 64-bit integer.
pub open spec fn u64_le(x: u64) -> Seq<u8> {
    seq![
        (x & 0xff) as u8,
        ((x >> 8) & 0xff) as u8,
        ((x >> 16) & 0xff) as u8,
        ((x >> 24) & 0xff) as u8,
        ((x >> 32) & 0xff) as u8,
        ((x >> 40) & 0xff) as u8,
        ((x >> 48) & 0xff) as u8,
        ((x >> 56) & 0xff) as u8,
    ]
}

/// The encoded form of a message: the 49-byte wire record.
pub open spec fn msg_bytes(m: CrossChainMessage) -> Seq<u8> {
    seq![action_tag(m.action)] + u64_le(m.amount) + m.recipient@ + u16_le(m.source_chain)
        + u16_le(m.target_chain) + u32_le(m.nonce)
}

/// `s` is the encoding of some message: right length, known action tag.
pub open spec fn valid_encoding(s: Seq<u8>) -> bool {
    s.len() == ENCODED_LEN && (s[0] == 1 || s[0] == 2)
}

/// Append the little-endian bytes of a 16-bit integer.
fn push_u16_le(out: &mut Vec<u8>, x: u16)
    ensures
        final(out)@ == old(out)@ + u16_le(x),
{
    out.push((x & 0xff) as u8);
    out.push(((x >> 8) & 0xff) as u8);
    proof {
        assert(out@ =~= old(out)@ + u16_le(x));
    }
}

/// Append the little-endian bytes of a 32-bit integer.
fn push_u32_le(out: &mut Vec<u8>, x: u32)
    ensures
        final(out)@ == old(out)@ + u32_le(x),
{
    out.push((x & 0xff) as u8);
    out.push(((x >> 8) & 0xff) as u8);
    out.push(((x >> 16) & 0xff) as u8);
    out.push(((x >> 24) & 0xff) as u8);
    proof {
        assert(out@ =~= old(out)@ + u32_le(x));
    }
}

/// Append the little-endian bytes of a 64-bit integer.
fn push_u64_le(out: &mut Vec<u8>, x: u64)
    ensures
        final(out)@ == old(out)@ + u64_le(x),
{
    out.push((x & 0xff) as u8);
    out.push(((x >> 8) & 0xff) as u8);
    out.push(((x >> 16) & 0xff) as u8);
    out.push(((x >> 24) & 0xff) as u8);
    out.push(((x >> 32) & 0xff) as u8);
    out.push(((x >> 40) & 0xff) as u8);
    out.push(((x >> 48) & 0xff) as u8);
    out.push(((x >> 56) & 0xff) as u8);
    proof {
        assert(out@ =~= old(out)@ + u64_le(x));
    }
}

/// Append all 32 bytes of an identity.
fn push_bytes32(out: &mut Vec<u8>, b: &[u8; 32])
    ensures
        final(out)@ == old(out)@ + b@,
{
    let mut i: usize = 0;
    while i < 32
        invariant
            0 <= i <= 32,
            out@ == old(out)@ + b@.subrange(0, i as int),
        decreases 32 - i,
    {
        out.push(b[i]);
        proof {
            assert(b@.subrange(0, i + 1 as int) =~= b@.subrange(0, i as int).push(b@[i as int]));
        }
        i += 1;
    }
    proof {
        assert(b@.subrange(0, 32) =~= b@);
    }
}

impl CrossChainMessage {
    /// Serialize the message into its 49-byte wire record.
    pub fn encode(&self) -> (r: Vec<u8>)
        ensures
            r@ == msg_bytes(*self),
            valid_encoding(r@),
    {
        let mut out: Vec<u8> = Vec::new();
        let tag: u8 = match self.action {
            MessageAction::Burn => 1,
            MessageAction::Mint => 2,
        };
        out.push(tag);
        proof {
            assert(out@ =~= seq![action_tag(self.action)]);
        }
        push_u64_le(&mut out, self.amount);
        push_bytes32(&mut out, &self.recipient);
        push_u16_le(&mut out, self.source_chain);
        push_u16_le(&mut out, self.target_chain);
        push_u32_le(&mut out, self.nonce);
        out
    }

    /// Parse a wire record back into a message.
    ///
    /// Succeeds exactly on the 49-byte records with a known action tag,
    /// and then returns the one message whose encoding is the input.
    pub fn decode(bytes: &Vec<u8>) -> (r: Result<CrossChainMessage, BTCMinerError>)
        ensures
            match r {
                Ok(m) => valid_encoding(bytes@) && bytes@ == msg_bytes(m),
                Err(e) => e == BTCMinerError::MalformedMessage && !valid_encoding(bytes@),
            },
    {
        if bytes.len() != ENCODED_LEN {
            return Err(BTCMinerError::MalformedMessage);
        }
        let action: MessageAction = match bytes[0] {
            1u8 => MessageAction::Burn,
            2u8 => MessageAction::Mint,
            _ => {
                return Err(BTCMinerError::MalformedMessage);
            },
        };
        let amount: u64 = (bytes[1] as u64) | ((bytes[2] as u64) << 8) | ((bytes[3] as u64) << 16)
            | ((bytes[4] as u64) << 24) | ((bytes[5] as u64) << 32) | ((bytes[6] as u64) << 40)
            | ((bytes[7] as u64) << 48) | ((bytes[8] as u64) << 56);
        let mut recipient: [u8; 32] = [0u8; 32];
        let mut i: usize = 0;
        while i < 32
            invariant
                0 <= i <= 32,
                bytes@.len() == 49,
                forall|j: int| 0 <= j < i ==> recipient@[j] == bytes@[9 + j],
            decreases 32 - i,
        {
            recipient[i] = bytes[9 + i];
            i += 1;
        }
        let source_chain: u16 = (bytes[41] as u16) | ((bytes[42] as u16) << 8);
        let target_chain: u16 = (bytes[43] as u16) | ((bytes[44] as u16) << 8);
        let nonce: u32 = (bytes[45] as u32) | ((bytes[46] as u32) << 8) | ((bytes[47] as u32) << 16)
            | ((bytes[48] as u32) << 24);
        let m = CrossChainMessage { action, amount, recipient, source_chain, target_chain, nonce };
        proof {
            lemma_u64_le_of_bytes(
                amount,
                bytes@[1],
                bytes@[2],
                bytes@[3],
                bytes@[4],
                bytes@[5],
                bytes@[6],
                bytes@[7],
                bytes@[8],
            );
            assert(u64_le(amount) =~= bytes@.subrange(1, 9));
            assert(recipient@ =~= bytes@.subrange(9, 41));
            lemma_u16_le_of_bytes(source_chain, bytes@[41], bytes@[42]);
            assert(u16_le(source_chain) =~= bytes@.subrange(41, 43));
            lemma_u16_le_of_bytes(target_chain, bytes@[43], bytes@[44]);
            assert(u16_le(target_chain) =~= bytes@.subrange(43, 45));
            lemma_u32_le_of_bytes(nonce, bytes@[45], bytes@[46], bytes@[47], bytes@[48]);
            assert(u32_le(nonce) =~= bytes@.subrange(45, 49));
            assert(seq![action_tag(m.action)] =~= bytes@.subrange(0, 1));
            assert(bytes@ =~= bytes@.subrange(0, 1) + bytes@.subrange(1, 9) + bytes@.subrange(
                9,
                41,
            ) + bytes@.subrange(41, 43) + bytes@.subrange(43, 45) + bytes@.subrange(45, 49));
        }
        Ok(m)
    }
}

/// A 64-bit integer assembled from eight bytes decomposes back into them.
proof fn lemma_u64_le_of_bytes(x: u64, b0: u8, b1: u8, b2: u8, b3: u8, b4: u8, b5: u8, b6: u8, b7: u8)
    requires
        x == (b0 as u64) | ((b1 as u64) << 8) | ((b2 as u64) << 16) | ((b3 as u64) << 24) | (
        (b4 as u64) << 32) | ((b5 as u64) << 40) | ((b6 as u64) << 48) | ((b7 as u64) << 56),
    ensures
        (x & 0xff) as u8 == b0,
        ((x >> 8) & 0xff) as u8 == b1,
        ((x >> 16) & 0xff) as u8 == b2,
        ((x >> 24) & 0xff) as u8 == b3,
        ((x >> 32) & 0xff) as u8 == b4,
        ((x >> 40) & 0xff) as u8 == b5,
        ((x >> 48) & 0xff) as u8 == b6,
        ((x >> 56) & 0xff) as u8 == b7,
{
    assert((x & 0xff) as u8 == b0 && ((x >> 8) & 0xff) as u8 == b1 && ((x >> 16) & 0xff) as u8
        == b2 && ((x >> 24) & 0xff) as u8 == b3 && ((x >> 32) & 0xff) as u8 == b4 && ((x >> 40)
        & 0xff) as u8 == b5 && ((x >> 48) & 0xff) as u8 == b6 && ((x >> 56) & 0xff) as u8 == b7)
        by (bit_vector)
        requires
            x == (b0 as u64) | ((b1 as u64) << 8) | ((b2 as u64) << 16) | ((b3 as u64) << 24) | (
            (b4 as u64) << 32) | ((b5 as u64) << 40) | ((b6 as u64) << 48) | ((b7 as u64) << 56),
    ;
}

/// A 32-bit integer assembled from four bytes decomposes back into them.
proof fn lemma_u32_le_of_bytes(x: u32, b0: u8, b1: u8, b2: u8, b3: u8)
    requires
        x == (b0 as u32) | ((b1 as u32) << 8) | ((b2 as u32) << 16) | ((b3 as u32) << 24),
    ensures
        (x & 0xff) as u8 == b0,
        ((x >> 8) & 0xff) as u8 == b1,
        ((x >> 16) & 0xff) as u8 == b2,
        ((x >> 24) & 0xff) as u8 == b3,
{
    assert((x & 0xff) as u8 == b0 && ((x >> 8) & 0xff) as u8 == b1 && ((x >> 16) & 0xff) as u8
        == b2 && ((x >> 24) & 0xff) as u8 == b3)
        by (bit_vector)
        requires
            x == (b0 as u32) | ((b1 as u32) << 8) | ((b2 as u32) << 16) | ((b3 as u32) << 24),
    ;
}

/// A 16-bit integer assembled from two bytes decomposes back into them.
proof fn lemma_u16_le_of_bytes(x: u16, b0: u8, b1: u8)
    requires
        x == (b0 as u16) | ((b1 as u16) << 8),
    ensures
        (x & 0xff) as u8 == b0,
        ((x >> 8) & 0xff) as u8 == b1,
{
    assert((x & 0xff) as u8 == b0 && ((x >> 8) & 0xff) as u8 == b1) by (bit_vector)
        requires
            x == (b0 as u16) | ((b1 as u16) << 8),
    ;
}

/// Law: the wire format pins the message.  Two messages with the same
/// encoding are the same message, so a fingerprint computed over the
/// encoded record stands for at most one logical message.
pub proof fn lemma_msg_bytes_injective(m1: CrossChainMessage, m2: CrossChainMessage)
    requires
        msg_bytes(m1) == msg_bytes(m2),
    ensures
        m1 == m2,
{
    let s1 = msg_bytes(m1);
    let s2 = msg_bytes(m2);
    assert(s1[0] == action_tag(m1.action) && s2[0] == action_tag(m2.action));
    assert(m1.action == m2.action);
    let a1 = m1.amount;
    let a2 = m2.amount;
    assert forall|k: int| 0 <= k < 8 implies u64_le(a1)[k] == u64_le(a2)[k] by {
        assert(s1[1 + k] == u64_le(a1)[k] && s2[1 + k] == u64_le(a2)[k]);
    }
    assert(a1 == a2) by (bit_vector)
        requires
            ((a1 & 0xff) as u8) == ((a2 & 0xff) as u8),
            (((a1 >> 8) & 0xff) as u8) == (((a2 >> 8) & 0xff) as u8),
            (((a1 >> 16) & 0xff) as u8) == (((a2 >> 16) & 0xff) as u8),
            (((a1 >> 24) & 0xff) as u8) == (((a2 >> 24) & 0xff) as u8),
            (((a1 >> 32) & 0xff) as u8) == (((a2 >> 32) & 0xff) as u8),
            (((a1 >> 40) & 0xff) as u8) == (((a2 >> 40) & 0xff) as u8),
            (((a1 >> 48) & 0xff) as u8) == (((a2 >> 48) & 0xff) as u8),
            (((a1 >> 56) & 0xff) as u8) == (((a2 >> 56) & 0xff) as u8),
    ;
    assert forall|k: int| 0 <= k < 32 implies m1.recipient@[k] == m2.recipient@[k] by {
        assert(s1[9 + k] == m1.recipient@[k] && s2[9 + k] == m2.recipient@[k]);
    }
    assert(m1.recipient =~= m2.recipient);
    let sc1 = m1.source_chain;
    let sc2 = m2.source_chain;
    assert(s1[41] == u16_le(sc1)[0] && s1[42] == u16_le(sc1)[1]);
    assert(s2[41] == u16_le(sc2)[0] && s2[42] == u16_le(sc2)[1]);
    assert(sc1 == sc2) by (bit_vector)
        requires
            ((sc1 & 0xff) as u8) == ((sc2 & 0xff) as u8),
            (((sc1 >> 8) & 0xff) as u8) == (((sc2 >> 8) & 0xff) as u8),
    ;
    let tc1 = m1.target_chain;
    let tc2 = m2.target_chain;
    assert(s1[43] == u16_le(tc1)[0] && s1[44] == u16_le(tc1)[1]);
    assert(s2[43] == u16_le(tc2)[0] && s2[44] == u16_le(tc2)[1]);
    assert(tc1 == tc2) by (bit_vector)
        requires
            ((tc1 & 0xff) as u8) == ((tc2 & 0xff) as u8),
            (((tc1 >> 8) & 0xff) as u8) == (((tc2 >> 8) & 0xff) as u8),
    ;
    let n1 = m1.nonce;
    let n2 = m2.nonce;
    assert forall|k: int| 0 <= k < 4 implies u32_le(n1)[k] == u32_le(n2)[k] by {
        assert(s1[45 + k] == u32_le(n1)[k] && s2[45 + k] == u32_le(n2)[k]);
    }
    assert(n1 == n2) by (bit_vector)
        requires
            ((n1 & 0xff) as u8) == ((n2 & 0xff) as u8),
            (((n1 >> 8) & 0xff) as u8) == (((n2 >> 8) & 0xff) as u8),
            (((n1 >> 16) & 0xff) as u8) == (((n2 >> 16) & 0xff) as u8),
            (((n1 >> 24) & 0xff) as u8) == (((n2 >> 24) & 0xff) as u8),
    ;
}

/// Law: decoding inverts encoding.  Every message's wire record is a valid
/// encoding, and the message any decoder honoring [`CrossChainMessage::decode`]'s
/// contract returns for it is the original message.
pub proof fn lemma_encode_decode(m: CrossChainMessage, m2: CrossChainMessage)
    requires
        msg_bytes(m2) == msg_bytes(m),
    ensures
        valid_encoding(msg_bytes(m)),
        m2 == m,
{
    assert(msg_bytes(m)[0] == action_tag(m.action));
    lemma_msg_bytes_injective(m, m2);
}

} // verus!
