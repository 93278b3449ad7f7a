//! Transactions: the intent value object, its canonical RLP encoding, the
//! digest over that encoding, and digest signing.

use vstd::prelude::*;

use crate::crypto::{ecdsa_sign_prehash, k256_key_ok, k256_sig_of, keccak256_digest, keccak_of};
use crate::errors::WalletError;
use crate::hexutil::{spec_hex_parse, spec_hex_string};
use crate::utils::{is_valid_address, spec_valid_address};
use vstd::string::StrSliceExecFns;

verus! {

/// A transaction to be signed: plain numeric and byte fields, no derived
/// state.
pub struct TransactionIntent {
    pub to: Vec<u8>,
    pub value: u64,
    pub gas: u64,
    pub gas_price: u64,
    pub nonce: u64,
}

impl TransactionIntent {
    /// The recipient is a 20-byte address.
    pub open spec fn wf(self) -> bool {
        self.to@.len() == 20
    }
}

/// Builds a transaction intent. The recipient must be `0x` followed by 40
/// hex digits; the numeric fields are taken as given.
pub fn build_transaction(to: &str, value: u64, gas: u64, gas_price: u64, nonce: u64) -> (r: Result<
    TransactionIntent,
    WalletError,
>)
    ensures
        r is Ok <==> spec_valid_address(to@),
        r matches Ok(t) ==> {
            &&& t.wf()
            &&& t.to@ == spec_hex_parse(to@.subrange(2, 42))
            &&& t.value == value
            &&& t.gas == gas
            &&& t.gas_price == gas_price
            &&& t.nonce == nonce
        },
        r matches Err(e) ==> e == WalletError::InvalidAddress,
{
    if !is_valid_address(to) {
        return Err(WalletError::InvalidAddress);
    }
    let hexpart = to.substring_char(2, 42);
    proof {
        assert(hexpart@ == to@.subrange(2, 42));
        assert forall|i: int| 0 <= i < hexpart@.len() implies crate::hexutil::is_hex_char(
            #[trigger] hexpart@[i],
        ) by {
            assert(hexpart@[i] == to@[2 + i]);
        }
        assert(spec_hex_string(hexpart@));
    }
    match crate::hexutil::hex_decode_chars(hexpart) {
        Some(to_bytes) => {
            assert(to_bytes@.len() == 20);
            Ok(TransactionIntent { to: to_bytes, value, gas, gas_price, nonce })
        },
        None => vstd::pervasive::unreached(),
    }
}

/// The minimal big-endian rendering of `n`: no leading zero, empty for zero.
pub open spec fn spec_be_bytes(n: nat) -> Seq<u8>
    decreases n,
{
    if n == 0 {
        Seq::empty()
    } else {
        spec_be_bytes(n / 256).push((n % 256) as u8)
    }
}

/// The RLP item for an unsigned integer: its minimal big-endian bytes,
/// inline when a single byte below 0x80, else behind a length header.
pub open spec fn spec_rlp_uint(n: u64) -> Seq<u8> {
    if n == 0 {
        seq![0x80u8]
    } else if n < 0x80 {
        seq![n as u8]
    } else {
        seq![(0x80 + spec_be_bytes(n as nat).len()) as u8] + spec_be_bytes(n as nat)
    }
}

/// The RLP item for a short byte string (at most 55 bytes).
pub open spec fn spec_rlp_bytes(b: Seq<u8>) -> Seq<u8>
    recommends
        b.len() <= 55,
{
    if b.len() == 1 && b[0] < 0x80 {
        b
    } else {
        seq![(0x80 + b.len()) as u8] + b
    }
}

/// The concatenated RLP items of a transaction, in the canonical field
/// order: recipient, value, gas limit, gas price, nonce.
pub open spec fn spec_tx_payload(t: TransactionIntent) -> Seq<u8> {
    spec_rlp_bytes(t.to@) + spec_rlp_uint(t.value) + spec_rlp_uint(t.gas) + spec_rlp_uint(
        t.gas_price,
    ) + spec_rlp_uint(t.nonce)
}

/// The RLP list header over a payload shorter than 256 bytes, followed by
/// the payload.
pub open spec fn spec_rlp_list(payload: Seq<u8>) -> Seq<u8>
    recommends
        payload.len() < 256,
{
    if payload.len() <= 55 {
        seq![(0xc0 + payload.len()) as u8] + payload
    } else {
        seq![0xf8u8, payload.len() as u8] + payload
    }
}

/// The canonical encoding of a transaction: the RLP list of its items.
pub open spec fn spec_tx_encoding(t: TransactionIntent) -> Seq<u8> {
    spec_rlp_list(spec_tx_payload(t))
}

/// The minimal big-endian rendering of a 64-bit value takes at most 8 bytes.
proof fn lemma_be_bytes_len(n: nat)
    ensures
        n < 0x100 ==> spec_be_bytes(n).len() <= 1,
        n < 0x10000 ==> spec_be_bytes(n).len() <= 2,
        n < 0x1000000 ==> spec_be_bytes(n).len() <= 3,
        n < 0x100000000 ==> spec_be_bytes(n).len() <= 4,
        n < 0x10000000000 ==> spec_be_bytes(n).len() <= 5,
        n < 0x1000000000000 ==> spec_be_bytes(n).len() <= 6,
        n < 0x100000000000000 ==> spec_be_bytes(n).len() <= 7,
        n < 0x10000000000000000 ==> spec_be_bytes(n).len() <= 8,
    decreases n,
{
    if n > 0 {
        lemma_be_bytes_len(n / 256);
    }
}

/// Appends a byte slice.
pub(crate) fn push_bytes(out: &mut Vec<u8>, b: &[u8])
    ensures
        final(out)@ == old(out)@ + b@,
{
    for i in 0..b.len()
        invariant
            out@ == old(out)@ + b@.take(i as int),
    {
        out.push(b[i]);
        assert(out@ =~= old(out)@ + b@.take(i + 1));
    }
    assert(old(out)@ + b@.take(b@.len() as int) =~= old(out)@ + b@);
}

/// Appends the minimal big-endian bytes of `n`.
fn push_be_bytes(out: &mut Vec<u8>, n: u64)
    ensures
        final(out)@ == old(out)@ + spec_be_bytes(n as nat),
    decreases n,
{
    if n > 0 {
        push_be_bytes(out, n / 256);
        out.push((n % 256) as u8);
        assert(out@ =~= old(out)@ + spec_be_bytes(n as nat));
    } else {
        assert(out@ =~= old(out)@ + spec_be_bytes(0));
    }
}

/// Appends the RLP item of an unsigned integer.
fn push_rlp_uint(out: &mut Vec<u8>, n: u64)
    ensures
        final(out)@ == old(out)@ + spec_rlp_uint(n),
        final(out)@.len() <= old(out)@.len() + 9,
{
    if n == 0 {
        out.push(0x80);
        assert(out@ =~= old(out)@ + spec_rlp_uint(n));
    } else if n < 0x80 {
        out.push(n as u8);
        assert(out@ =~= old(out)@ + spec_rlp_uint(n));
    } else {
        let mut tmp: Vec<u8> = Vec::new();
        push_be_bytes(&mut tmp, n);
        proof {
            lemma_be_bytes_len(n as nat);
        }
        out.push(0x80 + tmp.len() as u8);
        push_bytes(out, tmp.as_slice());
        assert(out@ =~= old(out)@ + spec_rlp_uint(n));
    }
}

/// Appends the RLP item of a short byte string.
fn push_rlp_bytes(out: &mut Vec<u8>, b: &[u8])
    requires
        b@.len() <= 55,
    ensures
        final(out)@ == old(out)@ + spec_rlp_bytes(b@),
        final(out)@.len() <= old(out)@.len() + 1 + b@.len(),
{
    if b.len() == 1 && b[0] < 0x80 {
        out.push(b[0]);
        assert(b@ =~= seq![b@[0]]);
        assert(out@ =~= old(out)@ + spec_rlp_bytes(b@));
    } else {
        out.push(0x80 + b.len() as u8);
        push_bytes(out, b);
        assert(out@ =~= old(out)@ + spec_rlp_bytes(b@));
    }
}

/// Encodes a transaction canonically. Identical field values always yield
/// identical bytes.
pub fn encode_transaction(tx: &TransactionIntent) -> (r: Vec<u8>)
    requires
        tx.wf(),
    ensures
        r@ == spec_tx_encoding(*tx),
{
    let mut payload: Vec<u8> = Vec::new();
    push_rlp_bytes(&mut payload, tx.to.as_slice());
    push_rlp_uint(&mut payload, tx.value);
    push_rlp_uint(&mut payload, tx.gas);
    push_rlp_uint(&mut payload, tx.gas_price);
    push_rlp_uint(&mut payload, tx.nonce);
    assert(payload@ =~= spec_tx_payload(*tx));
    let mut out: Vec<u8> = Vec::new();
    if payload.len() <= 55 {
        out.push(0xc0 + payload.len() as u8);
    } else {
        out.push(0xf8);
        out.push(payload.len() as u8);
    }
    push_bytes(&mut out, payload.as_slice());
    assert(out@ =~= spec_rlp_list(payload@));
    out
}

/// The transaction digest: Keccak-256 over the canonical encoding.
pub fn hash_transaction(tx: &TransactionIntent) -> (r: Vec<u8>)
    requires
        tx.wf(),
    ensures
        r@ == keccak_of(spec_tx_encoding(*tx)),
        r@.len() == 32,
{
    let encoded = encode_transaction(tx);
    keccak256_digest(encoded.as_slice())
}

/// Signs an already-computed 32-byte transaction digest with an ECDSA
/// private key. The digest is signed as it stands: there is no second
/// hashing pass.
pub fn sign_transaction_hash(hash: &[u8], private_key: &[u8]) -> (r: Result<Vec<u8>, WalletError>)
    requires
        hash@.len() == 32,
    ensures
        r is Ok <==> (k256_key_ok(private_key@) && k256_sig_of(private_key@, hash@) is Some),
        r matches Ok(sig) ==> k256_sig_of(private_key@, hash@) == Some(sig@) && sig@.len() == 64,
        r matches Err(e) ==> e == WalletError::InvalidPrivateKey,
{
    ecdsa_sign_prehash(private_key, hash)
}

} // verus!
