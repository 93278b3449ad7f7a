//! Structured ("typed") data signing: a fixed application domain, a struct
//! hash over the payload's fields in declared order, and the standard final
//! digest formula over domain hash and struct hash.

use vstd::prelude::*;

use vstd::utf8::encode_utf8;

use crate::crypto::{ecdsa_sign_prehash, k256_key_ok, k256_sig_of, keccak256_digest, keccak_of};
use crate::errors::WalletError;
use crate::transaction::push_bytes;

verus! {

/// The example payload: two addresses and two unsigned integers, immutable
/// once constructed.
pub struct ExampleData {
    pub from: Vec<u8>,
    pub to: Vec<u8>,
    pub amount: u64,
    pub nonce: u64,
}

impl ExampleData {
    /// Both addresses are 20 bytes.
    pub open spec fn wf(self) -> bool {
        self.from@.len() == 20 && self.to@.len() == 20
    }
}

/// The domain type string of the structured-data standard.
pub open spec fn spec_domain_type() -> Seq<char> {
    "EIP712Domain(string name,string version,uint256 chainId,address verifyingContract)"@
}

/// The payload's type string, fields in declared order.
pub open spec fn spec_struct_type() -> Seq<char> {
    "ExampleData(address from,address to,uint64 amount,uint64 nonce)"@
}

/// The application name of the fixed domain.
pub open spec fn spec_domain_name() -> Seq<char> {
    "MyDApp"@
}

/// The version of the fixed domain.
pub open spec fn spec_domain_version() -> Seq<char> {
    "1.0"@
}

/// The chain id of the fixed domain.
pub open spec fn spec_chain_id() -> u64 {
    1
}

/// The verifying contract of the fixed domain: twenty 0xcc bytes.
pub open spec fn spec_verifying_contract() -> Seq<u8> {
    Seq::new(20, |i: int| 0xccu8)
}

/// A 64-bit value as a 32-byte big-endian word.
pub open spec fn spec_u64_be32(n: u64) -> Seq<u8> {
    Seq::new(24, |i: int| 0u8) + seq![
        ((n as int / 0x100000000000000) % 256) as u8,
        ((n as int / 0x1000000000000) % 256) as u8,
        ((n as int / 0x10000000000) % 256) as u8,
        ((n as int / 0x100000000) % 256) as u8,
        ((n as int / 0x1000000) % 256) as u8,
        ((n as int / 0x10000) % 256) as u8,
        ((n as int / 0x100) % 256) as u8,
        (n as int % 256) as u8,
    ]
}

/// A 20-byte address as a 32-byte word: twelve zero bytes, then the address.
pub open spec fn spec_pad32_addr(a: Seq<u8>) -> Seq<u8>
    recommends
        a.len() == 20,
{
    Seq::new(12, |i: int| 0u8) + a
}

/// The domain separator: the hash of the domain type hash and the encoded
/// domain fields {name, version, chain id, verifying contract}.
pub open spec fn spec_domain_separator() -> Seq<u8> {
    keccak_of(
        keccak_of(encode_utf8(spec_domain_type())) + keccak_of(encode_utf8(spec_domain_name()))
            + keccak_of(encode_utf8(spec_domain_version())) + spec_u64_be32(spec_chain_id())
            + spec_pad32_addr(spec_verifying_contract()),
    )
}

/// The struct hash: the hash of the payload type hash and the payload's
/// fields, each as a 32-byte word, in declared order.
pub open spec fn spec_struct_hash(d: ExampleData) -> Seq<u8> {
    keccak_of(
        keccak_of(encode_utf8(spec_struct_type())) + spec_pad32_addr(d.from@) + spec_pad32_addr(
            d.to@,
        ) + spec_u64_be32(d.amount) + spec_u64_be32(d.nonce),
    )
}

/// The final digest: the hash of 0x19 0x01, the domain separator, and the
/// struct hash.
pub open spec fn spec_typed_data_digest(d: ExampleData) -> Seq<u8> {
    keccak_of(seq![0x19u8, 0x01u8] + spec_domain_separator() + spec_struct_hash(d))
}

/// Appends a 64-bit value as a 32-byte big-endian word.
fn push_u64_be32(out: &mut Vec<u8>, n: u64)
    ensures
        final(out)@ == old(out)@ + spec_u64_be32(n),
{
    for _j in 0..24usize
        invariant
            out@.len() == old(out)@.len() + _j,
            forall|k: int| 0 <= k < old(out)@.len() ==> out@[k] == old(out)@[k],
            forall|k: int| old(out)@.len() <= k < out@.len() ==> out@[k] == 0u8,
    {
        out.push(0u8);
    }
    out.push(((n / 0x100000000000000) % 256) as u8);
    out.push(((n / 0x1000000000000) % 256) as u8);
    out.push(((n / 0x10000000000) % 256) as u8);
    out.push(((n / 0x100000000) % 256) as u8);
    out.push(((n / 0x1000000) % 256) as u8);
    out.push(((n / 0x10000) % 256) as u8);
    out.push(((n / 0x100) % 256) as u8);
    out.push((n % 256) as u8);
    assert(out@ =~= old(out)@ + spec_u64_be32(n));
}

/// Appends a 20-byte address as a 32-byte word.
fn push_addr32(out: &mut Vec<u8>, a: &[u8])
    requires
        a@.len() == 20,
    ensures
        final(out)@ == old(out)@ + spec_pad32_addr(a@),
{
    for _j in 0..12usize
        invariant
            out@.len() == old(out)@.len() + _j,
            forall|k: int| 0 <= k < old(out)@.len() ==> out@[k] == old(out)@[k],
            forall|k: int| old(out)@.len() <= k < out@.len() ==> out@[k] == 0u8,
    {
        out.push(0u8);
    }
    push_bytes(out, a);
    assert(out@ =~= old(out)@ + spec_pad32_addr(a@));
}

/// Computes the typed-data digest of a payload. A payload whose address
/// fields are not 20 bytes cannot be encoded and is rejected; identical
/// payloads always yield byte-identical digests.
pub fn encode_eip712(data: &ExampleData) -> (r: Result<Vec<u8>, WalletError>)
    ensures
        r is Ok <==> data.wf(),
        r matches Ok(v) ==> v@ == spec_typed_data_digest(*data) && v@.len() == 32,
        r matches Err(e) ==> e == WalletError::Eip712EncodingError,
{
    if data.from.len() != 20 || data.to.len() != 20 {
        return Err(WalletError::Eip712EncodingError);
    }
    let domain_type_hash = keccak256_digest("EIP712Domain(string name,string version,uint256 chainId,address verifyingContract)".as_bytes());
    let name_hash = keccak256_digest("MyDApp".as_bytes());
    let version_hash = keccak256_digest("1.0".as_bytes());
    let mut contract: Vec<u8> = Vec::new();
    for _j in 0..20usize
        invariant
            contract@.len() == _j,
            forall|k: int| 0 <= k < contract@.len() ==> contract@[k] == 0xccu8,
    {
        contract.push(0xccu8);
    }
    assert(contract@ =~= spec_verifying_contract());
    let mut dom: Vec<u8> = Vec::new();
    push_bytes(&mut dom, domain_type_hash.as_slice());
    push_bytes(&mut dom, name_hash.as_slice());
    push_bytes(&mut dom, version_hash.as_slice());
    push_u64_be32(&mut dom, 1);
    push_addr32(&mut dom, contract.as_slice());
    let domain_separator = keccak256_digest(dom.as_slice());
    proof {
        assert(dom@ =~= keccak_of(encode_utf8(spec_domain_type())) + keccak_of(
            encode_utf8(spec_domain_name()),
        ) + keccak_of(encode_utf8(spec_domain_version())) + spec_u64_be32(spec_chain_id())
            + spec_pad32_addr(spec_verifying_contract()));
    }
    let struct_type_hash = keccak256_digest(
        "ExampleData(address from,address to,uint64 amount,uint64 nonce)".as_bytes(),
    );
    let mut enc: Vec<u8> = Vec::new();
    push_bytes(&mut enc, struct_type_hash.as_slice());
    push_addr32(&mut enc, data.from.as_slice());
    push_addr32(&mut enc, data.to.as_slice());
    push_u64_be32(&mut enc, data.amount);
    push_u64_be32(&mut enc, data.nonce);
    let struct_hash = keccak256_digest(enc.as_slice());
    proof {
        assert(enc@ =~= keccak_of(encode_utf8(spec_struct_type())) + spec_pad32_addr(data.from@)
            + spec_pad32_addr(data.to@) + spec_u64_be32(data.amount) + spec_u64_be32(data.nonce));
    }
    let mut fin: Vec<u8> = Vec::new();
    fin.push(0x19u8);
    fin.push(0x01u8);
    push_bytes(&mut fin, domain_separator.as_slice());
    push_bytes(&mut fin, struct_hash.as_slice());
    proof {
        assert(fin@ =~= seq![0x19u8, 0x01u8] + spec_domain_separator() + spec_struct_hash(*data));
    }
    Ok(keccak256_digest(fin.as_slice()))
}

/// Signs the typed-data digest of a payload with an ECDSA private key. The
/// payload is encoded first: an unencodable payload is reported as an
/// encoding failure, never silently coerced; only then is the key used.
pub fn sign_typed_data(private_key: &[u8], data: ExampleData) -> (r: Result<Vec<u8>, WalletError>)
    ensures
        r is Ok <==> (data.wf() && k256_key_ok(private_key@) && k256_sig_of(
            private_key@,
            spec_typed_data_digest(data),
        ) is Some),
        r matches Ok(sig) ==> k256_sig_of(private_key@, spec_typed_data_digest(data)) == Some(sig@)
            && sig@.len() == 64,
        r matches Err(e) ==> {
            &&& (e == WalletError::Eip712EncodingError <==> !data.wf())
            &&& (e == WalletError::Eip712EncodingError || e == WalletError::InvalidPrivateKey)
        },
{
    let digest = match encode_eip712(&data) {
        Ok(d) => d,
        Err(e) => {
            return Err(e);
        },
    };
    ecdsa_sign_prehash(private_key, digest.as_slice())
}

/// Typed-data digests are stable: the digest depends on the field values
/// alone, so re-encoding an identical payload yields a byte-identical
/// digest.
pub proof fn lemma_typed_data_digest_stable(a: ExampleData, b: ExampleData)
    requires
        a.from@ == b.from@,
        a.to@ == b.to@,
        a.amount == b.amount,
        a.nonce == b.nonce,
    ensures
        spec_typed_data_digest(a) == spec_typed_data_digest(b),
{
    assert(spec_struct_hash(a) == spec_struct_hash(b));
}

} // verus!
