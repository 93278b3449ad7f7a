//! Address and hashing utilities: validation, checksummed rendering,
//! identifiers, and key-to-address derivation.

use vstd::prelude::*;

use vstd::utf8::encode_utf8;

use crate::crypto::{secp_derive_uncompressed, secp_key_ok, secp_uncompressed_of, sha256_digest, sha256_of};
use crate::errors::WalletError;
use crate::hexutil::{
    hex_char_str, hex_decode_chars, hex_encode_lower, is_hex_char, spec_hex_lower, spec_hex_parse,
    spec_hex_string,
};
use vstd::string::{StrSliceExecFns, StringExecFns};

verus! {

/// Relies on rand::thread_rng: fills a buffer from the thread-local
/// generator. Nothing is promised of the value; an entropy failure aborts,
/// as the crate documents.
#[verifier::external_body]
pub(crate) fn thread_random_32() -> (r: Vec<u8>)
    ensures
        r@.len() == 32,
{
    let mut buf = [0u8; 32];
    rand::RngCore::fill_bytes(&mut rand::thread_rng(), &mut buf);
    buf.to_vec()
}

/// The character sequence str::to_lowercase produces: a function of the
/// input characters alone.
pub uninterp spec fn lower_of(s: Seq<char>) -> Seq<char>;

/// Relies on str::to_lowercase: Unicode lowercasing, depending on the
/// characters alone.
#[verifier::external_body]
pub(crate) fn lowercase(s: &str) -> (r: String)
    ensures
        r@ == lower_of(s@),
{
    s.to_lowercase()
}

/// Relies on std::time::SystemTime: whole seconds since the Unix epoch, or
/// zero if the clock reads earlier than the epoch.
#[verifier::external_body]
pub(crate) fn unix_time_secs() -> u64 {
    std::time::SystemTime::now()
        .duration_since(std::time::UNIX_EPOCH)
        .map(|d| d.as_secs())
        .unwrap_or(0)
}

/// A secret string behind an explicit accessor, so that the value cannot
/// reach a log or an error message by accident.
pub struct SecretString {
    value: String,
}

impl View for SecretString {
    type V = Seq<char>;

    closed spec fn view(&self) -> Seq<char> {
        self.value@
    }
}

impl SecretString {
    /// Wraps a secret string.
    pub fn new(value: String) -> (s: Self)
        ensures
            s@ == value@,
    {
        SecretString { value }
    }

    /// The only way to read the wrapped secret.
    pub fn expose_secret(&self) -> (r: &String)
        ensures
            r@ == self@,
    {
        &self.value
    }
}

/// A valid address: `0x` followed by exactly 40 hex digits.
pub open spec fn spec_valid_address(s: Seq<char>) -> bool {
    &&& s.len() == 42
    &&& s[0] == '0'
    &&& s[1] == 'x'
    &&& forall|i: int| 2 <= i < 42 ==> is_hex_char(#[trigger] s[i])
}

/// The upper-case form of a lower-case hex letter; other characters are
/// unchanged.
pub open spec fn to_upper_hex(c: char) -> char {
    if c == 'a' {
        'A'
    } else if c == 'b' {
        'B'
    } else if c == 'c' {
        'C'
    } else if c == 'd' {
        'D'
    } else if c == 'e' {
        'E'
    } else if c == 'f' {
        'F'
    } else {
        c
    }
}

/// The lower-case form of an upper-case hex letter; other characters are
/// unchanged.
pub open spec fn to_lower_hex(c: char) -> char {
    if c == 'A' {
        'a'
    } else if c == 'B' {
        'b'
    } else if c == 'C' {
        'c'
    } else if c == 'D' {
        'd'
    } else if c == 'E' {
        'e'
    } else if c == 'F' {
        'f'
    } else {
        c
    }
}

/// The address with every hex letter lower-cased.
pub open spec fn spec_lowered_address(addr: Seq<char>) -> Seq<char> {
    Seq::new(addr.len(), |i: int| to_lower_hex(addr[i]))
}

/// Nibble `i` of a digest: the high half of byte `i / 2` at even positions,
/// the low half at odd ones.
pub open spec fn spec_nibble(digest: Seq<u8>, i: int) -> int {
    if i % 2 == 0 {
        digest[i / 2] as int / 16
    } else {
        digest[i / 2] as int % 16
    }
}

/// The checksummed rendering of a valid address: hash the lower-cased
/// address string with SHA-256, and upper-case the hex digit at position `i`
/// exactly where nibble `i` of that hash is at least 8.
pub open spec fn spec_checksummed(addr: Seq<char>) -> Seq<char>
    recommends
        spec_valid_address(addr),
{
    let digest = sha256_of(encode_utf8(spec_lowered_address(addr)));
    seq!['0', 'x'] + Seq::new(
        40,
        |i: int|
            if spec_nibble(digest, i) >= 8 {
                to_upper_hex(addr[2 + i])
            } else {
                addr[2 + i]
            },
    )
}

/// Tells whether a string is `0x` followed by 40 hex digits.
pub fn is_valid_address(address: &str) -> (r: bool)
    ensures
        r == spec_valid_address(address@),
{
    let n = address.unicode_len();
    if n != 42 {
        return false;
    }
    if address.get_char(0) != '0' || address.get_char(1) != 'x' {
        return false;
    }
    for i in 2..42usize
        invariant
            address@.len() == 42,
            forall|j: int| 2 <= j < i ==> is_hex_char(#[trigger] address@[j]),
    {
        if !crate::hexutil::hex_char_check(address.get_char(i)) {
            return false;
        }
    }
    true
}

/// Converts an address to its checksummed, mixed-case rendering. A string
/// that is not a valid address is rejected.
#[verifier::loop_isolation(false)]
pub fn to_checksum_address(address: &str) -> (r: Result<String, WalletError>)
    ensures
        r is Ok <==> spec_valid_address(address@),
        r matches Ok(s) ==> s@ == spec_checksummed(address@),
        r matches Err(e) ==> e == WalletError::InvalidAddress,
{
    if !is_valid_address(address) {
        return Err(WalletError::InvalidAddress);
    }
    let mut lowered = String::new();
    assert(lowered@ =~= spec_lowered_address(address@).take(0));
    for i in 0..42usize
        invariant
            lowered@ == spec_lowered_address(address@).take(i as int),
    {
        let c = address.get_char(i);
        assert(is_hex_char(c) || c == 'x' || c == '0');
        lowered.append(lower_char_str(c));
        assert(lowered@ =~= spec_lowered_address(address@).take(i + 1));
    }
    assert(lowered@ =~= spec_lowered_address(address@));
    let digest = sha256_digest(lowered.as_str().as_bytes());
    let ghost spec_out = spec_checksummed(address@);
    let mut out = String::new();
    proof {
        reveal_strlit("0x");
    }
    out.append("0x");
    assert(out@ =~= spec_out.take(2));
    for i in 0..40usize
        invariant
            out@ == spec_out.take(2 + i as int),
    {
        let c = address.get_char(2 + i);
        let b = digest[i / 2];
        let nib = if i % 2 == 0 {
            b / 16
        } else {
            b % 16
        };
        if nib >= 8 {
            out.append(upper_char_str(c));
        } else {
            out.append(plain_char_str(c));
        }
        assert(out@ =~= spec_out.take(2 + i + 1));
    }
    assert(out@ =~= spec_out);
    Ok(out)
}

/// A one-character string holding `c` lower-cased as a hex letter.
fn lower_char_str(c: char) -> (s: &'static str)
    requires
        is_hex_char(c) || c == 'x',
    ensures
        s@ =~= seq![to_lower_hex(c)],
{
    proof {
        reveal_strlit("0");
        reveal_strlit("1");
        reveal_strlit("2");
        reveal_strlit("3");
        reveal_strlit("4");
        reveal_strlit("5");
        reveal_strlit("6");
        reveal_strlit("7");
        reveal_strlit("8");
        reveal_strlit("9");
        reveal_strlit("a");
        reveal_strlit("b");
        reveal_strlit("c");
        reveal_strlit("d");
        reveal_strlit("e");
        reveal_strlit("f");
        reveal_strlit("x");
    }
    match c {
        '0' => "0",
        '1' => "1",
        '2' => "2",
        '3' => "3",
        '4' => "4",
        '5' => "5",
        '6' => "6",
        '7' => "7",
        '8' => "8",
        '9' => "9",
        'a' | 'A' => "a",
        'b' | 'B' => "b",
        'c' | 'C' => "c",
        'd' | 'D' => "d",
        'e' | 'E' => "e",
        'f' | 'F' => "f",
        _ => "x",
    }
}

/// A one-character string holding `c` upper-cased as a hex letter.
fn upper_char_str(c: char) -> (s: &'static str)
    requires
        is_hex_char(c),
    ensures
        s@ =~= seq![to_upper_hex(c)],
{
    proof {
        reveal_strlit("0");
        reveal_strlit("1");
        reveal_strlit("2");
        reveal_strlit("3");
        reveal_strlit("4");
        reveal_strlit("5");
        reveal_strlit("6");
        reveal_strlit("7");
        reveal_strlit("8");
        reveal_strlit("9");
        reveal_strlit("A");
        reveal_strlit("B");
        reveal_strlit("C");
        reveal_strlit("D");
        reveal_strlit("E");
        reveal_strlit("F");
    }
    match c {
        '0' => "0",
        '1' => "1",
        '2' => "2",
        '3' => "3",
        '4' => "4",
        '5' => "5",
        '6' => "6",
        '7' => "7",
        '8' => "8",
        '9' => "9",
        'a' | 'A' => "A",
        'b' | 'B' => "B",
        'c' | 'C' => "C",
        'd' | 'D' => "D",
        'e' | 'E' => "E",
        _ => "F",
    }
}

/// A one-character string holding the hex digit `c` itself.
fn plain_char_str(c: char) -> (s: &'static str)
    requires
        is_hex_char(c),
    ensures
        s@ =~= seq![c],
{
    proof {
        reveal_strlit("0");
        reveal_strlit("1");
        reveal_strlit("2");
        reveal_strlit("3");
        reveal_strlit("4");
        reveal_strlit("5");
        reveal_strlit("6");
        reveal_strlit("7");
        reveal_strlit("8");
        reveal_strlit("9");
        reveal_strlit("a");
        reveal_strlit("b");
        reveal_strlit("c");
        reveal_strlit("d");
        reveal_strlit("e");
        reveal_strlit("f");
        reveal_strlit("A");
        reveal_strlit("B");
        reveal_strlit("C");
        reveal_strlit("D");
        reveal_strlit("E");
        reveal_strlit("F");
    }
    match c {
        '0' => "0",
        '1' => "1",
        '2' => "2",
        '3' => "3",
        '4' => "4",
        '5' => "5",
        '6' => "6",
        '7' => "7",
        '8' => "8",
        '9' => "9",
        'a' => "a",
        'b' => "b",
        'c' => "c",
        'd' => "d",
        'e' => "e",
        'f' => "f",
        'A' => "A",
        'B' => "B",
        'C' => "C",
        'D' => "D",
        'E' => "E",
        _ => "F",
    }
}

/// A fresh 64-character lower-case hex string rendering 32 random bytes.
pub fn generate_random_hex() -> (r: String)
    ensures
        r@.len() == 64,
        exists|b: Seq<u8>| b.len() == 32 && r@ == spec_hex_lower(b),
{
    let bytes = thread_random_32();
    let r = hex_encode_lower(bytes.as_slice());
    proof {
        assert(bytes@.len() == 32 && r@ == spec_hex_lower(bytes@));
    }
    r
}

/// The SHA-256 digest of the string's UTF-8 bytes, as lower-case hex.
pub fn sha256_hash(data: &str) -> (r: String)
    ensures
        r@ == spec_hex_lower(sha256_of(encode_utf8(data@))),
{
    let bytes = data.as_bytes();
    assert(bytes@ == encode_utf8(data@));
    let digest = sha256_digest(bytes);
    hex_encode_lower(digest.as_slice())
}

/// The decimal rendering of `n`, most significant digit first.
pub open spec fn spec_decimal(n: nat) -> Seq<char>
    decreases n,
{
    if n < 10 {
        seq![crate::hexutil::hex_char_of(n as int)]
    } else {
        spec_decimal(n / 10).push(crate::hexutil::hex_char_of((n % 10) as int))
    }
}

/// Appends the decimal rendering of `n`.
fn push_decimal(n: u64, out: &mut String)
    ensures
        final(out)@ == old(out)@ + spec_decimal(n as nat),
    decreases n,
{
    if n < 10 {
        out.append(hex_char_str(n as u8));
        assert(out@ =~= old(out)@ + spec_decimal(n as nat));
    } else {
        push_decimal(n / 10, out);
        out.append(hex_char_str((n % 10) as u8));
        assert(out@ =~= old(out)@ + spec_decimal(n as nat));
    }
}

/// The identifier derived from a timestamp and an input: the SHA-256 hex of
/// the decimal timestamp concatenated with the input.
pub open spec fn spec_tx_id(timestamp: u64, input: Seq<char>) -> Seq<char> {
    spec_hex_lower(sha256_of(encode_utf8(spec_decimal(timestamp as nat) + input)))
}

/// The transaction identifier for a given timestamp.
pub fn derive_tx_id_at(timestamp: u64, input: &str) -> (r: String)
    ensures
        r@ == spec_tx_id(timestamp, input@),
{
    let mut s = String::new();
    push_decimal(timestamp, &mut s);
    s.append(input);
    assert(s@ =~= spec_decimal(timestamp as nat) + input@);
    sha256_hash(s.as_str())
}

/// A transaction identifier from the current time and the input: the
/// identifier for some timestamp, as `derive_tx_id_at` computes it.
pub fn derive_tx_id(input: &str) -> (r: String)
    ensures
        exists|t: u64| r@ == spec_tx_id(t, input@),
{
    let t = unix_time_secs();
    let r = derive_tx_id_at(t, input);
    proof {
        assert(r@ == spec_tx_id(t, input@));
    }
    r
}

/// Derives the 20-byte address of a hex-encoded secp256k1 private key: the
/// last 20 bytes of the SHA-256 digest of the derived public key's
/// uncompressed encoding without its leading format byte.
pub fn private_key_to_address(private_key: &SecretString) -> (r: Result<Vec<u8>, WalletError>)
    ensures
        r is Ok <==> (spec_hex_string(private_key@) && secp_key_ok(spec_hex_parse(private_key@))),
        r matches Ok(v) ==> {
            &&& v@ == sha256_of(secp_uncompressed_of(spec_hex_parse(private_key@)).subrange(1, 65))
                .subrange(12, 32)
            &&& v@.len() == 20
        },
        r matches Err(e) ==> e == WalletError::InvalidPrivateKey,
{
    let decoded = match hex_decode_chars(private_key.expose_secret().as_str()) {
        Some(v) => v,
        None => {
            return Err(WalletError::InvalidPrivateKey);
        },
    };
    let public = match secp_derive_uncompressed(decoded.as_slice()) {
        Ok(p) => p,
        Err(_) => {
            return Err(WalletError::InvalidPrivateKey);
        },
    };
    let digest = sha256_digest(vstd::slice::slice_subrange(public.as_slice(), 1, 65));
    let address = vstd::slice::slice_to_vec(
        vstd::slice::slice_subrange(digest.as_slice(), 12, 32),
    );
    Ok(address)
}

/// Compares two addresses up to letter case, by Unicode lowercasing as the
/// standard library performs it.
pub fn addresses_are_equal(addr1: &str, addr2: &str) -> (r: bool)
    ensures
        r == (lower_of(addr1@) == lower_of(addr2@)),
{
    let a = lowercase(addr1);
    let b = lowercase(addr2);
    a.eq(&b)
}

} // verus!
