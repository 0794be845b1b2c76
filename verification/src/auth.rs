//! Password hashing and session tokens.
//!
//! A password is stored as the lowercase hex SHA-256 digest of its UTF-8
//! bytes followed by a fixed salt. A session token is the lowercase hex
//! SHA-256 digest of 32 random bytes followed by the current time in
//! nanoseconds, big-endian.

use vstd::prelude::*;
use vstd::slice::slice_to_vec;
use vstd::utf8::encode_utf8;

verus! {

/// Salt appended to every password before hashing.
pub const PASSWORD_SALT: &'static str = "api-switch-salt-v1";

/// The hex digit of `n`, for `n < 16`: `0`-`9`, then `a`-`f`.
pub open spec fn hex_digit(n: u8) -> char {
    if n < 10 {
        (48 + n) as char
    } else {
        (87 + n) as char
    }
}

/// Lowercase hex text of `data`: two digits per byte, high half first.
pub open spec fn hex_lower(data: Seq<u8>) -> Seq<char>
    decreases data.len(),
{
    if data.len() == 0 {
        Seq::empty()
    } else {
        seq![hex_digit(data[0] / 16), hex_digit(data[0] % 16)] + hex_lower(data.drop_first())
    }
}

/// Every character of `s` is a lowercase hex digit.
pub open spec fn is_lower_hex(s: Seq<char>) -> bool {
    forall|i: int| 0 <= i < s.len() ==> ('0' <= #[trigger] s[i] <= '9' || 'a' <= s[i] <= 'f')
}

/// The hex text of `data` has two characters per byte, all hex digits.
pub proof fn lemma_hex_lower(data: Seq<u8>)
    ensures
        hex_lower(data).len() == 2 * data.len(),
        is_lower_hex(hex_lower(data)),
    decreases data.len(),
{
    if data.len() > 0 {
        lemma_hex_lower(data.drop_first());
        let h = seq![hex_digit(data[0] / 16), hex_digit(data[0] % 16)];
        let t = hex_lower(data.drop_first());
        assert(hex_lower(data) == h + t);
        assert forall|i: int| 0 <= i < (h + t).len() implies ('0' <= #[trigger] (h + t)[i] <= '9' || 'a'
            <= (h + t)[i] <= 'f') by {
            if i >= 2 {
                assert((h + t)[i] == t[i - 2]);
            }
        }
    }
}

/// SHA-256 digest of a byte sequence.
pub uninterp spec fn sha256_digest(data: Seq<u8>) -> Seq<u8>;

/// `sha2::Sha256::digest`: the SHA-256 digest of `data`, which is 32 bytes
/// long. Feeding the digest several slices in turn gives the digest of their
/// concatenation, so one call on the joined bytes stands for that.
#[verifier::external_body]
fn sha256(data: &[u8]) -> (r: Vec<u8>)
    ensures
        r@ == sha256_digest(data@),
        r@.len() == 32,
{
    <sha2::Sha256 as sha2::Digest>::digest(data).to_vec()
}

/// `hex::encode`: lowercase hex text of `data`, two digits per byte, high
/// half first.
#[verifier::external_body]
pub(crate) fn hex_encode(data: &[u8]) -> (r: String)
    ensures
        r@ == hex_lower(data@),
{
    hex::encode(data)
}

/// `rand::random::<[u8; 32]>`: 32 bytes from the thread-local generator.
/// Nothing is promised about the value.
#[verifier::external_body]
fn random_32_bytes() -> [u8; 32] {
    rand::random::<[u8; 32]>()
}

/// `chrono::Utc::now().timestamp_nanos_opt()`: nanoseconds since the Unix
/// epoch, `None` when out of the `i64` range. The value depends on the time
/// of the call, so nothing is promised about it.
#[verifier::external_body]
fn timestamp_nanos_now() -> Option<i64> {
    chrono::Utc::now().timestamp_nanos_opt()
}

/// The bytes a password is hashed from: its UTF-8 bytes, then the salt.
pub open spec fn salted_password(password: Seq<char>) -> Seq<u8> {
    encode_utf8(password) + encode_utf8(PASSWORD_SALT@)
}

/// The stored form of `password`.
pub open spec fn spec_hash_password(password: Seq<char>) -> Seq<char> {
    hex_lower(sha256_digest(salted_password(password)))
}

/// Hashes a password with the gateway's salt.
pub fn hash_password(password: &str) -> (r: String)
    ensures
        r@ == spec_hash_password(password@),
        r@.len() == 64,
        is_lower_hex(r@),
{
    let mut data = slice_to_vec(password.as_bytes());
    let mut salt = slice_to_vec(PASSWORD_SALT.as_bytes());
    data.append(&mut salt);
    let digest = sha256(data.as_slice());
    proof {
        lemma_hex_lower(digest@);
    }
    hex_encode(digest.as_slice())
}

/// Byte `k` (0 = most significant) of the big-endian form of `v`.
pub open spec fn be_byte(v: i64, k: int) -> u8 {
    ((v as u64) >> ((56 - 8 * k) as u64)) as u8
}

/// The eight big-endian bytes of `v`.
pub open spec fn i64_be_bytes(v: i64) -> Seq<u8> {
    Seq::new(8, |k: int| be_byte(v, k))
}

/// The token made from a random seed and a time stamp.
pub open spec fn spec_token(seed: Seq<u8>, nanos: i64) -> Seq<char> {
    hex_lower(sha256_digest(seed + i64_be_bytes(nanos)))
}

/// The session token made from 32 random bytes and a time in nanoseconds.
pub fn token_from_seed(seed: &[u8; 32], nanos: i64) -> (r: String)
    ensures
        r@ == spec_token(seed@, nanos),
        r@.len() == 64,
        is_lower_hex(r@),
{
    let mut data: Vec<u8> = Vec::new();
    let mut i: usize = 0;
    while i < 32
        invariant
            i <= 32,
            data@ == seed@.subrange(0, i as int),
        decreases 32 - i,
    {
        data.push(seed[i]);
        i = i + 1;
    }
    let u = nanos as u64;
    let mut k: usize = 0;
    while k < 8
        invariant
            k <= 8,
            u == nanos as u64,
            data@ == seed@ + i64_be_bytes(nanos).subrange(0, k as int),
        decreases 8 - k,
    {
        let b = (u >> ((56 - 8 * k) as u64)) as u8;
        assert(b == be_byte(nanos, k as int));
        data.push(b);
        assert(i64_be_bytes(nanos).subrange(0, k + 1) =~= i64_be_bytes(nanos).subrange(0, k as int).push(b));
        k = k + 1;
    }
    assert(i64_be_bytes(nanos).subrange(0, 8) =~= i64_be_bytes(nanos));
    let digest = sha256(data.as_slice());
    proof {
        lemma_hex_lower(digest@);
    }
    hex_encode(digest.as_slice())
}

/// A fresh session token: the digest of 32 random bytes and the current
/// time (0 when the time does not fit in nanoseconds).
pub fn generate_token() -> (r: String)
    ensures
        exists|seed: Seq<u8>, nanos: i64| seed.len() == 32 && r@ == spec_token(seed, nanos),
        r@.len() == 64,
        is_lower_hex(r@),
{
    let seed = random_32_bytes();
    let nanos = match timestamp_nanos_now() {
        Some(n) => n,
        None => 0,
    };
    token_from_seed(&seed, nanos)
}

} // verus!
