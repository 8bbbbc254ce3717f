//! Signatures of authenticated requests: lowercase hex of HMAC-SHA256.
use vstd::prelude::*;
use crate::error::ApiError;
use hmac::{Mac, NewMac};

verus! {

/// The lowercase hex digit of a value below 16.
pub open spec fn hex_digit(n: nat) -> char {
    if n == 0 { '0' }
    else if n == 1 { '1' }
    else if n == 2 { '2' }
    else if n == 3 { '3' }
    else if n == 4 { '4' }
    else if n == 5 { '5' }
    else if n == 6 { '6' }
    else if n == 7 { '7' }
    else if n == 8 { '8' }
    else if n == 9 { '9' }
    else if n == 10 { 'a' }
    else if n == 11 { 'b' }
    else if n == 12 { 'c' }
    else if n == 13 { 'd' }
    else if n == 14 { 'e' }
    else { 'f' }
}

/// Lowercase hex of bytes: two digits per byte, high digit first, no separators.
pub open spec fn hex_of(b: Seq<u8>) -> Seq<char>
    decreases b.len(),
{
    if b.len() == 0 {
        Seq::empty()
    } else {
        hex_of(b.drop_last()) + seq![hex_digit(b.last() as nat / 16), hex_digit(b.last() as nat % 16)]
    }
}

/// HMAC-SHA256 of the UTF-8 bytes of `message` under the UTF-8 bytes of `key`.
pub uninterp spec fn hmac_sha256_of(key: Seq<char>, message: Seq<char>) -> Seq<u8>;

/// The signature of `message` under `key`.
pub open spec fn signature_of(key: Seq<char>, message: Seq<char>) -> Seq<char> {
    hex_of(hmac_sha256_of(key, message))
}

/// Relies on hex::encode: lowercase, two digits per byte, in order.
#[verifier::external_body]
fn to_hex(b: &[u8]) -> (r: String)
    ensures
        r@ == hex_of(b@),
{
    hex::encode(b)
}

/// Relies on hmac's `Hmac<Sha256>`: `new_from_slice` accepts a key of any
/// length (a long key is hashed first), then `update` and `finalize` give the
/// 32-byte tag.
#[verifier::external_body]
fn hmac_sha256(key: &str, message: &str) -> (r: Result<Vec<u8>, ApiError>)
    ensures
        r is Ok,
        r->Ok_0@ == hmac_sha256_of(key@, message@),
        r->Ok_0@.len() == 32,
{
    match hmac::Hmac::<sha2::Sha256>::new_from_slice(key.as_bytes()) {
        Ok(mut mac) => {
            mac.update(message.as_bytes());
            Ok(mac.finalize().into_bytes().to_vec())
        },
        Err(_) => Err(ApiError::Key),
    }
}

/// Signs `message` with `secret_key`: lowercase hex of its HMAC-SHA256.
pub fn get_signature(secret_key: &str, message: &str) -> (r: Result<String, ApiError>)
    ensures
        r matches Ok(s) && s@ == signature_of(secret_key@, message@),
{
    match hmac_sha256(secret_key, message) {
        Ok(digest) => Ok(to_hex(digest.as_slice())),
        Err(e) => Err(e),
    }
}

proof fn lemma_hex_len(b: Seq<u8>)
    ensures
        hex_of(b).len() == 2 * b.len(),
    decreases b.len(),
{
    if b.len() > 0 {
        lemma_hex_len(b.drop_last());
    }
}

proof fn lemma_hex_digit_injective(x: nat, y: nat)
    requires
        x < 16,
        y < 16,
        hex_digit(x) == hex_digit(y),
    ensures
        x == y,
{
}

/// Hex text determines the bytes it was made from.
pub proof fn lemma_hex_injective(a: Seq<u8>, b: Seq<u8>)
    requires
        hex_of(a) == hex_of(b),
    ensures
        a == b,
    decreases a.len(),
{
    lemma_hex_len(a);
    lemma_hex_len(b);
    if a.len() > 0 {
        let ha = hex_of(a);
        let pa = hex_of(a.drop_last());
        let pb = hex_of(b.drop_last());
        lemma_hex_len(a.drop_last());
        lemma_hex_len(b.drop_last());
        assert(ha[ha.len() - 2] == hex_digit(a.last() as nat / 16));
        assert(ha[ha.len() - 2] == hex_digit(b.last() as nat / 16));
        assert(ha[ha.len() - 1] == hex_digit(a.last() as nat % 16));
        assert(ha[ha.len() - 1] == hex_digit(b.last() as nat % 16));
        lemma_hex_digit_injective(a.last() as nat / 16, b.last() as nat / 16);
        lemma_hex_digit_injective(a.last() as nat % 16, b.last() as nat % 16);
        assert(a.last() == b.last());
        assert(pa =~= ha.subrange(0, ha.len() - 2));
        assert(pb =~= ha.subrange(0, ha.len() - 2));
        lemma_hex_injective(a.drop_last(), b.drop_last());
        assert(a =~= a.drop_last().push(a.last()));
        assert(b =~= b.drop_last().push(b.last()));
    } else {
        assert(a =~= b);
    }
}

/// Signing is a function of key and message alone, and the signature text
/// determines the MAC tag it encodes: equal signatures mean equal tags.
pub proof fn lemma_signature_deterministic(k1: Seq<char>, m1: Seq<char>, k2: Seq<char>, m2: Seq<char>)
    ensures
        k1 == k2 && m1 == m2 ==> signature_of(k1, m1) == signature_of(k2, m2),
        signature_of(k1, m1) == signature_of(k2, m2) ==> hmac_sha256_of(k1, m1) == hmac_sha256_of(k2, m2),
{
    if signature_of(k1, m1) == signature_of(k2, m2) {
        lemma_hex_injective(hmac_sha256_of(k1, m1), hmac_sha256_of(k2, m2));
    }
}

} // verus!
