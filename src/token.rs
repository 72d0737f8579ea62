//! Opaque session tokens and the keyed hash under which they are stored.

use vstd::prelude::*;
use vstd::string::StringExecFns;
use sha2::{Digest, Sha256};

verus! {

/// The SHA-256 digest of a byte string.
pub uninterp spec fn sha256_of(data: Seq<u8>) -> Seq<u8>;

/// The sixteen lower-case hexadecimal digits, in order.
pub open spec fn hex_alphabet() -> Seq<char> {
    seq!['0', '1', '2', '3', '4', '5', '6', '7', '8', '9', 'a', 'b', 'c', 'd', 'e', 'f']
}

/// Lower-case hexadecimal text of a byte string: two digits per byte, high nibble first.
pub open spec fn hex_lower(b: Seq<u8>) -> Seq<char>
    decreases b.len(),
{
    if b.len() == 0 {
        Seq::empty()
    } else {
        hex_lower(b.drop_last()) + seq![
            hex_alphabet()[(b.last() / 16) as int],
            hex_alphabet()[(b.last() % 16) as int],
        ]
    }
}

/// What is stored for a session token `sid` under the server secret `secret`:
/// the hex text of SHA-256 over the secret's bytes followed by the token's bytes.
pub open spec fn sid_hash_spec(secret: Seq<char>, sid: Seq<char>) -> Seq<char> {
    hex_lower(sha256_of(vstd::utf8::encode_utf8(secret) + vstd::utf8::encode_utf8(sid)))
}

/// Relies on sha2's `Sha256::digest`: the 32-byte SHA-256 digest of its input.
#[verifier::external_body]
fn sha256(data: &[u8]) -> (r: Vec<u8>)
    ensures
        r@ == sha256_of(data@),
        r@.len() == 32,
{
    Sha256::digest(data).to_vec()
}

/// Relies on `hex::encode`: each byte becomes two lower-case hex digits, high nibble first.
#[verifier::external_body]
fn hex_encode(b: &[u8]) -> (r: String)
    ensures
        r@ == hex_lower(b@),
{
    hex::encode(b)
}

/// Relies on uuid's `Uuid::new_v4` and its `Display`, the 36-character hyphenated form.
/// The value is random: nothing is said of which UUID it is.
#[verifier::external_body]
fn random_uuid_text() -> (r: String)
    ensures
        exists|id: u128| r@ == uuid_text_of(id),
        r@.len() == 36,
{
    uuid::Uuid::new_v4().to_string()
}

/// Byte `i` of the big-endian form of `id`, most significant first.
pub open spec fn be_byte(id: u128, i: int) -> u8 {
    ((id as int / vstd::arithmetic::power::pow(256, (15 - i) as nat)) % 256) as u8
}

/// The sixteen big-endian bytes of `id`.
pub open spec fn be_bytes(id: u128) -> Seq<u8> {
    Seq::new(16, |i: int| be_byte(id, i))
}

/// The hyphenated lower-case text of the UUID with value `id`: the hex digits
/// of its big-endian bytes, grouped 8-4-4-4-12.
pub open spec fn uuid_text_of(id: u128) -> Seq<char> {
    let b = be_bytes(id);
    hex_lower(b.subrange(0, 4)) + seq!['-'] + hex_lower(b.subrange(4, 6)) + seq!['-'] + hex_lower(
        b.subrange(6, 8),
    ) + seq!['-'] + hex_lower(b.subrange(8, 10)) + seq!['-'] + hex_lower(b.subrange(10, 16))
}

/// Hex text has two digits per byte.
pub proof fn lemma_hex_lower_len(b: Seq<u8>)
    ensures
        hex_lower(b).len() == 2 * b.len(),
    decreases b.len(),
{
    if b.len() > 0 {
        lemma_hex_lower_len(b.drop_last());
    }
}

/// Relies on uuid's `Uuid::from_u128` and its `Display`: the hyphenated
/// lower-case form, 36 characters.
#[verifier::external_body]
pub(crate) fn uuid_text(id: u128) -> (r: String)
    ensures
        r@ == uuid_text_of(id),
        r@.len() == 36,
{
    uuid::Uuid::from_u128(id).to_string()
}

/// The keyed one-way hash under which a session token is stored.
pub fn compute_sid_hash(secret: &str, sid: &str) -> (r: String)
    ensures
        r@ == sid_hash_spec(secret@, sid@),
        r@.len() == 64,
{
    let mut data: Vec<u8> = Vec::new();
    data.extend_from_slice(secret.as_bytes());
    data.extend_from_slice(sid.as_bytes());
    assert(data@ =~= vstd::utf8::encode_utf8(secret@) + vstd::utf8::encode_utf8(sid@));
    let digest = sha256(data.as_slice());
    proof {
        lemma_hex_lower_len(digest@);
    }
    hex_encode(digest.as_slice())
}

/// A fresh opaque session token: two random UUIDs side by side, 72 characters
/// carrying 244 random bits.
pub fn new_sid() -> (r: String)
    ensures
        r@.len() == 72,
        exists|a: u128, b: u128| r@ == uuid_text_of(a) + uuid_text_of(b),
{
    let first = random_uuid_text();
    let second = random_uuid_text();
    first.concat(second.as_str())
}

} // verus!
