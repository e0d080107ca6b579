//! Encodings and the ed25519 primitives the protocol relies on.

use vstd::prelude::*;
use ed25519_dalek::{Signer, Verifier};

verus! {

/// The error of `hex::decode`.
#[verifier::external_type_specification]
#[verifier::external_body]
pub struct ExFromHexError(hex::FromHexError);

/// The error of ed25519-dalek's key decoding and verification.
#[verifier::external_type_specification]
#[verifier::external_body]
pub struct ExSignatureError(ed25519_dalek::SignatureError);

/// True for the ASCII characters `0-9`, `a-f` and `A-F`.
pub open spec fn is_hex_digit(c: char) -> bool {
    ('0' <= c && c <= '9') || ('a' <= c && c <= 'f') || ('A' <= c && c <= 'F')
}

/// Every character of `s` is a hexadecimal digit.
pub open spec fn all_hex(s: Seq<char>) -> bool {
    forall|i: int| 0 <= i < s.len() ==> #[trigger] is_hex_digit(s[i])
}

/// The value of one hexadecimal digit.
pub open spec fn hex_value(c: char) -> u8 {
    if '0' <= c && c <= '9' {
        (c as u32 - '0' as u32) as u8
    } else if 'a' <= c && c <= 'f' {
        (c as u32 - 'a' as u32 + 10) as u8
    } else {
        (c as u32 - 'A' as u32 + 10) as u8
    }
}

/// The bytes that an even-length string of hexadecimal digits stands for,
/// two digits per byte, high nibble first.
pub open spec fn hex_bytes(s: Seq<char>) -> Seq<u8> {
    Seq::new(
        (s.len() / 2) as nat,
        |i: int| (hex_value(s[2 * i]) * 16 + hex_value(s[2 * i + 1])) as u8,
    )
}

/// The lower-case digit for a nibble.
pub open spec fn nibble_char(n: u8) -> char {
    if n < 10 {
        (('0' as u8) + n) as char
    } else {
        (('a' as u8) + n - 10) as char
    }
}

/// Lower-case hexadecimal text of a byte sequence, two digits per byte.
pub open spec fn hex_lower(b: Seq<u8>) -> Seq<char>
    decreases b.len(),
{
    if b.len() == 0 {
        Seq::empty()
    } else {
        hex_lower(b.drop_last()) + seq![nibble_char(b.last() / 16), nibble_char(b.last() % 16)]
    }
}

/// The decimal digits of a natural number.
pub open spec fn nat_digits(n: nat) -> Seq<char>
    decreases n,
{
    if n < 10 {
        seq![(('0' as u8) + n as u8) as char]
    } else {
        nat_digits(n / 10).push((('0' as u8) + (n % 10) as u8) as char)
    }
}

/// Decimal text of an integer, with a leading `-` when negative.
pub open spec fn decimal_text(n: int) -> Seq<char> {
    if n < 0 {
        seq!['-'] + nat_digits((-n) as nat)
    } else {
        nat_digits(n as nat)
    }
}

/// Lower-case hex text decodes back to the bytes it encodes.
pub proof fn lemma_hex_round_trip(b: Seq<u8>)
    ensures
        hex_lower(b).len() == 2 * b.len(),
        all_hex(hex_lower(b)),
        hex_bytes(hex_lower(b)) == b,
    decreases b.len(),
{
    if b.len() > 0 {
        let d = b.drop_last();
        lemma_hex_round_trip(d);
        let x = b.last();
        let hi = nibble_char(x / 16);
        let lo = nibble_char(x % 16);
        let prev = hex_lower(d);
        let s = hex_lower(b);
        assert(s == prev + seq![hi, lo]);
        assert(is_hex_digit(hi) && is_hex_digit(lo));
        assert(hex_value(hi) == x / 16 && hex_value(lo) == x % 16);
        assert forall|i: int| 0 <= i < s.len() implies #[trigger] is_hex_digit(s[i]) by {
            if i < prev.len() {
                assert(s[i] == prev[i]);
            }
        }
        assert forall|i: int| 0 <= i < b.len() implies #[trigger] hex_bytes(s)[i] == b[i] by {
            if i < d.len() {
                assert(s[2 * i] == prev[2 * i] && s[2 * i + 1] == prev[2 * i + 1]);
                assert(hex_bytes(prev)[i] == d[i]);
            } else {
                assert(s[2 * i] == hi && s[2 * i + 1] == lo);
            }
        }
        assert(hex_bytes(s) =~= b);
    }
}

/// Whether a 32-byte string is the compressed form of a curve point, that is,
/// whether ed25519-dalek accepts it as a verifying key.
pub uninterp spec fn ed25519_key_decodes(key: Seq<u8>) -> bool;

/// Whether `signature` is a valid ed25519 signature of `message` under `key`.
pub uninterp spec fn ed25519_accepts(key: Seq<u8>, message: Seq<u8>, signature: Seq<u8>) -> bool;

/// The verifying key that belongs to a 32-byte ed25519 secret key.
pub uninterp spec fn ed25519_public_of(secret: Seq<u8>) -> Seq<u8>;

/// The ed25519 signature of `message` under a 32-byte secret key.
pub uninterp spec fn ed25519_signature_of(secret: Seq<u8>, message: Seq<u8>) -> Seq<u8>;

/// Relies on `hex::decode`: `Ok` exactly for an even number of hex digits
/// (either case), and then two digits make one byte, high nibble first.
#[verifier::external_body]
pub fn hex_decode(s: &str) -> (r: Result<Vec<u8>, hex::FromHexError>)
    ensures
        r is Ok <==> (s@.len() % 2 == 0 && all_hex(s@)),
        r is Ok ==> r->Ok_0@ == hex_bytes(s@),
{
    hex::decode(s)
}

/// Relies on `hex::encode`: lower-case digits, two per byte.
#[verifier::external_body]
pub fn hex_encode(b: &[u8]) -> (r: String)
    ensures
        r@ == hex_lower(b@),
{
    hex::encode(b)
}

/// Relies on `VerifyingKey::from_bytes` of ed25519-dalek: whether the key
/// bytes decompress to a curve point.
#[verifier::external_body]
pub fn ed25519_key_valid(key: &[u8; 32]) -> (r: bool)
    ensures
        r == ed25519_key_decodes(key@),
{
    ed25519_dalek::VerifyingKey::from_bytes(key).is_ok()
}

/// Relies on `VerifyingKey::from_bytes` and `Verifier::verify` of
/// ed25519-dalek: `Err` when the key bytes are not a curve point, else
/// whether the signature verifies over the message.
#[verifier::external_body]
pub fn ed25519_verify(key: &[u8; 32], message: &[u8], signature: &[u8; 64]) -> (r: Result<
    bool,
    ed25519_dalek::SignatureError,
>)
    ensures
        r is Ok <==> ed25519_key_decodes(key@),
        r is Ok ==> r->Ok_0 == ed25519_accepts(key@, message@, signature@),
{
    let verifying_key = ed25519_dalek::VerifyingKey::from_bytes(key)?;
    let signature = ed25519_dalek::Signature::from_bytes(signature);
    Ok(verifying_key.verify(message, &signature).is_ok())
}

/// Relies on `SigningKey::from_bytes` and `SigningKey::verifying_key` of
/// ed25519-dalek: the verifying key of a secret key, which always decodes.
#[verifier::external_body]
pub fn ed25519_public_key(secret: &[u8; 32]) -> (r: [u8; 32])
    ensures
        r@ == ed25519_public_of(secret@),
        ed25519_key_decodes(r@),
{
    ed25519_dalek::SigningKey::from_bytes(secret).verifying_key().to_bytes()
}

/// Relies on `Signer::sign` of ed25519-dalek's `SigningKey`: a signature that
/// verifies under the secret key's own verifying key.
#[verifier::external_body]
pub fn ed25519_sign(secret: &[u8; 32], message: &[u8]) -> (r: [u8; 64])
    ensures
        r@ == ed25519_signature_of(secret@, message@),
        ed25519_accepts(ed25519_public_of(secret@), message@, r@),
{
    ed25519_dalek::SigningKey::from_bytes(secret).sign(message).to_bytes()
}

/// Relies on `i128`'s `ToString`: decimal digits with a leading `-` when negative.
#[verifier::external_body]
pub fn decimal_string(n: i128) -> (r: String)
    ensures
        r@ == decimal_text(n as int),
{
    n.to_string()
}

/// Relies on `chrono::Utc::now`: the current wall-clock time in whole seconds
/// since the Unix epoch; nothing is known of its value.
#[verifier::external_body]
pub fn unix_now() -> (r: i64) {
    chrono::Utc::now().timestamp()
}

/// Copies a 32-byte vector into an array.
pub fn to_array32(v: &Vec<u8>) -> (r: [u8; 32])
    requires
        v@.len() == 32,
    ensures
        r@ == v@,
{
    let mut a: [u8; 32] = [0u8; 32];
    let mut i: usize = 0;
    while i < 32
        invariant
            i <= 32,
            v@.len() == 32,
            a@.len() == 32,
            forall|j: int| 0 <= j < i ==> a@[j] == v@[j],
        decreases 32 - i,
    {
        a[i] = v[i];
        i = i + 1;
    }
    assert(a@ =~= v@);
    a
}

/// Copies a 64-byte vector into an array.
pub fn to_array64(v: &Vec<u8>) -> (r: [u8; 64])
    requires
        v@.len() == 64,
    ensures
        r@ == v@,
{
    let mut a: [u8; 64] = [0u8; 64];
    let mut i: usize = 0;
    while i < 64
        invariant
            i <= 64,
            v@.len() == 64,
            a@.len() == 64,
            forall|j: int| 0 <= j < i ==> a@[j] == v@[j],
        decreases 64 - i,
    {
        a[i] = v[i];
        i = i + 1;
    }
    assert(a@ =~= v@);
    a
}

/// Whether every character of `s` is a hexadecimal digit.
pub fn is_hex_text(s: &str) -> (r: bool)
    ensures
        r == all_hex(s@),
{
    let n = s.unicode_len();
    let mut i: usize = 0;
    while i < n
        invariant
            n == s@.len(),
            i <= n,
            forall|j: int| 0 <= j < i ==> is_hex_digit(#[trigger] s@[j]),
        decreases n - i,
    {
        let c = s.get_char(i);
        if !(('0' <= c && c <= '9') || ('a' <= c && c <= 'f') || ('A' <= c && c <= 'F')) {
            assert(!is_hex_digit(s@[i as int]));
            return false;
        }
        i = i + 1;
    }
    true
}

} // verus!
