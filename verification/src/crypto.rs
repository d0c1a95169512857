//! Calls into the outside crates that hash secrets, encode bytes as text, draw
//! random bytes and make certificates.
use vstd::prelude::*;

use argon2::{PasswordHasher, PasswordVerifier};
use base64::Engine;
use sha2::Digest;

verus! {

/// The PHC string that Argon2 (default parameters) produces for `password` salted
/// with `salt`.
pub uninterp spec fn argon2_phc_string(password: Seq<u8>, salt: Seq<u8>) -> Seq<char>;

/// Whether Argon2 accepts `password` against the PHC string `phc`.
pub uninterp spec fn argon2_password_matches(phc: Seq<char>, password: Seq<u8>) -> bool;

/// The SHA-256 digest of `data`.
pub uninterp spec fn sha256(data: Seq<u8>) -> Seq<u8>;

/// The character of the URL-safe Base64 alphabet (`A-Z a-z 0-9 - _`) that stands
/// for the six-bit value `v`.
pub open spec fn base64_url_digit(v: int) -> char {
    if v < 26 {
        (65 + v) as char
    } else if v < 52 {
        (71 + v) as char
    } else if v < 62 {
        (v - 4) as char
    } else if v == 62 {
        '-'
    } else {
        '_'
    }
}

/// The four characters that stand for the three bytes `a`, `b`, `c`: their 24
/// bits cut into four six-bit values, most significant first.
pub open spec fn base64_url_group(a: u8, b: u8, c: u8) -> Seq<char> {
    seq![
        base64_url_digit(a as int / 4),
        base64_url_digit((a as int % 4) * 16 + b as int / 16),
        base64_url_digit((b as int % 16) * 4 + c as int / 64),
        base64_url_digit(c as int % 64),
    ]
}

/// The padded, URL-safe Base64 text of `bytes`: four characters for every three
/// bytes; a last group of one or two bytes is filled with zero bits and padded
/// with `=` to four characters.
pub open spec fn base64_url_encoding(bytes: Seq<u8>) -> Seq<char>
    decreases bytes.len(),
{
    if bytes.len() == 0 {
        Seq::empty()
    } else if bytes.len() == 1 {
        seq![
            base64_url_digit(bytes[0] as int / 4),
            base64_url_digit((bytes[0] as int % 4) * 16),
            '=',
            '=',
        ]
    } else if bytes.len() == 2 {
        seq![
            base64_url_digit(bytes[0] as int / 4),
            base64_url_digit((bytes[0] as int % 4) * 16 + bytes[1] as int / 16),
            base64_url_digit((bytes[1] as int % 16) * 4),
            '=',
        ]
    } else {
        base64_url_group(bytes[0], bytes[1], bytes[2]) + base64_url_encoding(bytes.skip(3))
    }
}

/// The bytes that the padded, URL-safe Base64 text `text` stands for, or `None`
/// when `text` is not the Base64 text of any bytes. Different bytes have different
/// texts (`lemma_base64_url_encoding_injective`), so the bytes are unique.
pub open spec fn base64_url_decoding(text: Seq<char>) -> Option<Seq<u8>> {
    if exists|bytes: Seq<u8>| base64_url_encoding(bytes) == text {
        Some(choose|bytes: Seq<u8>| base64_url_encoding(bytes) == text)
    } else {
        None
    }
}

/// A character of the URL-safe Base64 alphabet, or the padding character.
pub open spec fn is_base64_url_char(c: char) -> bool {
    ('A' <= c <= 'Z') || ('a' <= c <= 'z') || ('0' <= c <= '9') || c == '-' || c == '_' || c
        == '='
}

/// Length of the padded Base64 text of `n` bytes: four characters for every three
/// bytes, the last group padded.
pub open spec fn base64_padded_len(n: nat) -> nat {
    4 * ((n + 2) / 3)
}

/// A six-bit value stands for a character of the alphabet, never for the padding
/// character; different values stand for different characters.
pub proof fn lemma_base64_url_digit(v: int, w: int)
    requires
        0 <= v < 64,
        0 <= w < 64,
    ensures
        is_base64_url_char(base64_url_digit(v)),
        base64_url_digit(v) != '=',
        base64_url_digit(v) == base64_url_digit(w) ==> v == w,
{
    if v < 26 {
        assert(base64_url_digit(v) as int == 65 + v);
    } else if v < 52 {
        assert(base64_url_digit(v) as int == 71 + v);
    } else if v < 62 {
        assert(base64_url_digit(v) as int == v - 4);
    }
    if w < 26 {
        assert(base64_url_digit(w) as int == 65 + w);
    } else if w < 52 {
        assert(base64_url_digit(w) as int == 71 + w);
    } else if w < 62 {
        assert(base64_url_digit(w) as int == w - 4);
    }
}

/// The Base64 text of `n` bytes is `base64_padded_len(n)` characters long, all of
/// the URL-safe alphabet or the padding character.
pub proof fn lemma_base64_url_encoding_shape(bytes: Seq<u8>)
    ensures
        base64_url_encoding(bytes).len() == base64_padded_len(bytes.len()),
        forall|i: int|
            0 <= i < base64_url_encoding(bytes).len() ==> is_base64_url_char(
                #[trigger] base64_url_encoding(bytes)[i],
            ),
    decreases bytes.len(),
{
    let t = base64_url_encoding(bytes);
    if bytes.len() == 0 {
    } else if bytes.len() == 1 {
        lemma_base64_url_digit(bytes[0] as int / 4, 0);
        lemma_base64_url_digit((bytes[0] as int % 4) * 16, 0);
    } else if bytes.len() == 2 {
        lemma_base64_url_digit(bytes[0] as int / 4, 0);
        lemma_base64_url_digit((bytes[0] as int % 4) * 16 + bytes[1] as int / 16, 0);
        lemma_base64_url_digit((bytes[1] as int % 16) * 4, 0);
    } else {
        let rest = bytes.skip(3);
        lemma_base64_url_encoding_shape(rest);
        let g = base64_url_group(bytes[0], bytes[1], bytes[2]);
        lemma_base64_url_digit(bytes[0] as int / 4, 0);
        lemma_base64_url_digit((bytes[0] as int % 4) * 16 + bytes[1] as int / 16, 0);
        lemma_base64_url_digit((bytes[1] as int % 16) * 4 + bytes[2] as int / 64, 0);
        lemma_base64_url_digit(bytes[2] as int % 64, 0);
        assert(t == g + base64_url_encoding(rest));
        assert forall|i: int| 0 <= i < t.len() implies is_base64_url_char(#[trigger] t[i]) by {
            if i >= 4 {
                assert(t[i] == base64_url_encoding(rest)[i - 4]);
            }
        }
    }
}

/// Three bytes are given back by the four characters that stand for them.
proof fn lemma_base64_url_group_injective(a0: u8, a1: u8, a2: u8, b0: u8, b1: u8, b2: u8)
    requires
        base64_url_group(a0, a1, a2) == base64_url_group(b0, b1, b2),
    ensures
        a0 == b0 && a1 == b1 && a2 == b2,
{
    let ga = base64_url_group(a0, a1, a2);
    let gb = base64_url_group(b0, b1, b2);
    assert(ga[0] == gb[0] && ga[1] == gb[1] && ga[2] == gb[2] && ga[3] == gb[3]);
    lemma_base64_url_digit(a0 as int / 4, b0 as int / 4);
    lemma_base64_url_digit((a0 as int % 4) * 16 + a1 as int / 16, (b0 as int % 4) * 16 + b1 as int / 16);
    lemma_base64_url_digit((a1 as int % 16) * 4 + a2 as int / 64, (b1 as int % 16) * 4 + b2 as int / 64);
    lemma_base64_url_digit(a2 as int % 64, b2 as int % 64);
}

/// Different bytes have different Base64 texts, so a text is decoded to the bytes
/// it was made of.
pub proof fn lemma_base64_url_encoding_injective(a: Seq<u8>, b: Seq<u8>)
    requires
        base64_url_encoding(a) == base64_url_encoding(b),
    ensures
        a == b,
    decreases a.len(),
{
    let t = base64_url_encoding(a);
    lemma_base64_url_encoding_shape(a);
    lemma_base64_url_encoding_shape(b);
    if a.len() >= 3 && b.len() >= 3 {
        let ga = base64_url_group(a[0], a[1], a[2]);
        let gb = base64_url_group(b[0], b[1], b[2]);
        assert(t == ga + base64_url_encoding(a.skip(3)));
        assert(t == gb + base64_url_encoding(b.skip(3)));
        assert(ga =~= t.take(4));
        assert(gb =~= t.take(4));
        assert(base64_url_encoding(a.skip(3)) =~= t.skip(4));
        assert(base64_url_encoding(b.skip(3)) =~= t.skip(4));
        lemma_base64_url_group_injective(a[0], a[1], a[2], b[0], b[1], b[2]);
        lemma_base64_url_encoding_injective(a.skip(3), b.skip(3));
        assert(a =~= seq![a[0], a[1], a[2]] + a.skip(3));
        assert(b =~= seq![b[0], b[1], b[2]] + b.skip(3));
    } else if a.len() >= 3 || b.len() >= 3 {
        let (long, short) = if a.len() >= 3 { (a, b) } else { (b, a) };
        // The texts are equally long, so the shorter one is a single padded group.
        assert(long.len() == 3);
        let g = base64_url_group(long[0], long[1], long[2]);
        assert(base64_url_encoding(long.skip(3)) =~= Seq::<char>::empty());
        assert(base64_url_encoding(long) =~= g);
        lemma_base64_url_digit(long[2] as int % 64, 0);
        assert(t[3] == g[3]);
    } else if a.len() == 0 || b.len() == 0 {
    } else {
        lemma_base64_url_digit((a[0] as int % 4) * 16 + if a.len() == 2 { a[1] as int / 16 } else { 0 }, 0);
        lemma_base64_url_digit((b[0] as int % 4) * 16 + if b.len() == 2 { b[1] as int / 16 } else { 0 }, 0);
        if a.len() == 2 {
            lemma_base64_url_digit((a[1] as int % 16) * 4, 0);
        }
        if b.len() == 2 {
            lemma_base64_url_digit((b[1] as int % 16) * 4, 0);
        }
        assert(a.len() == b.len());
        lemma_base64_url_digit(a[0] as int / 4, b[0] as int / 4);
        if a.len() == 1 {
            lemma_base64_url_digit((a[0] as int % 4) * 16, (b[0] as int % 4) * 16);
            assert(a =~= b);
        } else {
            lemma_base64_url_digit((a[0] as int % 4) * 16 + a[1] as int / 16, (b[0] as int % 4) * 16 + b[1] as int / 16);
            lemma_base64_url_digit((a[1] as int % 16) * 4, (b[1] as int % 16) * 4);
            assert(a =~= b);
        }
    }
}

/// The Base64 text of `bytes` decodes to `bytes`.
pub proof fn lemma_base64_url_decoding_of_encoding(bytes: Seq<u8>)
    ensures
        base64_url_decoding(base64_url_encoding(bytes)) == Some(bytes),
{
    let t = base64_url_encoding(bytes);
    assert(base64_url_encoding(bytes) == t);
    let c = choose|b: Seq<u8>| base64_url_encoding(b) == t;
    lemma_base64_url_encoding_injective(c, bytes);
}

/// Calls `SaltString::encode_b64` on `salt` and then
/// `Argon2::default().hash_password(password, &salt)`, and renders the resulting
/// `PasswordHash` as its PHC string. Trusted: the result is the PHC string named by
/// `argon2_phc_string`, and Argon2's own verification accepts `password` against
/// it (the round trip that the password-hash documentation describes). The salt
/// must encode to between 4 and 64 Base64 characters, which `Salt` demands and
/// `hash_password` would otherwise panic on; Argon2 then refuses salts shorter than
/// 8 bytes and passwords longer than `u32::MAX` bytes, and accepts all else.
#[verifier::external_body]
pub(crate) fn argon2_hash_password(password: &[u8], salt: &[u8]) -> (r: Option<String>)
    requires
        3 <= salt@.len() <= 48,
    ensures
        r matches Some(phc) ==> phc@ == argon2_phc_string(password@, salt@)
            && argon2_password_matches(phc@, password@),
        r is Some <==> (8 <= salt@.len() && password@.len() <= 0xFFFF_FFFF),
{
    let salt = argon2::password_hash::SaltString::encode_b64(salt).ok()?;
    match argon2::Argon2::default().hash_password(password, &salt) {
        Ok(hash) => Some(hash.to_string()),
        Err(_) => None,
    }
}

/// Calls `PasswordHash::new(phc)` and then
/// `Argon2::default().verify_password(password, &hash)`. Trusted: the result is the
/// value named by `argon2_password_matches`; a string that does not parse as a PHC
/// string is reported as not matching.
#[verifier::external_body]
pub(crate) fn argon2_verify_password(phc: &str, password: &[u8]) -> (r: bool)
    ensures
        r == argon2_password_matches(phc@, password@),
{
    match argon2::PasswordHash::new(phc) {
        Ok(hash) => argon2::Argon2::default().verify_password(password, &hash).is_ok(),
        Err(_) => false,
    }
}

/// Calls `getrandom::fill` on a buffer of `len` bytes. Trusted: a filled buffer has
/// `len` bytes. Nothing is stated of the bytes themselves, which come from the
/// operating system; `None` when the call fails.
#[verifier::external_body]
pub(crate) fn random_bytes(len: usize) -> (r: Option<Vec<u8>>)
    ensures
        r matches Some(v) ==> v@.len() == len,
{
    let mut buf = vec![0u8; len];
    match getrandom::fill(&mut buf) {
        Ok(()) => Some(buf),
        Err(_) => None,
    }
}

/// Calls `sha2::Sha256::digest(data)`. Trusted: the result is the value named by
/// `sha256`, and a SHA-256 digest is 32 bytes long.
#[verifier::external_body]
pub(crate) fn sha256_digest(data: &[u8]) -> (r: Vec<u8>)
    ensures
        r@ == sha256(data@),
        r@.len() == 32,
{
    sha2::Sha256::digest(data).to_vec()
}

/// Calls `Engine::encode` of `base64::engine::general_purpose::URL_SAFE`.
/// Trusted: the result is the padded, URL-safe Base64 text that
/// `base64_url_encoding` spells out (the RFC 4648 encoding with the URL-safe
/// alphabet that the crate documents).
#[verifier::external_body]
pub(crate) fn base64_url_encode(bytes: &[u8]) -> (r: String)
    requires
        bytes@.len() <= 0x1000_0000,
    ensures
        r@ == base64_url_encoding(bytes@),
{
    base64::engine::general_purpose::URL_SAFE.encode(bytes)
}

/// Calls `Engine::decode` of `base64::engine::general_purpose::URL_SAFE`.
/// Trusted: this engine decodes canonical padded text only (its configuration
/// requires canonical padding and zero trailing bits), so decoding succeeds
/// exactly on the Base64 text of some bytes, and gives those bytes. A decoding
/// error is reported as `None`.
#[verifier::external_body]
pub(crate) fn base64_url_decode(text: &str) -> (r: Option<Vec<u8>>)
    ensures
        r is Some <==> exists|bytes: Seq<u8>| base64_url_encoding(bytes) == text@,
        r matches Some(v) ==> base64_url_encoding(v@) == text@,
{
    base64::engine::general_purpose::URL_SAFE.decode(text).ok()
}

/// Calls `rcgen::generate_simple_self_signed` with the single subject alternative
/// name `subject_alt_name`, and returns the certificate in DER, the private key in
/// PKCS#8 DER, the certificate in PEM and the private key in PEM; `None` when the
/// call fails. Nothing is stated of them: the key is drawn at random.
#[verifier::external_body]
pub(crate) fn rcgen_self_signed(subject_alt_name: &str) -> (r: Option<
    (Vec<u8>, Vec<u8>, String, String),
>) {
    let certified = rcgen::generate_simple_self_signed(vec![subject_alt_name.to_string()]).ok()?;
    Some(
        (
            certified.cert.der().to_vec(),
            certified.signing_key.serialize_der(),
            certified.cert.pem(),
            certified.signing_key.serialize_pem(),
        ),
    )
}

} // verus!
