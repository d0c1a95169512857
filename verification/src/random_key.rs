//! Random keys and identifiers: bytes drawn from the operating system's random
//! source, written as padded URL-safe Base64 text.
use vstd::prelude::*;
use vstd::utf8::{is_ascii_chars, is_ascii_chars_encode_utf8};

use crate::crypto::{
    base64_padded_len, base64_url_encode, base64_url_encoding, is_base64_url_char,
    lemma_base64_url_encoding_injective, lemma_base64_url_encoding_shape, random_bytes,
};
use crate::types::text::{is_short_identifier, utf8_len};
use crate::types::{AuthKey, EgressId, IngressId, ServerId};

verus! {

/// `text` is the Base64 text of some `len` bytes: `base64_padded_len(len)`
/// characters of the URL-safe alphabet.
pub open spec fn is_random_key_text(text: Seq<char>, len: nat) -> bool {
    &&& text.len() == base64_padded_len(len)
    &&& exists|bytes: Seq<u8>| bytes.len() == len && text == base64_url_encoding(bytes)
}

/// A text written with the Base64 alphabet is ASCII: it takes one UTF-8 byte per
/// character.
pub proof fn lemma_base64_text_utf8_len(text: Seq<char>)
    requires
        forall|i: int| 0 <= i < text.len() ==> is_base64_url_char(#[trigger] text[i]),
    ensures
        utf8_len(text) == text.len(),
{
    assert(is_ascii_chars(text)) by {
        assert forall|i: int| 0 <= i < text.len() implies '\0' <= #[trigger] text[i] <= '\u{7f}' by {
            assert(is_base64_url_char(text[i]));
        }
    }
    is_ascii_chars_encode_utf8(text);
}

/// Keys and ids drawn as different bytes have different texts: two generated ids
/// are equal only when their random draws were.
pub proof fn lemma_key_texts_of_different_draws_differ(a: Seq<u8>, b: Seq<u8>)
    requires
        a != b,
    ensures
        base64_url_encoding(a) != base64_url_encoding(b),
{
    if base64_url_encoding(a) == base64_url_encoding(b) {
        lemma_base64_url_encoding_injective(a, b);
    }
}

/// Draws `L` random bytes and returns their padded URL-safe Base64 text. `None`
/// when the random source fails.
pub fn generate_secure_random_key<const L: usize>() -> (r: Option<String>)
    requires
        L <= 0x1000_0000,
    ensures
        r matches Some(k) ==> is_random_key_text(k@, L as nat) && k@.len() == base64_padded_len(
            L as nat,
        ) && forall|i: int| 0 <= i < k@.len() ==> is_base64_url_char(#[trigger] k@[i]),
{
    let bytes = random_bytes(L)?;
    Some(key_text(&bytes))
}

/// The padded URL-safe Base64 text of `bytes`: the text of a key drawn as those
/// bytes.
pub fn key_text(bytes: &[u8]) -> (r: String)
    requires
        bytes@.len() <= 0x1000_0000,
    ensures
        r@ == base64_url_encoding(bytes@),
        r@.len() == base64_padded_len(bytes@.len()),
        forall|i: int| 0 <= i < r@.len() ==> is_base64_url_char(#[trigger] r@[i]),
{
    let r = base64_url_encode(bytes);
    proof {
        lemma_base64_url_encoding_shape(bytes@);
    }
    r
}

/// A random key of `L` bytes, known to make a valid identifier (between 1 and 255
/// UTF-8 bytes).
fn random_identifier<const L: usize>() -> (r: Option<String>)
    requires
        1 <= L <= 189,
    ensures
        r matches Some(k) ==> is_short_identifier(k@) && is_random_key_text(k@, L as nat)
            && k@.len() == base64_padded_len(L as nat),
{
    let key = generate_secure_random_key::<L>()?;
    proof {
        lemma_base64_text_utf8_len(key@);
        assert(base64_padded_len(L as nat) <= 252) by (nonlinear_arith)
            requires
                1 <= L <= 189,
        ;
        assert(base64_padded_len(L as nat) >= 4) by (nonlinear_arith)
            requires
                1 <= L,
        ;
    }
    Some(key)
}

/// A fresh ingress id: the Base64 text of 16 random bytes, 24 characters. `None`
/// when the random source fails.
pub fn generate_ingress_id() -> (r: Option<IngressId>)
    ensures
        r matches Some(id) ==> is_random_key_text(id@, 16) && id@.len() == 24,
{
    let key = random_identifier::<16>()?;
    match IngressId::new(key.as_str()) {
        Ok(id) => Some(id),
        Err(_) => None,
    }
}

/// A fresh egress id: the Base64 text of 16 random bytes, 24 characters. `None`
/// when the random source fails.
pub fn generate_egress_id() -> (r: Option<EgressId>)
    ensures
        r matches Some(id) ==> is_random_key_text(id@, 16) && id@.len() == 24,
{
    let key = random_identifier::<16>()?;
    match EgressId::new(key.as_str()) {
        Ok(id) => Some(id),
        Err(_) => None,
    }
}

/// A fresh server id: the Base64 text of 16 random bytes, 24 characters. `None`
/// when the random source fails.
pub fn generate_server_id() -> (r: Option<ServerId>)
    ensures
        r matches Some(id) ==> is_random_key_text(id@, 16) && id@.len() == 24,
{
    let key = random_identifier::<16>()?;
    match ServerId::new(key.as_str()) {
        Ok(id) => Some(id),
        Err(_) => None,
    }
}

/// A fresh auth key: the Base64 text of 32 random bytes, 44 characters. `None`
/// when the random source fails.
pub fn generate_auth_key() -> (r: Option<AuthKey>)
    ensures
        r matches Some(k) ==> is_random_key_text(k@, 32) && k@.len() == 44,
{
    let key = random_identifier::<32>()?;
    match AuthKey::new(key.as_str()) {
        Ok(k) => Some(k),
        Err(_) => None,
    }
}

} // verus!
