//! Auth keys, the secrets shared by an ingress and its egresses, and their Argon2
//! hashes, which the server keeps in their place.
use vstd::prelude::*;
use vstd::string::*;
use vstd::utf8::encode_utf8;

use crate::crypto::{argon2_hash_password, argon2_password_matches, argon2_phc_string, argon2_verify_password, random_bytes};
use crate::error::Error;
use crate::types::text::{is_short_identifier, spec_text_of, text_of, utf8_len};
use std::str::FromStr;

verus! {

/// Shared secret that an egress presents to an ingress: between 1 and 255 UTF-8
/// bytes.
#[derive(Debug)]
pub struct AuthKey(String);

impl View for AuthKey {
    type V = Seq<char>;

    closed spec fn view(&self) -> Seq<char> {
        self.0@
    }
}

impl Clone for AuthKey {
    fn clone(&self) -> (r: Self)
        ensures
            r@ == self@,
    {
        proof {
            use_type_invariant(self);
        }
        AuthKey(self.0.clone())
    }
}


impl FromStr for AuthKey {
    type Err = Error;

    /// Parses the text as `new` does.
    fn from_str(s: &str) -> (r: Result<Self, Error>)
        ensures
            r is Ok <==> is_short_identifier(s@),
            r matches Ok(k) ==> k@ == s@,
            r matches Err(e) ==> e is InvalidAuthKey,
    {
        AuthKey::new(s)
    }
}
impl AuthKey {
    #[verifier::type_invariant]
    spec fn well_formed(self) -> bool {
        is_short_identifier(self.0@)
    }

    /// Creates an auth key from its UTF-8 bytes. Fails with `InvalidAuthKey` when
    /// the bytes are not UTF-8 or do not make a valid auth key.
    pub fn from_bytes(bytes: &[u8]) -> (r: Result<AuthKey, Error>)
        ensures
            r is Ok <==> (spec_text_of(bytes@) matches Some(s) && is_short_identifier(s)),
            r matches Ok(k) ==> Some(k@) == spec_text_of(bytes@),
            r matches Err(e) ==> e is InvalidAuthKey,
            spec_text_of(bytes@) is None ==> (r matches Err(Error::InvalidAuthKey { reason })
                && reason@ == "Invalid auth key UTF8 bytes."@),
            (spec_text_of(bytes@) matches Some(s) && utf8_len(s) == 0) ==> (r matches Err(
                Error::InvalidAuthKey { reason },
            ) && reason@ == "Auth key can't be empty."@),
            (spec_text_of(bytes@) matches Some(s) && utf8_len(s) > 255) ==> (r matches Err(
                Error::InvalidAuthKey { reason },
            ) && reason@ == "Auth key max length is 255 bytes."@),
    {
        match text_of(bytes) {
            Some(s) => AuthKey::new(s),
            None => Err(Error::InvalidAuthKey { reason: "Invalid auth key UTF8 bytes.".to_owned() }),
        }
    }

    /// Creates an auth key. Fails with `InvalidAuthKey` when `value` is empty or
    /// longer than 255 UTF-8 bytes.
    pub fn new(value: &str) -> (r: Result<Self, Error>)
        ensures
            r is Ok <==> is_short_identifier(value@),
            r matches Ok(k) ==> k@ == value@,
            r matches Err(e) ==> e is InvalidAuthKey,
            utf8_len(value@) == 0 ==> (r matches Err(Error::InvalidAuthKey { reason })
                && reason@ == "Auth key can't be empty."@),
            utf8_len(value@) > 255 ==> (r matches Err(Error::InvalidAuthKey { reason })
                && reason@ == "Auth key max length is 255 bytes."@),
    {
        let n = value.as_bytes().len();
        if n == 0 {
            return Err(Error::InvalidAuthKey { reason: "Auth key can't be empty.".to_owned() });
        }
        if n > 255 {
            return Err(
                Error::InvalidAuthKey { reason: "Auth key max length is 255 bytes.".to_owned() },
            );
        }
        Ok(Self(value.to_owned()))
    }

    /// The auth key as text.
    pub fn to_str(&self) -> (r: &str)
        ensures
            r@ == self@,
            is_short_identifier(r@),
    {
        proof {
            use_type_invariant(self);
        }
        self.0.as_str()
    }

    /// Hashes the auth key with Argon2 and a fresh random salt. The resulting hash
    /// accepts this key. Fails with `Unknown` when the random source or the hasher
    /// fails.
    pub fn hash(&self) -> (r: Result<HashedAuthKey, Error>)
        ensures
            r matches Ok(h) ==> h.spec_verifies(self@) && exists|salt: Seq<u8>|
                salt.len() == SALT_LEN && h@ == #[trigger] argon2_phc_string(encode_utf8(self@), salt),
            r matches Err(e) ==> e is Unknown,
    {
        HashedAuthKey::new(self)
    }
}

/// Length in bytes of the random salt an auth key is hashed with.
pub const SALT_LEN: usize = 16;

/// Argon2 PHC string of an auth key.
#[derive(Debug, Clone)]
pub struct HashedAuthKey(String);

impl View for HashedAuthKey {
    type V = Seq<char>;

    closed spec fn view(&self) -> Seq<char> {
        self.0@
    }
}

impl HashedAuthKey {
    /// Whether this hash accepts the auth key `key`.
    pub open spec fn spec_verifies(&self, key: Seq<char>) -> bool {
        argon2_password_matches(self@, encode_utf8(key))
    }

    fn new(auth_key: &AuthKey) -> (r: Result<Self, Error>)
        ensures
            r matches Ok(h) ==> h.spec_verifies(auth_key@) && exists|salt: Seq<u8>|
                salt.len() == SALT_LEN && h@ == #[trigger] argon2_phc_string(encode_utf8(auth_key@), salt),
            r matches Err(e) ==> e is Unknown,
    {
        let salt = match random_bytes(SALT_LEN) {
            Some(salt) => salt,
            None => return Err(Error::Unknown("Random source failed.".to_owned())),
        };
        HashedAuthKey::hash_with_salt(auth_key, &salt)
    }

    /// Hashes `auth_key` with Argon2 (default parameters) and the given 16-byte
    /// salt. Always succeeds: the result is the PHC string of the key's UTF-8 bytes
    /// and the salt, and it accepts the key.
    pub fn hash_with_salt(auth_key: &AuthKey, salt: &[u8]) -> (r: Result<Self, Error>)
        requires
            salt@.len() == SALT_LEN,
        ensures
            r is Ok,
            r matches Ok(h) ==> h@ == argon2_phc_string(encode_utf8(auth_key@), salt@)
                && h.spec_verifies(auth_key@),
    {
        let key = auth_key.to_str();
        match argon2_hash_password(key.as_bytes(), salt) {
            Some(phc) => Ok(HashedAuthKey(phc)),
            None => Err(Error::Unknown("Auth key hashing failed.".to_owned())),
        }
    }

    /// Verify if the auth key matches the hashed auth key.
    pub fn verify(&self, auth_key: &AuthKey) -> (r: bool)
        ensures
            r == self.spec_verifies(auth_key@),
    {
        argon2_verify_password(self.0.as_str(), auth_key.to_str().as_bytes())
    }
}

} // verus!
