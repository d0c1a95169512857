//! Identifiers of servers.
use vstd::prelude::*;
use vstd::std_specs::cmp::PartialEqSpecImpl;
use vstd::string::*;

use crate::error::Error;
use crate::types::text::{is_short_identifier, spec_text_of, text_of, utf8_len};
use std::str::FromStr;

verus! {

/// Identifier of a server: between 1 and 255 UTF-8 bytes.
#[derive(Debug, Hash)]
pub struct ServerId(String);

impl View for ServerId {
    type V = Seq<char>;

    closed spec fn view(&self) -> Seq<char> {
        self.0@
    }
}

impl PartialEq for ServerId {
    fn eq(&self, other: &Self) -> (r: bool) {
        self.0 == other.0
    }
}

impl PartialEqSpecImpl for ServerId {
    open spec fn obeys_eq_spec() -> bool {
        true
    }

    open spec fn eq_spec(&self, other: &ServerId) -> bool {
        self@ == other@
    }
}

impl Eq for ServerId {}

impl Clone for ServerId {
    fn clone(&self) -> (r: Self)
        ensures
            r@ == self@,
    {
        proof {
            use_type_invariant(self);
        }
        ServerId(self.0.clone())
    }
}


impl FromStr for ServerId {
    type Err = Error;

    /// Parses the text as `new` does.
    fn from_str(s: &str) -> (r: Result<Self, Error>)
        ensures
            r is Ok <==> is_short_identifier(s@),
            r matches Ok(id) ==> id@ == s@,
            r matches Err(e) ==> e is InvalidServerId,
    {
        ServerId::new(s)
    }
}
impl ServerId {
    #[verifier::type_invariant]
    spec fn well_formed(self) -> bool {
        is_short_identifier(self.0@)
    }

    /// Creates a server id. Fails with `InvalidServerId` unless `value` holds
    /// between 1 and 255 UTF-8 bytes.
    pub fn new(value: &str) -> (r: Result<Self, Error>)
        ensures
            r is Ok <==> is_short_identifier(value@),
            r matches Ok(id) ==> id@ == value@,
            r matches Err(e) ==> e is InvalidServerId,
            !is_short_identifier(value@) ==> (r matches Err(Error::InvalidServerId { reason })
                && reason@ == "Server ID has to be between 1 and 255 UTF8 bytes."@),
    {
        let n = value.as_bytes().len();
        if n == 0 || n > 255 {
            return Err(Error::InvalidServerId {
                reason: "Server ID has to be between 1 and 255 UTF8 bytes.".to_owned(),
            });
        }
        Ok(ServerId(value.to_owned()))
    }

    /// Creates a server id from its UTF-8 bytes. Fails with `InvalidServerId`
    /// when the bytes are not UTF-8 or do not make a valid server id.
    pub fn from_bytes(bytes: &[u8]) -> (r: Result<Self, Error>)
        ensures
            r is Ok <==> (spec_text_of(bytes@) matches Some(s) && is_short_identifier(s)),
            r matches Ok(id) ==> Some(id@) == spec_text_of(bytes@),
            r matches Err(e) ==> e is InvalidServerId,
            spec_text_of(bytes@) is None ==> (r matches Err(Error::InvalidServerId { reason })
                && reason@ == "Invalid server ID UTF8 bytes."@),
            (spec_text_of(bytes@) matches Some(s) && !is_short_identifier(s)) ==> (r matches Err(
                Error::InvalidServerId { reason },
            ) && reason@ == "Server ID has to be between 1 and 255 UTF8 bytes."@),
    {
        match text_of(bytes) {
            Some(s) => ServerId::new(s),
            None => Err(Error::InvalidServerId { reason: "Invalid server ID UTF8 bytes.".to_owned() }),
        }
    }

    /// The server id as text.
    pub fn to_str(&self) -> (r: &str)
        ensures
            r@ == self@,
            is_short_identifier(r@),
    {
        proof {
            use_type_invariant(self);
        }
        self.0.as_str()
    }

    /// Number of UTF-8 bytes of the server id.
    pub fn len(&self) -> (r: usize)
        ensures
            r == utf8_len(self@),
            1 <= r <= 255,
    {
        proof {
            use_type_invariant(self);
        }
        self.0.as_str().as_bytes().len()
    }
}

} // verus!
