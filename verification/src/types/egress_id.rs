//! Identifiers of egresses.
use vstd::prelude::*;
use vstd::std_specs::cmp::PartialEqSpecImpl;
use vstd::string::*;

use crate::error::Error;
use crate::types::text::{is_short_identifier, spec_text_of, text_of, utf8_len};
use std::str::FromStr;

verus! {

/// Identifier of an egress: between 1 and 255 UTF-8 bytes.
#[derive(Debug, Hash)]
pub struct EgressId(String);

impl View for EgressId {
    type V = Seq<char>;

    closed spec fn view(&self) -> Seq<char> {
        self.0@
    }
}

impl PartialEq for EgressId {
    fn eq(&self, other: &Self) -> (r: bool) {
        self.0 == other.0
    }
}

impl PartialEqSpecImpl for EgressId {
    open spec fn obeys_eq_spec() -> bool {
        true
    }

    open spec fn eq_spec(&self, other: &EgressId) -> bool {
        self@ == other@
    }
}

impl Eq for EgressId {}

impl Clone for EgressId {
    fn clone(&self) -> (r: Self)
        ensures
            r@ == self@,
    {
        proof {
            use_type_invariant(self);
        }
        EgressId(self.0.clone())
    }
}


impl FromStr for EgressId {
    type Err = Error;

    /// Parses the text as `new` does.
    fn from_str(s: &str) -> (r: Result<Self, Error>)
        ensures
            r is Ok <==> is_short_identifier(s@),
            r matches Ok(id) ==> id@ == s@,
            r matches Err(e) ==> e is InvalidEgressId,
    {
        EgressId::new(s)
    }
}
impl EgressId {
    #[verifier::type_invariant]
    spec fn well_formed(self) -> bool {
        is_short_identifier(self.0@)
    }

    /// Creates an egress id. Fails with `InvalidEgressId` unless `value` holds
    /// between 1 and 255 UTF-8 bytes.
    pub fn new(value: &str) -> (r: Result<Self, Error>)
        ensures
            r is Ok <==> is_short_identifier(value@),
            r matches Ok(id) ==> id@ == value@,
            r matches Err(e) ==> e is InvalidEgressId,
            !is_short_identifier(value@) ==> (r matches Err(Error::InvalidEgressId { reason })
                && reason@ == "Egress ID has to be between 1 and 255 UTF8 bytes."@),
    {
        let n = value.as_bytes().len();
        if n == 0 || n > 255 {
            return Err(Error::InvalidEgressId {
                reason: "Egress ID has to be between 1 and 255 UTF8 bytes.".to_owned(),
            });
        }
        Ok(EgressId(value.to_owned()))
    }

    /// Creates an egress id from its UTF-8 bytes. Fails with `InvalidEgressId`
    /// when the bytes are not UTF-8 or do not make a valid egress id.
    pub fn from_bytes(bytes: &[u8]) -> (r: Result<Self, Error>)
        ensures
            r is Ok <==> (spec_text_of(bytes@) matches Some(s) && is_short_identifier(s)),
            r matches Ok(id) ==> Some(id@) == spec_text_of(bytes@),
            r matches Err(e) ==> e is InvalidEgressId,
            spec_text_of(bytes@) is None ==> (r matches Err(Error::InvalidEgressId { reason })
                && reason@ == "Invalid egress ID UTF8 bytes."@),
            (spec_text_of(bytes@) matches Some(s) && !is_short_identifier(s)) ==> (r matches Err(
                Error::InvalidEgressId { reason },
            ) && reason@ == "Egress ID has to be between 1 and 255 UTF8 bytes."@),
    {
        match text_of(bytes) {
            Some(s) => EgressId::new(s),
            None => Err(Error::InvalidEgressId { reason: "Invalid egress ID UTF8 bytes.".to_owned() }),
        }
    }

    /// The egress id as text.
    pub fn to_str(&self) -> (r: &str)
        ensures
            r@ == self@,
            is_short_identifier(r@),
    {
        proof {
            use_type_invariant(self);
        }
        self.0.as_str()
    }

    /// Number of UTF-8 bytes of the egress id.
    pub fn len(&self) -> (r: usize)
        ensures
            r == utf8_len(self@),
            1 <= r <= 255,
    {
        proof {
            use_type_invariant(self);
        }
        self.0.as_str().as_bytes().len()
    }
}

} // verus!
