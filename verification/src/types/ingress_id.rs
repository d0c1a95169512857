//! Identifiers of ingresses.
use vstd::prelude::*;
use vstd::std_specs::cmp::PartialEqSpecImpl;
use vstd::string::*;

use crate::error::Error;
use crate::types::text::{is_short_identifier, spec_text_of, text_of, utf8_len};
use std::str::FromStr;

verus! {

/// Identifier of an ingress: between 1 and 255 UTF-8 bytes.
#[derive(Debug, Hash)]
pub struct IngressId(String);

impl View for IngressId {
    type V = Seq<char>;

    closed spec fn view(&self) -> Seq<char> {
        self.0@
    }
}

impl PartialEq for IngressId {
    fn eq(&self, other: &Self) -> (r: bool) {
        self.0 == other.0
    }
}

impl PartialEqSpecImpl for IngressId {
    open spec fn obeys_eq_spec() -> bool {
        true
    }

    open spec fn eq_spec(&self, other: &IngressId) -> bool {
        self@ == other@
    }
}

impl Eq for IngressId {}

impl Clone for IngressId {
    fn clone(&self) -> (r: Self)
        ensures
            r@ == self@,
    {
        proof {
            use_type_invariant(self);
        }
        IngressId(self.0.clone())
    }
}


impl FromStr for IngressId {
    type Err = Error;

    /// Parses the text as `new` does.
    fn from_str(s: &str) -> (r: Result<Self, Error>)
        ensures
            r is Ok <==> is_short_identifier(s@),
            r matches Ok(id) ==> id@ == s@,
            r matches Err(e) ==> e is InvalidIngressId,
    {
        IngressId::new(s)
    }
}
impl IngressId {
    #[verifier::type_invariant]
    spec fn well_formed(self) -> bool {
        is_short_identifier(self.0@)
    }

    /// Creates an ingress id. Fails with `InvalidIngressId` unless `value` holds
    /// between 1 and 255 UTF-8 bytes.
    pub fn new(value: &str) -> (r: Result<Self, Error>)
        ensures
            r is Ok <==> is_short_identifier(value@),
            r matches Ok(id) ==> id@ == value@,
            r matches Err(e) ==> e is InvalidIngressId,
            !is_short_identifier(value@) ==> (r matches Err(Error::InvalidIngressId { reason })
                && reason@ == "Ingress ID has to be between 1 and 255 UTF8 bytes."@),
    {
        let n = value.as_bytes().len();
        if n == 0 || n > 255 {
            return Err(Error::InvalidIngressId {
                reason: "Ingress ID has to be between 1 and 255 UTF8 bytes.".to_owned(),
            });
        }
        Ok(IngressId(value.to_owned()))
    }

    /// Creates an ingress id from its UTF-8 bytes. Fails with `InvalidIngressId`
    /// when the bytes are not UTF-8 or do not make a valid ingress id.
    pub fn from_bytes(bytes: &[u8]) -> (r: Result<Self, Error>)
        ensures
            r is Ok <==> (spec_text_of(bytes@) matches Some(s) && is_short_identifier(s)),
            r matches Ok(id) ==> Some(id@) == spec_text_of(bytes@),
            r matches Err(e) ==> e is InvalidIngressId,
            spec_text_of(bytes@) is None ==> (r matches Err(Error::InvalidIngressId { reason })
                && reason@ == "Invalid ingress ID UTF8 bytes."@),
            (spec_text_of(bytes@) matches Some(s) && !is_short_identifier(s)) ==> (r matches Err(
                Error::InvalidIngressId { reason },
            ) && reason@ == "Ingress ID has to be between 1 and 255 UTF8 bytes."@),
    {
        match text_of(bytes) {
            Some(s) => IngressId::new(s),
            None => Err(Error::InvalidIngressId { reason: "Invalid ingress ID UTF8 bytes.".to_owned() }),
        }
    }

    /// The ingress id as text.
    pub fn value(&self) -> (r: &str)
        ensures
            r@ == self@,
            is_short_identifier(r@),
    {
        proof {
            use_type_invariant(self);
        }
        self.0.as_str()
    }

    /// Number of UTF-8 bytes of the ingress id.
    pub fn len(&self) -> (r: u8)
        ensures
            r == utf8_len(self@),
            1 <= r,
    {
        proof {
            use_type_invariant(self);
        }
        self.0.as_str().as_bytes().len() as u8
    }
}

} // verus!
