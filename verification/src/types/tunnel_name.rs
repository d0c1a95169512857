//! Names of tunnels.
use vstd::prelude::*;
use vstd::std_specs::cmp::PartialEqSpecImpl;
use vstd::string::*;

use crate::error::Error;
use crate::types::text::{spec_text_of, text_of, utf8_len};
use std::str::FromStr;

verus! {

/// Name of a tunnel: at most 255 UTF-8 bytes, possibly empty.
#[derive(Debug, Hash)]
pub struct TunnelName(String);

/// A tunnel name fits in a one-byte length prefix.
pub open spec fn is_tunnel_name(s: Seq<char>) -> bool {
    utf8_len(s) <= 255
}

impl View for TunnelName {
    type V = Seq<char>;

    closed spec fn view(&self) -> Seq<char> {
        self.0@
    }
}

impl PartialEq for TunnelName {
    fn eq(&self, other: &Self) -> (r: bool) {
        self.0 == other.0
    }
}

impl PartialEqSpecImpl for TunnelName {
    open spec fn obeys_eq_spec() -> bool {
        true
    }

    open spec fn eq_spec(&self, other: &TunnelName) -> bool {
        self@ == other@
    }
}

impl Eq for TunnelName {}

impl Clone for TunnelName {
    fn clone(&self) -> (r: Self)
        ensures
            r@ == self@,
    {
        proof {
            use_type_invariant(self);
        }
        TunnelName(self.0.clone())
    }
}


impl FromStr for TunnelName {
    type Err = Error;

    /// Parses the text as `new` does.
    fn from_str(s: &str) -> (r: Result<Self, Error>)
        ensures
            r is Ok <==> is_tunnel_name(s@),
            r matches Ok(n) ==> n@ == s@,
            r matches Err(e) ==> e is InvalidIngressId,
    {
        TunnelName::new(s)
    }
}
impl TunnelName {
    #[verifier::type_invariant]
    spec fn well_formed(self) -> bool {
        is_tunnel_name(self.0@)
    }

    /// Creates a tunnel name from its UTF-8 bytes. Fails with `InvalidTunnelName`
    /// when the bytes are not UTF-8, and as `new` does when they are too long.
    pub fn from_bytes(bytes: &[u8]) -> (r: Result<TunnelName, Error>)
        ensures
            r is Ok <==> (spec_text_of(bytes@) matches Some(s) && is_tunnel_name(s)),
            r matches Ok(n) ==> Some(n@) == spec_text_of(bytes@),
            spec_text_of(bytes@) is None ==> (r matches Err(Error::InvalidTunnelName { reason })
                && reason@ == "Invalid tunnel name UTF8 bytes."@),
            (spec_text_of(bytes@) matches Some(s) && !is_tunnel_name(s)) ==> (r matches Err(
                Error::InvalidIngressId { reason },
            ) && reason@ == "Tunnel name too long. Max length: 255"@),
    {
        match text_of(bytes) {
            Some(s) => TunnelName::new(s),
            None => Err(
                Error::InvalidTunnelName { reason: "Invalid tunnel name UTF8 bytes.".to_owned() },
            ),
        }
    }

    /// Creates a tunnel name. A name longer than 255 UTF-8 bytes is refused with
    /// the `InvalidIngressId` variant.
    pub fn new(value: &str) -> (r: Result<Self, Error>)
        ensures
            r is Ok <==> is_tunnel_name(value@),
            r matches Ok(n) ==> n@ == value@,
            r matches Err(e) ==> e is InvalidIngressId,
            !is_tunnel_name(value@) ==> (r matches Err(Error::InvalidIngressId { reason })
                && reason@ == "Tunnel name too long. Max length: 255"@),
    {
        if value.as_bytes().len() > 255 {
            return Err(
                Error::InvalidIngressId {
                    reason: "Tunnel name too long. Max length: 255".to_owned(),
                },
            );
        }
        Ok(TunnelName(value.to_owned()))
    }

    /// The tunnel name as text.
    pub fn to_str(&self) -> (r: &str)
        ensures
            r@ == self@,
            is_tunnel_name(r@),
    {
        proof {
            use_type_invariant(self);
        }
        self.0.as_str()
    }

    /// Number of UTF-8 bytes of the tunnel name.
    pub fn len(&self) -> (r: usize)
        ensures
            r == utf8_len(self@),
            r <= 255,
    {
        proof {
            use_type_invariant(self);
        }
        self.0.as_str().as_bytes().len()
    }
}

} // verus!
