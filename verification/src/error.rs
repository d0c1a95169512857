//! The errors of the tunnel, their messages, and the error that each way of closing
//! a QUIC connection stands for.
use vstd::prelude::*;
use vstd::string::*;

use crate::code::{CONNECTION_EOF, REJECTED_AUTH_KEY, REJECTED_INGRESS_ID};
use crate::types::{EgressId, IngressId};

verus! {

/// Errors of the tunnel library.
#[derive(Debug)]
pub enum Error {
    FrameNotReceivedOnTime(String),
    RejectedIngressId,
    RejectedAuthKey,
    UnexpectedFrameReceived(String),
    Unknown(String),
    AuthFrameNotReceived,
    ConnectionClosed,
    ClosedTunnel,
    ClosedStream,
    EgressAlreadyStarted,
    EgressNotStarted,
    IngressNoTunnelConnected,
    IngressAlreadyListening,
    IngressNotListening,
    IngressAlreadyStarted,
    IngressNotStarted,
    NoTunnelAvailable,
    InvalidAuthKey { reason: String },
    InvalidIngressId { reason: String },
    InvalidEgressId { reason: String },
    InvalidServerId { reason: String },
    InvalidTunnelName { reason: String },
    IncompatibleVersion { expected: u8, received: u8 },
    ServerAlreadyListening,
    ServerNotListening,
    IngressIDAlreadyAssigned(IngressId),
    EgressIDAlreadyAssigned(EgressId),
    TLS(String),
    IO(String),
    PoisonLock(String),
}

/// The way a QUIC connection was closed, as reported by the QUIC layer.
pub enum ConnectionClose {
    /// The peer closed the connection with an application close code.
    Application { code: u64, description: String },
    /// The transport layer closed the connection with a transport error code.
    Transport { code: u64, description: String },
    /// Any other reason (timeout, reset, local close, ...).
    Other { description: String },
}

/// QUIC transport error code reported when the TLS handshake fails because the
/// server certificate does not have the pinned hash.
pub const CERTIFICATE_HASH_MISMATCH_CODE: u64 = 296;

/// The library error that a closed connection stands for.
pub open spec fn spec_error_from_connection_close(close: ConnectionClose) -> Error {
    match close {
        ConnectionClose::Application { code, description } => {
            if code == CONNECTION_EOF as u64 {
                Error::ClosedTunnel
            } else if code == REJECTED_AUTH_KEY as u64 {
                Error::RejectedAuthKey
            } else if code == REJECTED_INGRESS_ID as u64 {
                Error::RejectedIngressId
            } else {
                Error::Unknown(description)
            }
        },
        ConnectionClose::Transport { code, description } => {
            if code == CERTIFICATE_HASH_MISMATCH_CODE {
                Error::TLS(description)
            } else {
                Error::Unknown(description)
            }
        },
        ConnectionClose::Other { description } => Error::Unknown(description),
    }
}

impl Error {
    /// Maps the close reason of a QUIC connection to a library error: the close codes
    /// that the library sends itself become their own variants.
    pub fn from_connection_close(close: ConnectionClose) -> (e: Error)
        ensures
            e == spec_error_from_connection_close(close),
    {
        match close {
            ConnectionClose::Application { code, description } => {
                if code == CONNECTION_EOF as u64 {
                    Error::ClosedTunnel
                } else if code == REJECTED_AUTH_KEY as u64 {
                    Error::RejectedAuthKey
                } else if code == REJECTED_INGRESS_ID as u64 {
                    Error::RejectedIngressId
                } else {
                    Error::Unknown(description)
                }
            },
            ConnectionClose::Transport { code, description } => {
                if code == CERTIFICATE_HASH_MISMATCH_CODE {
                    Error::TLS(description)
                } else {
                    Error::Unknown(description)
                }
            },
            ConnectionClose::Other { description } => Error::Unknown(description),
        }
    }
}

/// The decimal digits of `n`.
pub open spec fn spec_decimal(n: nat) -> Seq<char>
    decreases n,
{
    let digit = seq![(('0' as u32) + (n % 10) as u32) as char];
    if n < 10 {
        digit
    } else {
        spec_decimal(n / 10) + digit
    }
}

/// The decimal digit `d`.
fn digit_text(d: u8) -> (r: String)
    requires
        d < 10,
    ensures
        r@ == seq![(('0' as u32) + d as u32) as char],
{
    let r = if d == 0 {
        "0"
    } else if d == 1 {
        "1"
    } else if d == 2 {
        "2"
    } else if d == 3 {
        "3"
    } else if d == 4 {
        "4"
    } else if d == 5 {
        "5"
    } else if d == 6 {
        "6"
    } else if d == 7 {
        "7"
    } else if d == 8 {
        "8"
    } else {
        "9"
    };
    proof {
        reveal_strlit("0");
        reveal_strlit("1");
        reveal_strlit("2");
        reveal_strlit("3");
        reveal_strlit("4");
        reveal_strlit("5");
        reveal_strlit("6");
        reveal_strlit("7");
        reveal_strlit("8");
        reveal_strlit("9");
    }
    r.to_owned()
}

/// The decimal digits of `n`.
fn decimal_text(n: u8) -> (r: String)
    ensures
        r@ == spec_decimal(n as nat),
{
    if n < 10 {
        digit_text(n)
    } else if n < 100 {
        let mut r = digit_text(n / 10);
        r.append(digit_text(n % 10).as_str());
        proof {
            reveal_with_fuel(spec_decimal, 2);
        }
        r
    } else {
        let mut r = digit_text(n / 100);
        r.append(digit_text((n / 10) % 10).as_str());
        r.append(digit_text(n % 10).as_str());
        proof {
            reveal_with_fuel(spec_decimal, 3);
            assert((n / 10) / 10 == n / 100);
        }
        r
    }
}

/// `prefix` followed by `text`.
pub(crate) fn joined(prefix: &str, text: &str) -> (r: String)
    ensures
        r@ == prefix@ + text@,
{
    let mut r = prefix.to_owned();
    r.append(text);
    r
}

/// The message of an error.
pub open spec fn spec_message(e: Error) -> Seq<char> {
    match e {
        Error::FrameNotReceivedOnTime(s) => "Frame not received on time: "@ + s@,
        Error::RejectedIngressId => "Rejected ingress Id."@,
        Error::RejectedAuthKey => "Rejected auth key."@,
        Error::UnexpectedFrameReceived(s) => "Unexpected frame received: "@ + s@,
        Error::Unknown(s) => "Unknown error: "@ + s@,
        Error::AuthFrameNotReceived => "Auth frame not received"@,
        Error::ConnectionClosed => "Connection closed"@,
        Error::ClosedTunnel => "Closed tunnel"@,
        Error::ClosedStream => "Closed stream"@,
        Error::EgressAlreadyStarted => "Egress is already started"@,
        Error::EgressNotStarted => "Egress is not started"@,
        Error::IngressNoTunnelConnected => "Ingress has no tunnel connected"@,
        Error::IngressAlreadyListening => "Ingress is already listening"@,
        Error::IngressNotListening => "Ingress is not listening"@,
        Error::IngressAlreadyStarted => "Ingress is already started"@,
        Error::IngressNotStarted => "Ingress is not started"@,
        Error::NoTunnelAvailable => "No tunnel available"@,
        Error::InvalidAuthKey { reason } => "Invalid auth_key reason="@ + reason@,
        Error::InvalidIngressId { reason } => "Invalid ingress_id reason="@ + reason@,
        Error::InvalidEgressId { reason } => "Invalid egress_id reason="@ + reason@,
        Error::InvalidServerId { reason } => "Invalid server_id reason="@ + reason@,
        Error::InvalidTunnelName { reason } => "Invalid tunnel_name reason="@ + reason@,
        Error::IncompatibleVersion { expected, received } => "Incompatible version expected="@
            + spec_decimal(expected as nat) + ", received="@ + spec_decimal(received as nat),
        Error::ServerAlreadyListening => "Server is already listening"@,
        Error::ServerNotListening => "Server is not listening"@,
        Error::IngressIDAlreadyAssigned(id) => "Ingress ID "@ + id@ + " already assigned"@,
        Error::EgressIDAlreadyAssigned(id) => "Egress ID "@ + id@ + " already assigned"@,
        Error::TLS(s) => "Unknown error: "@ + s@,
        Error::IO(s) => "IO error: "@ + s@,
        Error::PoisonLock(s) => "Lock poisoned: "@ + s@,
    }
}

impl Error {
    /// The human-readable message of the error.
    pub fn message(&self) -> (r: String)
        ensures
            r@ == spec_message(*self),
    {
        match self {
            Error::FrameNotReceivedOnTime(s) => joined("Frame not received on time: ", s.as_str()),
            Error::RejectedIngressId => "Rejected ingress Id.".to_owned(),
            Error::RejectedAuthKey => "Rejected auth key.".to_owned(),
            Error::UnexpectedFrameReceived(s) => joined("Unexpected frame received: ", s.as_str()),
            Error::Unknown(s) => joined("Unknown error: ", s.as_str()),
            Error::AuthFrameNotReceived => "Auth frame not received".to_owned(),
            Error::ConnectionClosed => "Connection closed".to_owned(),
            Error::ClosedTunnel => "Closed tunnel".to_owned(),
            Error::ClosedStream => "Closed stream".to_owned(),
            Error::EgressAlreadyStarted => "Egress is already started".to_owned(),
            Error::EgressNotStarted => "Egress is not started".to_owned(),
            Error::IngressNoTunnelConnected => "Ingress has no tunnel connected".to_owned(),
            Error::IngressAlreadyListening => "Ingress is already listening".to_owned(),
            Error::IngressNotListening => "Ingress is not listening".to_owned(),
            Error::IngressAlreadyStarted => "Ingress is already started".to_owned(),
            Error::IngressNotStarted => "Ingress is not started".to_owned(),
            Error::NoTunnelAvailable => "No tunnel available".to_owned(),
            Error::InvalidAuthKey { reason } => joined("Invalid auth_key reason=", reason.as_str()),
            Error::InvalidIngressId { reason } => joined(
                "Invalid ingress_id reason=",
                reason.as_str(),
            ),
            Error::InvalidEgressId { reason } => joined(
                "Invalid egress_id reason=",
                reason.as_str(),
            ),
            Error::InvalidServerId { reason } => joined(
                "Invalid server_id reason=",
                reason.as_str(),
            ),
            Error::InvalidTunnelName { reason } => joined(
                "Invalid tunnel_name reason=",
                reason.as_str(),
            ),
            Error::IncompatibleVersion { expected, received } => {
                let mut r = joined("Incompatible version expected=", decimal_text(*expected).as_str());
                r.append(", received=");
                r.append(decimal_text(*received).as_str());
                r
            },
            Error::ServerAlreadyListening => "Server is already listening".to_owned(),
            Error::ServerNotListening => "Server is not listening".to_owned(),
            Error::IngressIDAlreadyAssigned(id) => {
                let mut r = joined("Ingress ID ", id.value());
                r.append(" already assigned");
                r
            },
            Error::EgressIDAlreadyAssigned(id) => {
                let mut r = joined("Egress ID ", id.to_str());
                r.append(" already assigned");
                r
            },
            Error::TLS(s) => joined("Unknown error: ", s.as_str()),
            Error::IO(s) => joined("IO error: ", s.as_str()),
            Error::PoisonLock(s) => joined("Lock poisoned: ", s.as_str()),
        }
    }
}

} // verus!
