//! Application close codes carried by QUIC `CONNECTION_CLOSE` and `RESET_STREAM`
//! frames. The QUIC layer turns them into variable-length integers.
use vstd::prelude::*;

verus! {

// Connection codes.

/// The tunnel was closed on purpose by one of its ends.
pub const CONNECTION_EOF: u32 = 0;

/// The command stream of the tunnel was closed.
pub const COMMAND_STREAM_CLOSED: u32 = 1;

/// The server rejected the ingress id sent in the auth frame.
pub const REJECTED_INGRESS_ID: u32 = 2;

/// The server rejected the auth key sent in the auth frame.
pub const REJECTED_AUTH_KEY: u32 = 3;

// Stream codes.

/// The stream was closed on purpose by one of its ends.
pub const STREAM_EOF: u32 = 2000;

/// Copying data through the stream failed.
pub const DATA_STREAM_ERROR: u32 = 2001;

// Common codes.

/// A value received from the peer is invalid.
pub const INVALID_VALUE: u32 = 3000;

/// A frame that the protocol does not allow at this point was received.
pub const UNEXPECTED_FRAME_RECEIVED: u32 = 3001;

/// An expected frame did not arrive on time.
pub const FRAME_NOT_RECEIVED_ON_TIME: u32 = 3002;

/// Any other failure.
pub const UNKNOWN_ERROR: u32 = 3999;

} // verus!
