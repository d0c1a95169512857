//! How one direction of a tunnelled TCP connection ends. Each connection is copied
//! in two directions, TCP to tunnel stream and tunnel stream to TCP; when one
//! direction ends, this says how its writing side is closed and whether the other
//! direction is cancelled.
use vstd::prelude::*;

use crate::code::UNKNOWN_ERROR;

verus! {

/// The direction of a copy.
#[derive(Clone, Copy, Debug, PartialEq, Eq, Structural)]
pub enum CopyDirection {
    /// From the TCP connection to the tunnel stream.
    TcpToTunnel,
    /// From the tunnel stream to the TCP connection.
    TunnelToTcp,
}

/// How a copy ended.
#[derive(Clone, Copy, Debug, PartialEq, Eq, Structural)]
pub enum CopyOutcome {
    /// The reading side reached its end and everything was written.
    Completed,
    /// Reading or writing failed.
    Failed,
    /// The copy was cancelled.
    Cancelled,
}

/// How the writing side of a copy is closed.
#[derive(Clone, Copy, Debug, PartialEq, Eq, Structural)]
pub enum WriteEnd {
    /// Finish the tunnel stream: the peer reads an orderly end.
    FinishStream,
    /// Reset the tunnel stream with an error code.
    ResetStream { code: u32 },
    /// Shut the TCP connection's writing side down.
    ShutdownTcp,
}

/// What to do when a copy ends.
#[derive(Clone, Copy, Debug, PartialEq, Eq, Structural)]
pub struct CopyEnding {
    /// How the writing side is closed.
    pub write_end: WriteEnd,
    /// Whether the copy in the other direction is cancelled.
    pub cancel_other: bool,
}

/// How a copy in `direction` that ended with `outcome` is wound up: the tunnel
/// stream is finished after a completed copy and reset with `UNKNOWN_ERROR`
/// otherwise, the TCP connection is always shut down, and only a failure cancels
/// the other direction.
pub fn copy_ending(direction: CopyDirection, outcome: CopyOutcome) -> (r: CopyEnding)
    ensures
        r.cancel_other == (outcome == CopyOutcome::Failed),
        r.write_end == match direction {
            CopyDirection::TcpToTunnel => match outcome {
                CopyOutcome::Completed => WriteEnd::FinishStream,
                _ => WriteEnd::ResetStream { code: UNKNOWN_ERROR },
            },
            CopyDirection::TunnelToTcp => WriteEnd::ShutdownTcp,
        },
{
    let write_end = match direction {
        CopyDirection::TcpToTunnel => match outcome {
            CopyOutcome::Completed => WriteEnd::FinishStream,
            _ => WriteEnd::ResetStream { code: UNKNOWN_ERROR },
        },
        CopyDirection::TunnelToTcp => WriteEnd::ShutdownTcp,
    };
    let cancel_other = match outcome {
        CopyOutcome::Failed => true,
        _ => false,
    };
    CopyEnding { write_end, cancel_other }
}

} // verus!
