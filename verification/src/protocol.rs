//! The decisions of version 1 of the tunnel protocol: what the server answers to the
//! first frame of a tunnel, what the client concludes from the server's answer, and
//! how both ends run the command stream. The caller performs the I/O and hands
//! each event to these functions.
use vstd::prelude::*;

use crate::code::{
    COMMAND_STREAM_CLOSED, FRAME_NOT_RECEIVED_ON_TIME, REJECTED_AUTH_KEY, REJECTED_INGRESS_ID,
    UNEXPECTED_FRAME_RECEIVED, UNKNOWN_ERROR,
};
use crate::error::{spec_error_from_connection_close, spec_message, ConnectionClose, Error};
use crate::frames::v1::{FrameV1, TunnelId};
use crate::registry::{spec_lookup, Registry};
use crate::types::{HashedAuthKey, IngressId, ServerId};

verus! {

/// Seconds that an end waits for the first frame of the other end.
pub const FIRST_FRAME_TIMEOUT_SEC: u64 = 5;

/// Seconds between two pings on the command stream.
pub const PING_INTERVAL_SEC: u64 = 5;

/// What came of waiting for the first frame on the command stream.
pub enum FirstFrame {
    /// A frame was decoded.
    Received(FrameV1),
    /// Reading or decoding failed.
    Failed(Error),
    /// The stream ended before a frame arrived.
    Ended,
    /// No frame arrived within `FIRST_FRAME_TIMEOUT_SEC` seconds.
    TimedOut,
}

/// What the server does with a new tunnel.
pub enum ServerAuthDecision<'a, V> {
    /// Accept the tunnel on the ingress registered under `ingress_id`: answer with
    /// an `Authenticated` frame and attach the tunnel to `ingress`.
    Accept { ingress_id: IngressId, ingress: &'a V },
    /// Close the connection with `code` and `reason`, and fail with `error`.
    Reject { code: u32, reason: String, error: Error },
    /// Fail with `error`; the connection is already gone.
    Abandon { error: Error },
}

/// Decides what the server does with the first frame of a new tunnel: an `Auth`
/// frame is accepted when its ingress id is registered and the ingress's hashed
/// auth key accepts its auth key; anything else is refused.
pub fn server_authenticate<'a, V>(
    ingresses: &'a Registry<IngressId, (HashedAuthKey, V)>,
    first_frame: FirstFrame,
) -> (r: ServerAuthDecision<'a, V>)
    requires
        ingresses.well_formed(),
    ensures
        match first_frame {
            FirstFrame::Received(FrameV1::Auth { auth_key, ingress_id }) => match spec_lookup(
                ingresses@,
                ingress_id@,
            ) {
                None => r matches ServerAuthDecision::Reject { code, reason, error } && code
                    == REJECTED_INGRESS_ID && reason@ == "rejected ingress id"@
                    && error is RejectedIngressId,
                Some(entry) => if entry.0.spec_verifies(auth_key@) {
                    r matches ServerAuthDecision::Accept { ingress_id: id, ingress } && id@
                        == ingress_id@ && *ingress == entry.1
                } else {
                    r matches ServerAuthDecision::Reject { code, reason, error } && code
                        == REJECTED_AUTH_KEY && reason@ == "rejected auth key"@
                        && error is RejectedAuthKey
                },
            },
            FirstFrame::Received(_) => r matches ServerAuthDecision::Reject {
                code,
                reason,
                error,
            } && code == UNEXPECTED_FRAME_RECEIVED && reason@
                == "Expected first frame to be auth."@ && (error matches Error::UnexpectedFrameReceived(
                m,
            ) && m@ == "Expected first frame to be auth."@),
            FirstFrame::Failed(e) => r matches ServerAuthDecision::Reject { code, reason, error }
                && code == UNKNOWN_ERROR && reason@ == "Unknown server side issue."@ && (
            error matches Error::Unknown(m) && m@ == spec_message(e)),
            FirstFrame::Ended => r matches ServerAuthDecision::Abandon { error }
                && error is ConnectionClosed,
            FirstFrame::TimedOut => r matches ServerAuthDecision::Reject { code, reason, error }
                && code == FRAME_NOT_RECEIVED_ON_TIME && reason@
                == "Auth frame not received on time."@ && (
            error matches Error::FrameNotReceivedOnTime(m) && m@
                == "Auth frame not received on time."@),
        },
{
    match first_frame {
        FirstFrame::Received(frame) => match frame {
            FrameV1::Auth { auth_key, ingress_id } => {
                match ingresses.get(&ingress_id) {
                    None => ServerAuthDecision::Reject {
                        code: REJECTED_INGRESS_ID,
                        reason: "rejected ingress id".to_owned(),
                        error: Error::RejectedIngressId,
                    },
                    Some(entry) => {
                        if entry.0.verify(&auth_key) {
                            ServerAuthDecision::Accept { ingress_id, ingress: &entry.1 }
                        } else {
                            ServerAuthDecision::Reject {
                                code: REJECTED_AUTH_KEY,
                                reason: "rejected auth key".to_owned(),
                                error: Error::RejectedAuthKey,
                            }
                        }
                    },
                }
            },
            _ => {
                let msg = "Expected first frame to be auth.";
                ServerAuthDecision::Reject {
                    code: UNEXPECTED_FRAME_RECEIVED,
                    reason: msg.to_owned(),
                    error: Error::UnexpectedFrameReceived(msg.to_owned()),
                }
            },
        },
        FirstFrame::Failed(e) => ServerAuthDecision::Reject {
            code: UNKNOWN_ERROR,
            reason: "Unknown server side issue.".to_owned(),
            error: Error::Unknown(e.message()),
        },
        FirstFrame::Ended => ServerAuthDecision::Abandon { error: Error::ConnectionClosed },
        FirstFrame::TimedOut => {
            let msg = "Auth frame not received on time.";
            ServerAuthDecision::Reject {
                code: FRAME_NOT_RECEIVED_ON_TIME,
                reason: msg.to_owned(),
                error: Error::FrameNotReceivedOnTime(msg.to_owned()),
            }
        },
    }
}

/// The frame that the server answers an accepted tunnel with.
pub fn authenticated_reply(tunnel_id: TunnelId, server_id: ServerId) -> (r: FrameV1)
    ensures
        r matches FrameV1::Authenticated { tunnel_id: t, server_id: s } && t == tunnel_id && s@
            == server_id@,
{
    FrameV1::Authenticated { tunnel_id, server_id }
}

/// What the client does with the server's answer to its `Auth` frame.
pub enum ClientAuthDecision {
    /// The tunnel is established under `tunnel_id` with the server `server_id`.
    Established { tunnel_id: TunnelId, server_id: ServerId },
    /// Close the connection with `code` and `reason`, and fail with `error`.
    Reject { code: u32, reason: String, error: Error },
    /// Fail with `error`; the connection is already gone.
    Abandon { error: Error },
}

/// Decides what the client does with the first frame that the server sends after
/// the `Auth` frame: only an `Authenticated` frame establishes the tunnel.
pub fn client_authenticated(first_frame: FirstFrame) -> (r: ClientAuthDecision)
    ensures
        match first_frame {
            FirstFrame::Received(FrameV1::Authenticated { tunnel_id, server_id }) => r matches ClientAuthDecision::Established {
                tunnel_id: t,
                server_id: s,
            } && t == tunnel_id && s@ == server_id@,
            FirstFrame::Received(_) => r matches ClientAuthDecision::Reject {
                code,
                reason,
                error,
            } && code == UNEXPECTED_FRAME_RECEIVED && reason@
                == "First frame received wasn't authenticated."@ && (
            error matches Error::UnexpectedFrameReceived(m) && m@
                == "First frame received wasn't authenticated."@),
            FirstFrame::Failed(e) => r matches ClientAuthDecision::Reject { code, reason, error }
                && code == UNKNOWN_ERROR && reason@ == "Unknown client side issue."@ && error
                == e,
            FirstFrame::Ended => r matches ClientAuthDecision::Abandon { error }
                && error is ConnectionClosed,
            FirstFrame::TimedOut => r matches ClientAuthDecision::Reject { code, reason, error }
                && code == FRAME_NOT_RECEIVED_ON_TIME && reason@
                == "Authenticated frame not received on time."@ && (
            error matches Error::FrameNotReceivedOnTime(m) && m@
                == "Authenticated frame not received on time."@),
        },
{
    match first_frame {
        FirstFrame::Received(frame) => match frame {
            FrameV1::Authenticated { tunnel_id, server_id } => ClientAuthDecision::Established {
                tunnel_id,
                server_id,
            },
            _ => {
                let msg = "First frame received wasn't authenticated.";
                ClientAuthDecision::Reject {
                    code: UNEXPECTED_FRAME_RECEIVED,
                    reason: msg.to_owned(),
                    error: Error::UnexpectedFrameReceived(msg.to_owned()),
                }
            },
        },
        FirstFrame::Failed(e) => ClientAuthDecision::Reject {
            code: UNKNOWN_ERROR,
            reason: "Unknown client side issue.".to_owned(),
            error: e,
        },
        FirstFrame::Ended => ClientAuthDecision::Abandon { error: Error::ConnectionClosed },
        FirstFrame::TimedOut => {
            let msg = "Authenticated frame not received on time.";
            ClientAuthDecision::Reject {
                code: FRAME_NOT_RECEIVED_ON_TIME,
                reason: msg.to_owned(),
                error: Error::FrameNotReceivedOnTime(msg.to_owned()),
            }
        },
    }
}

/// A refused tunnel is told why: when the server refuses a tunnel for its ingress id
/// or its auth key, the close code it sends makes the client fail with the same
/// error as the server.
pub proof fn lemma_rejection_reaches_client(code: u32, error: Error, description: String)
    requires
        (code == REJECTED_INGRESS_ID && error is RejectedIngressId) || (code
            == REJECTED_AUTH_KEY && error is RejectedAuthKey),
    ensures
        spec_error_from_connection_close(
            ConnectionClose::Application { code: code as u64, description },
        ) == error,
{
}

/// Something that happened on the command stream of a tunnel.
pub enum CommandEvent {
    /// The ping interval elapsed.
    PingDue,
    /// A frame was decoded.
    Received(FrameV1),
    /// Reading or decoding failed.
    ReceiveFailed(Error),
    /// The stream ended.
    Ended,
    /// Sending a ping failed.
    PingSendFailed(Error),
    /// Sending a pong failed.
    PongSendFailed(Error),
}

/// What an end does next on the command stream.
pub enum CommandAction {
    /// Send a ping and start the ping interval again.
    SendPing,
    /// Answer with a pong.
    SendPong,
    /// Keep waiting.
    Continue,
    /// Close the connection with `code` and `reason`, and stop.
    Close { code: u32, reason: String },
    /// Stop with this result.
    Finish(Result<(), Error>),
}

/// The server's command stream: it pings every `PING_INTERVAL_SEC` seconds, answers
/// pings, and stops at the end of the stream; a closed tunnel ends it normally and
/// any other failure ends it with that failure.
pub fn server_command_step(event: CommandEvent) -> (r: CommandAction)
    ensures
        match event {
            CommandEvent::PingDue => r is SendPing,
            CommandEvent::Received(FrameV1::Ping) => r is SendPong,
            CommandEvent::Received(_) => r is Continue,
            CommandEvent::ReceiveFailed(Error::ClosedTunnel) => r matches CommandAction::Finish(
                res,
            ) && res is Ok,
            CommandEvent::ReceiveFailed(e) => r == CommandAction::Finish(Err(e)),
            CommandEvent::Ended => r matches CommandAction::Finish(res) && res is Ok,
            CommandEvent::PingSendFailed(e) => r == CommandAction::Finish(Err(e)),
            CommandEvent::PongSendFailed(e) => r == CommandAction::Finish(Err(e)),
        },
{
    match event {
        CommandEvent::PingDue => CommandAction::SendPing,
        CommandEvent::Received(frame) => match frame {
            FrameV1::Ping => CommandAction::SendPong,
            _ => CommandAction::Continue,
        },
        CommandEvent::ReceiveFailed(e) => match e {
            Error::ClosedTunnel => CommandAction::Finish(Ok(())),
            _ => CommandAction::Finish(Err(e)),
        },
        CommandEvent::Ended => CommandAction::Finish(Ok(())),
        CommandEvent::PingSendFailed(e) => CommandAction::Finish(Err(e)),
        CommandEvent::PongSendFailed(e) => CommandAction::Finish(Err(e)),
    }
}

/// The client's command stream: it pings every `PING_INTERVAL_SEC` seconds and
/// answers pings; a failed ping or read closes the connection as an unknown client
/// issue, the end of the stream closes it as a closed command stream, and a failed
/// pong is ignored.
pub fn client_command_step(event: CommandEvent) -> (r: CommandAction)
    ensures
        match event {
            CommandEvent::PingDue => r is SendPing,
            CommandEvent::Received(FrameV1::Ping) => r is SendPong,
            CommandEvent::Received(_) => r is Continue,
            CommandEvent::ReceiveFailed(_) => r matches CommandAction::Close { code, reason }
                && code == UNKNOWN_ERROR && reason@ == "Unknown client side issue."@,
            CommandEvent::Ended => r matches CommandAction::Close { code, reason } && code
                == COMMAND_STREAM_CLOSED && reason@ == "Command stream closed."@,
            CommandEvent::PingSendFailed(_) => r matches CommandAction::Close { code, reason }
                && code == UNKNOWN_ERROR && reason@ == "Unknown client side issue."@,
            CommandEvent::PongSendFailed(_) => r is Continue,
        },
{
    match event {
        CommandEvent::PingDue => CommandAction::SendPing,
        CommandEvent::Received(frame) => match frame {
            FrameV1::Ping => CommandAction::SendPong,
            _ => CommandAction::Continue,
        },
        CommandEvent::ReceiveFailed(_) => CommandAction::Close {
            code: UNKNOWN_ERROR,
            reason: "Unknown client side issue.".to_owned(),
        },
        CommandEvent::Ended => CommandAction::Close {
            code: COMMAND_STREAM_CLOSED,
            reason: "Command stream closed.".to_owned(),
        },
        CommandEvent::PingSendFailed(_) => CommandAction::Close {
            code: UNKNOWN_ERROR,
            reason: "Unknown client side issue.".to_owned(),
        },
        CommandEvent::PongSendFailed(_) => CommandAction::Continue,
    }
}

} // verus!
