//! The loop an egress runs to keep a tunnel to its server: connect, serve the
//! tunnel until it closes, connect again at once, and after a failed attempt wait
//! before the next one, the wait doubling from 100 ms up to 30 s; stop when the
//! egress is stopped. The caller performs each action and reports what came of it.
use vstd::prelude::*;

use crate::reconnect::{spec_reconnect_delay_ms, Backoff};

verus! {

/// Where the loop stands.
#[derive(Clone, Copy, Debug, PartialEq, Eq, Structural)]
pub enum TunnelPhase {
    /// A connection attempt is under way.
    Connecting,
    /// A tunnel is established and served.
    Serving,
    /// Waiting before the next attempt.
    Waiting,
    /// The loop has ended.
    Finished,
}

/// What the caller reports.
#[derive(Clone, Copy, Debug, PartialEq, Eq, Structural)]
pub enum TunnelEvent {
    /// The connection attempt established a tunnel.
    Connected,
    /// The connection attempt failed.
    ConnectFailed,
    /// The server opened a stream on the tunnel.
    StreamAccepted,
    /// Accepting a stream failed; `closed_tunnel` tells whether the reason is that
    /// the tunnel is closed.
    AcceptFailed { closed_tunnel: bool },
    /// The tunnel closed.
    TunnelClosed,
    /// The waiting time has passed.
    Waited,
    /// The egress is being stopped.
    Cancelled,
}

/// What the caller does next.
#[derive(Clone, Copy, Debug, PartialEq, Eq, Structural)]
pub enum TunnelAction {
    /// Try to connect to the server.
    Connect,
    /// Report the egress as started and serve the new tunnel.
    Serve,
    /// Hand the accepted stream to the target.
    HandleStream,
    /// Report the error and keep serving.
    ReportAcceptError,
    /// Keep serving.
    KeepServing,
    /// Wait `delay_ms` milliseconds, then report `Waited`.
    Wait { delay_ms: u64 },
    /// Close the tunnel and end the loop.
    CloseTunnelAndStop,
    /// End the loop.
    Stop,
    /// The event has no meaning in this phase: nothing changes.
    Ignore,
}

/// The state of the loop: its phase and the number of failed attempts in a row.
pub struct TunnelLoop {
    phase: TunnelPhase,
    backoff: Backoff,
}

impl TunnelLoop {
    /// Where the loop stands.
    pub closed spec fn spec_phase(&self) -> TunnelPhase {
        self.phase
    }

    /// Failed attempts in a row.
    pub closed spec fn spec_retry(&self) -> u32 {
        self.backoff.spec_retry()
    }

    /// A loop about to make its first attempt.
    pub fn new() -> (r: Self)
        ensures
            r.spec_phase() == TunnelPhase::Connecting,
            r.spec_retry() == 0,
    {
        TunnelLoop { phase: TunnelPhase::Connecting, backoff: Backoff::new() }
    }

    /// Where the loop stands.
    pub fn phase(&self) -> (r: TunnelPhase)
        ensures
            r == self.spec_phase(),
    {
        self.phase
    }

    /// Moves the loop on by one event and says what to do next.
    pub fn step(&mut self, event: TunnelEvent) -> (action: TunnelAction)
        ensures
            match (old(self).spec_phase(), event) {
                (TunnelPhase::Connecting, TunnelEvent::Connected) => {
                    &&& action == TunnelAction::Serve
                    &&& final(self).spec_phase() == TunnelPhase::Serving
                    &&& final(self).spec_retry() == 0
                },
                (TunnelPhase::Connecting, TunnelEvent::ConnectFailed) => {
                    &&& action == (TunnelAction::Wait {
                        delay_ms: spec_reconnect_delay_ms(old(self).spec_retry() as nat) as u64,
                    })
                    &&& final(self).spec_phase() == TunnelPhase::Waiting
                    &&& final(self).spec_retry() == old(self).spec_retry()
                },
                (TunnelPhase::Waiting, TunnelEvent::Waited) => {
                    &&& action == TunnelAction::Connect
                    &&& final(self).spec_phase() == TunnelPhase::Connecting
                    &&& final(self).spec_retry() == (if old(self).spec_retry() < u32::MAX {
                        (old(self).spec_retry() + 1) as u32
                    } else {
                        u32::MAX
                    })
                },
                (TunnelPhase::Waiting, TunnelEvent::Cancelled) => {
                    &&& action == TunnelAction::Stop
                    &&& final(self).spec_phase() == TunnelPhase::Finished
                    &&& final(self).spec_retry() == old(self).spec_retry()
                },
                (TunnelPhase::Serving, TunnelEvent::StreamAccepted) => {
                    &&& action == TunnelAction::HandleStream
                    &&& final(self).spec_phase() == TunnelPhase::Serving
                    &&& final(self).spec_retry() == old(self).spec_retry()
                },
                (TunnelPhase::Serving, TunnelEvent::AcceptFailed { closed_tunnel }) => {
                    &&& action == (if closed_tunnel {
                        TunnelAction::KeepServing
                    } else {
                        TunnelAction::ReportAcceptError
                    })
                    &&& final(self).spec_phase() == TunnelPhase::Serving
                    &&& final(self).spec_retry() == old(self).spec_retry()
                },
                (TunnelPhase::Serving, TunnelEvent::TunnelClosed) => {
                    &&& action == TunnelAction::Connect
                    &&& final(self).spec_phase() == TunnelPhase::Connecting
                    &&& final(self).spec_retry() == old(self).spec_retry()
                },
                (TunnelPhase::Serving, TunnelEvent::Cancelled) => {
                    &&& action == TunnelAction::CloseTunnelAndStop
                    &&& final(self).spec_phase() == TunnelPhase::Finished
                    &&& final(self).spec_retry() == old(self).spec_retry()
                },
                (TunnelPhase::Finished, _) => {
                    &&& action == TunnelAction::Stop
                    &&& final(self).spec_phase() == TunnelPhase::Finished
                    &&& final(self).spec_retry() == old(self).spec_retry()
                },
                _ => {
                    &&& action == TunnelAction::Ignore
                    &&& final(self).spec_phase() == old(self).spec_phase()
                    &&& final(self).spec_retry() == old(self).spec_retry()
                },
            },
    {
        match (self.phase, event) {
            (TunnelPhase::Connecting, TunnelEvent::Connected) => {
                self.backoff.connected();
                self.phase = TunnelPhase::Serving;
                TunnelAction::Serve
            },
            (TunnelPhase::Connecting, TunnelEvent::ConnectFailed) => {
                self.phase = TunnelPhase::Waiting;
                TunnelAction::Wait { delay_ms: self.backoff.delay_ms() }
            },
            (TunnelPhase::Waiting, TunnelEvent::Waited) => {
                self.backoff.waited();
                self.phase = TunnelPhase::Connecting;
                TunnelAction::Connect
            },
            (TunnelPhase::Waiting, TunnelEvent::Cancelled) => {
                self.phase = TunnelPhase::Finished;
                TunnelAction::Stop
            },
            (TunnelPhase::Serving, TunnelEvent::StreamAccepted) => TunnelAction::HandleStream,
            (TunnelPhase::Serving, TunnelEvent::AcceptFailed { closed_tunnel }) => {
                if closed_tunnel {
                    TunnelAction::KeepServing
                } else {
                    TunnelAction::ReportAcceptError
                }
            },
            (TunnelPhase::Serving, TunnelEvent::TunnelClosed) => {
                self.phase = TunnelPhase::Connecting;
                TunnelAction::Connect
            },
            (TunnelPhase::Serving, TunnelEvent::Cancelled) => {
                self.phase = TunnelPhase::Finished;
                TunnelAction::CloseTunnelAndStop
            },
            (TunnelPhase::Finished, _) => TunnelAction::Stop,
            _ => TunnelAction::Ignore,
        }
    }
}

} // verus!
