use siffleux::code::{
    COMMAND_STREAM_CLOSED, FRAME_NOT_RECEIVED_ON_TIME, REJECTED_AUTH_KEY, REJECTED_INGRESS_ID,
    UNEXPECTED_FRAME_RECEIVED, UNKNOWN_ERROR,
};
use siffleux::error::ConnectionClose;
use siffleux::frames::v1::{FrameV1, TunnelId, UdpMessage};
use siffleux::lifecycle::{Component, Lifecycle};
use siffleux::net::{IpAddress, SocketAddress};
use siffleux::protocol::{
    authenticated_reply, client_authenticated, client_command_step, server_authenticate,
    server_command_step, ClientAuthDecision, CommandAction, CommandEvent, FirstFrame,
    ServerAuthDecision,
};
use siffleux::reconnect::{reconnect_delay_ms, Backoff};
use siffleux::registry::Registry;
use siffleux::stream_copy::{copy_ending, CopyDirection, CopyOutcome, WriteEnd};
use siffleux::tunnel_loop::{TunnelAction, TunnelEvent, TunnelLoop, TunnelPhase};
use siffleux::tunnel_pool::TunnelPool;
use siffleux::udp_routes::{keeps_receiving, route_datagram, DatagramRoute, OriginRoutes, ReceiveErrorKind};
use siffleux::{AuthKey, EgressId, Error, HashedAuthKey, IngressId, ServerId};

fn ingresses() -> Registry<IngressId, (HashedAuthKey, &'static str)> {
    let mut r = Registry::new();
    let hashed = AuthKey::new("valid_auth_key").unwrap().hash().unwrap();
    r.assign_ingress(IngressId::new("ingress").unwrap(), (hashed, "the ingress")).unwrap();
    r
}

fn auth(key: &str, ingress: &str) -> FirstFrame {
    FirstFrame::Received(FrameV1::Auth {
        auth_key: AuthKey::new(key).unwrap(),
        ingress_id: IngressId::new(ingress).unwrap(),
    })
}

#[test]
fn server_accepts_registered_ingress_with_its_key() {
    let reg = ingresses();
    match server_authenticate(&reg, auth("valid_auth_key", "ingress")) {
        ServerAuthDecision::Accept { ingress_id, ingress } => {
            assert_eq!(ingress_id.value(), "ingress");
            assert_eq!(*ingress, "the ingress");
        }
        _ => panic!("expected accept"),
    }
}

#[test]
fn server_rejects_unknown_ingress_and_wrong_key() {
    let reg = ingresses();
    match server_authenticate(&reg, auth("valid_auth_key", "egress")) {
        ServerAuthDecision::Reject { code, reason, error } => {
            assert_eq!(code, REJECTED_INGRESS_ID);
            assert_eq!(reason, "rejected ingress id");
            assert!(matches!(error, Error::RejectedIngressId));
        }
        _ => panic!("expected reject"),
    }
    match server_authenticate(&reg, auth("wrong_auth_key", "ingress")) {
        ServerAuthDecision::Reject { code, reason, error } => {
            assert_eq!(code, REJECTED_AUTH_KEY);
            assert_eq!(reason, "rejected auth key");
            assert!(matches!(error, Error::RejectedAuthKey));
        }
        _ => panic!("expected reject"),
    }
}

#[test]
fn server_refuses_other_first_frames() {
    let reg = ingresses();
    match server_authenticate(&reg, FirstFrame::Received(FrameV1::Ping)) {
        ServerAuthDecision::Reject { code, reason, .. } => {
            assert_eq!(code, UNEXPECTED_FRAME_RECEIVED);
            assert_eq!(reason, "Expected first frame to be auth.");
        }
        _ => panic!("expected reject"),
    }
    match server_authenticate(&reg, FirstFrame::TimedOut) {
        ServerAuthDecision::Reject { code, error, .. } => {
            assert_eq!(code, FRAME_NOT_RECEIVED_ON_TIME);
            assert!(matches!(error, Error::FrameNotReceivedOnTime(_)));
        }
        _ => panic!("expected reject"),
    }
    match server_authenticate(&reg, FirstFrame::Failed(Error::ClosedStream)) {
        ServerAuthDecision::Reject { code, reason, error } => {
            assert_eq!(code, UNKNOWN_ERROR);
            assert_eq!(reason, "Unknown server side issue.");
            assert!(matches!(error, Error::Unknown(m) if m == "Closed stream"));
        }
        _ => panic!("expected reject"),
    }
    assert!(matches!(
        server_authenticate(&reg, FirstFrame::Ended),
        ServerAuthDecision::Abandon { error: Error::ConnectionClosed }
    ));
}

#[test]
fn client_establishes_on_authenticated_frame() {
    let reply = authenticated_reply(TunnelId::from_counter(5), ServerId::new("server_id").unwrap());
    match client_authenticated(FirstFrame::Received(reply)) {
        ClientAuthDecision::Established { tunnel_id, server_id } => {
            assert_eq!(tunnel_id, TunnelId::from_counter(5));
            assert_eq!(server_id.to_str(), "server_id");
        }
        _ => panic!("expected established"),
    }
    match client_authenticated(FirstFrame::Received(FrameV1::Pong)) {
        ClientAuthDecision::Reject { code, reason, .. } => {
            assert_eq!(code, UNEXPECTED_FRAME_RECEIVED);
            assert_eq!(reason, "First frame received wasn't authenticated.");
        }
        _ => panic!("expected reject"),
    }
    assert!(matches!(
        client_authenticated(FirstFrame::Ended),
        ClientAuthDecision::Abandon { error: Error::ConnectionClosed }
    ));
}

#[test]
fn rejection_codes_reach_the_client_as_the_same_error() {
    let e = Error::from_connection_close(ConnectionClose::Application {
        code: REJECTED_INGRESS_ID as u64,
        description: "rejected ingress id".to_owned(),
    });
    assert!(matches!(e, Error::RejectedIngressId));
    let e = Error::from_connection_close(ConnectionClose::Application {
        code: REJECTED_AUTH_KEY as u64,
        description: String::new(),
    });
    assert!(matches!(e, Error::RejectedAuthKey));
    let e = Error::from_connection_close(ConnectionClose::Application { code: 0, description: String::new() });
    assert!(matches!(e, Error::ClosedTunnel));
    let e = Error::from_connection_close(ConnectionClose::Transport {
        code: 296,
        description: "bad cert".to_owned(),
    });
    assert!(matches!(e, Error::TLS(d) if d == "bad cert"));
    let e = Error::from_connection_close(ConnectionClose::Other { description: "timeout".to_owned() });
    assert!(matches!(e, Error::Unknown(d) if d == "timeout"));
}

#[test]
fn command_streams() {
    assert!(matches!(server_command_step(CommandEvent::PingDue), CommandAction::SendPing));
    assert!(matches!(server_command_step(CommandEvent::Received(FrameV1::Ping)), CommandAction::SendPong));
    assert!(matches!(server_command_step(CommandEvent::Received(FrameV1::Pong)), CommandAction::Continue));
    assert!(matches!(
        server_command_step(CommandEvent::ReceiveFailed(Error::ClosedTunnel)),
        CommandAction::Finish(Ok(()))
    ));
    assert!(matches!(
        server_command_step(CommandEvent::ReceiveFailed(Error::ClosedStream)),
        CommandAction::Finish(Err(Error::ClosedStream))
    ));
    assert!(matches!(server_command_step(CommandEvent::Ended), CommandAction::Finish(Ok(()))));
    match client_command_step(CommandEvent::Ended) {
        CommandAction::Close { code, reason } => {
            assert_eq!(code, COMMAND_STREAM_CLOSED);
            assert_eq!(reason, "Command stream closed.");
        }
        _ => panic!("expected close"),
    }
    match client_command_step(CommandEvent::PingSendFailed(Error::ClosedStream)) {
        CommandAction::Close { code, reason } => {
            assert_eq!(code, UNKNOWN_ERROR);
            assert_eq!(reason, "Unknown client side issue.");
        }
        _ => panic!("expected close"),
    }
    assert!(matches!(
        client_command_step(CommandEvent::PongSendFailed(Error::ClosedStream)),
        CommandAction::Continue
    ));
}

#[test]
fn registry_refuses_duplicate_ids_and_removes() {
    let mut clients: Registry<EgressId, u32> = Registry::new();
    assert!(clients.assign_egress(EgressId::new("egress").unwrap(), 1).is_ok());
    match clients.assign_egress(EgressId::new("egress").unwrap(), 2) {
        Err(Error::EgressIDAlreadyAssigned(id)) => assert_eq!(id.to_str(), "egress"),
        other => panic!("unexpected {:?}", other),
    }
    assert_eq!(clients.len(), 1);
    assert_eq!(clients.get(&EgressId::new("egress").unwrap()), Some(&1));
    assert_eq!(clients.remove(&EgressId::new("egress").unwrap()), Some(1));
    assert_eq!(clients.remove(&EgressId::new("egress").unwrap()), None);
    assert!(clients.assign_egress(EgressId::new("egress").unwrap(), 3).is_ok());
    let drained = clients.drain();
    assert_eq!(drained.len(), 1);
    assert_eq!(clients.len(), 0);
    let mut servers: Registry<IngressId, ()> = Registry::new();
    servers.assign_ingress(IngressId::new("i").unwrap(), ()).unwrap();
    assert!(matches!(
        servers.assign_ingress(IngressId::new("i").unwrap(), ()),
        Err(Error::IngressIDAlreadyAssigned(_))
    ));
}

#[test]
fn round_robin_over_tunnels() {
    let mut pool: TunnelPool<&str> = TunnelPool::new();
    assert!(pool.pick().is_none());
    assert!(matches!(pool.pick_for_datagram(), Err(Error::NoTunnelAvailable)));
    pool.push(TunnelId::from_counter(1), "a");
    assert_eq!(pool.pick(), Some(&"a"));
    assert_eq!(pool.pick(), Some(&"a"));
    pool.push(TunnelId::from_counter(2), "b");
    pool.push(TunnelId::from_counter(3), "c");
    let picks: Vec<&str> = (0..6).map(|_| *pool.pick().unwrap()).collect();
    assert_eq!(picks, vec!["a", "b", "c", "a", "b", "c"]);
    assert!(pool.remove(&TunnelId::from_counter(1)));
    assert!(!pool.remove(&TunnelId::from_counter(1)));
    assert_eq!(pool.len(), 2);
    for _ in 0..4 {
        assert_ne!(*pool.pick().unwrap(), "a");
    }
}

#[test]
fn reconnect_waits_double_up_to_thirty_seconds() {
    let delays: Vec<u64> = (0..12).map(reconnect_delay_ms).collect();
    assert_eq!(
        delays,
        vec![100, 200, 400, 800, 1600, 3200, 6400, 12800, 25600, 30000, 30000, 30000]
    );
    assert_eq!(reconnect_delay_ms(u32::MAX), 30000);
    let mut b = Backoff::new();
    assert_eq!(b.delay_ms(), 100);
    b.waited();
    b.waited();
    assert_eq!(b.delay_ms(), 400);
    b.connected();
    assert_eq!(b.delay_ms(), 100);
}

#[test]
fn tunnel_loop_reconnects_with_growing_waits() {
    let mut l = TunnelLoop::new();
    assert_eq!(l.phase(), TunnelPhase::Connecting);
    assert_eq!(l.step(TunnelEvent::ConnectFailed), TunnelAction::Wait { delay_ms: 100 });
    assert_eq!(l.step(TunnelEvent::Waited), TunnelAction::Connect);
    assert_eq!(l.step(TunnelEvent::ConnectFailed), TunnelAction::Wait { delay_ms: 200 });
    assert_eq!(l.step(TunnelEvent::Waited), TunnelAction::Connect);
    assert_eq!(l.step(TunnelEvent::Connected), TunnelAction::Serve);
    assert_eq!(l.step(TunnelEvent::StreamAccepted), TunnelAction::HandleStream);
    assert_eq!(
        l.step(TunnelEvent::AcceptFailed { closed_tunnel: false }),
        TunnelAction::ReportAcceptError
    );
    assert_eq!(
        l.step(TunnelEvent::AcceptFailed { closed_tunnel: true }),
        TunnelAction::KeepServing
    );
    assert_eq!(l.step(TunnelEvent::TunnelClosed), TunnelAction::Connect);
    assert_eq!(l.step(TunnelEvent::ConnectFailed), TunnelAction::Wait { delay_ms: 100 });
    assert_eq!(l.step(TunnelEvent::Connected), TunnelAction::Ignore);
    assert_eq!(l.step(TunnelEvent::Cancelled), TunnelAction::Stop);
    assert_eq!(l.phase(), TunnelPhase::Finished);
    assert_eq!(l.step(TunnelEvent::Waited), TunnelAction::Stop);
}

#[test]
fn tunnel_loop_closes_tunnel_when_stopped_while_serving() {
    let mut l = TunnelLoop::new();
    assert_eq!(l.step(TunnelEvent::Connected), TunnelAction::Serve);
    assert_eq!(l.step(TunnelEvent::Cancelled), TunnelAction::CloseTunnelAndStop);
}

#[test]
fn lifecycle_answers_refused_requests() {
    let mut egress: Lifecycle<u32> = Lifecycle::new(Component::Egress);
    assert!(matches!(egress.stop(), Err(Error::EgressNotStarted)));
    assert!(egress.check_start().is_ok());
    assert!(egress.start(7).is_ok());
    assert!(matches!(egress.check_start(), Err(Error::EgressAlreadyStarted)));
    assert!(matches!(egress.start(8), Err(Error::EgressAlreadyStarted)));
    assert_eq!(egress.process(), Some(&7));
    assert_eq!(egress.stop().unwrap(), 7);
    assert!(!egress.is_running());

    let mut ingress: Lifecycle<()> = Lifecycle::new(Component::Ingress);
    assert!(matches!(ingress.require_running(), Err(Error::IngressNotStarted)));
    ingress.start(()).unwrap();
    assert!(matches!(ingress.start(()), Err(Error::IngressAlreadyStarted)));
    assert_eq!(ingress.finished(), Some(()));
    assert!(matches!(ingress.stop(), Err(Error::IngressNotStarted)));

    let mut server: Lifecycle<()> = Lifecycle::new(Component::Server);
    assert!(matches!(server.require_running(), Err(Error::ServerNotListening)));
    server.start(()).unwrap();
    assert!(matches!(server.start(()), Err(Error::ServerAlreadyListening)));
}

#[test]
fn copy_endings() {
    let e = copy_ending(CopyDirection::TcpToTunnel, CopyOutcome::Completed);
    assert_eq!(e.write_end, WriteEnd::FinishStream);
    assert!(!e.cancel_other);
    let e = copy_ending(CopyDirection::TcpToTunnel, CopyOutcome::Failed);
    assert_eq!(e.write_end, WriteEnd::ResetStream { code: UNKNOWN_ERROR });
    assert!(e.cancel_other);
    let e = copy_ending(CopyDirection::TcpToTunnel, CopyOutcome::Cancelled);
    assert_eq!(e.write_end, WriteEnd::ResetStream { code: 3999 });
    assert!(!e.cancel_other);
    let e = copy_ending(CopyDirection::TunnelToTcp, CopyOutcome::Failed);
    assert_eq!(e.write_end, WriteEnd::ShutdownTcp);
    assert!(e.cancel_other);
}

#[test]
fn datagram_routes_by_origin() {
    let origin = SocketAddress { ip: IpAddress::V4([192, 168, 1, 42]), port: 5000 };
    let other = SocketAddress { ip: IpAddress::V4([192, 168, 1, 42]), port: 5001 };
    let mut routes: OriginRoutes<u32> = Registry::new();
    let mut msg = UdpMessage::new();
    msg.payload_mut()[..2].copy_from_slice(b"hi");
    let datagram = msg.to_datagram(origin, 2);

    let mut d = datagram.clone();
    match route_datagram(&routes, &mut d) {
        DatagramRoute::New { origin: o } => assert_eq!(o, origin),
        _ => panic!("expected a new route"),
    }
    assert_eq!(d, b"hi".to_vec());
    routes.insert(origin, 11).unwrap();
    let mut d = datagram.clone();
    match route_datagram(&routes, &mut d) {
        DatagramRoute::Existing { origin: o, route } => {
            assert_eq!(o, origin);
            assert_eq!(*route, 11);
        }
        _ => panic!("expected the existing route"),
    }
    assert!(routes.get(&other).is_none());
    assert_eq!(routes.remove(&origin), Some(11));
    let mut unknown = vec![0xFF, 1];
    assert!(matches!(route_datagram(&routes, &mut unknown), DatagramRoute::Drop));
    assert_eq!(unknown, vec![1]);
}

#[test]
fn udp_ingress_keeps_receiving_after_peer_errors() {
    assert!(keeps_receiving(ReceiveErrorKind::ConnectionReset));
    assert!(keeps_receiving(ReceiveErrorKind::ConnectionRefused));
    assert!(keeps_receiving(ReceiveErrorKind::Interrupted));
    assert!(!keeps_receiving(ReceiveErrorKind::Other));
}
