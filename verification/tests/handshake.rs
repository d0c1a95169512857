use std::sync::Arc;

use siffleux::frames::v1::{TunnelId, TunnelIdCounter};
use siffleux::handshake::{client_handshake_finish, client_handshake_start, server_handshake};
use siffleux::proto::{ReadState, WriteState};
use siffleux::random_key::{generate_auth_key, generate_ingress_id, key_text};
use siffleux::{AuthKey, EgressId, Error, HashedAuthKey, IngressId, ServerId, TunnelName};

const SERVER_PRIVATE_KEY: [u8; 32] = [7u8; 32];
const SERVER_PUBLIC_KEY: [u8; 32] = [9u8; 32];

#[test]
fn handshake_messages_have_the_stated_lengths() {
    let (waiting, first) = client_handshake_start(&SERVER_PUBLIC_KEY, b"Hi, I'm client!").unwrap();
    assert_eq!(first.len(), 32 + 15);
    assert_eq!(&first[32..], b"Hi, I'm client!");
    let (answer, server_transport) = server_handshake(&SERVER_PRIVATE_KEY, &first, b"Hi, I'm server!").unwrap();
    assert_eq!(answer.len(), 32 + 15 + 16);
    let client_transport = client_handshake_finish(waiting, &answer).unwrap();

    let mut client_write = WriteState::new(Arc::new(client_transport));
    let mut server_read = ReadState::new(Arc::new(server_transport));
    let mut message = [0u8; 64];
    let mut payload = [0u8; 64];
    let n = client_write.encrypt_payload(b"datagram", &mut message).unwrap();
    assert_eq!(n, 8 + 16);
    let m = server_read.decrypt_message(&message[..n], &mut payload).unwrap();
    assert_eq!(&payload[..m], b"datagram");
}

#[test]
fn handshake_refuses_short_messages() {
    assert!(matches!(server_handshake(&SERVER_PRIVATE_KEY, &[0u8; 31], b"hi"), Err(Error::Unknown(_))));
    let (waiting, _) = client_handshake_start(&SERVER_PUBLIC_KEY, b"hi").unwrap();
    assert!(matches!(client_handshake_finish(waiting, &[0u8; 47]), Err(Error::Unknown(_))));
}

#[test]
fn handshake_refuses_a_greeting_that_does_not_fit() {
    let greeting = vec![1u8; 1500];
    assert!(client_handshake_start(&SERVER_PUBLIC_KEY, &greeting).is_err());
    let (_, first) = client_handshake_start(&SERVER_PUBLIC_KEY, b"hi").unwrap();
    assert!(server_handshake(&SERVER_PRIVATE_KEY, &first, &greeting).is_err());
}

#[test]
fn each_nonce_seals_differently() {
    let (waiting, first) = client_handshake_start(&SERVER_PUBLIC_KEY, b"hello").unwrap();
    let (answer, _) = server_handshake(&SERVER_PRIVATE_KEY, &first, b"hello").unwrap();
    let transport = client_handshake_finish(waiting, &answer).unwrap();
    let mut write = WriteState::new(Arc::new(transport));
    let mut a = [0u8; 32];
    let mut b = [0u8; 32];
    let n = write.encrypt_payload(b"same", &mut a).unwrap();
    let m = write.encrypt_payload(b"same", &mut b).unwrap();
    assert_eq!(write.nonce(), 2);
    assert_eq!(n, m);
    assert_ne!(a[..n], b[..m]);
}

#[test]
fn tunnel_id_counter_hands_out_distinct_ids() {
    let mut counter = TunnelIdCounter::new();
    let a = counter.next_id().unwrap();
    let b = counter.next_id().unwrap();
    let c = counter.next_id().unwrap();
    assert_eq!(a, TunnelId::from_counter(0));
    assert_eq!(b, TunnelId::from_counter(1));
    assert_eq!(c, TunnelId::from_counter(2));
    assert_ne!(a, b);
    assert_ne!(b, c);
    assert_ne!(a, c);
}

#[test]
fn key_text_is_url_safe_base64() {
    assert_eq!(key_text(&[]), "");
    assert_eq!(key_text(&[0, 0, 0]), "AAAA");
    assert_eq!(key_text(&[0xfb, 0xff]), "-_8=");
    assert_eq!(key_text(b"siffleux"), "c2lmZmxldXg=");
}

#[test]
fn generated_keys_have_the_stated_lengths() {
    let key = generate_auth_key().unwrap();
    assert_eq!(key.to_str().len(), 44);
    let id = generate_ingress_id().unwrap();
    assert_eq!(id.value().len(), 24);
}

#[test]
fn hashing_with_a_given_salt_is_deterministic_and_accepts_the_key() {
    let key = AuthKey::new("secret").unwrap();
    let salt = [3u8; 16];
    let a = HashedAuthKey::hash_with_salt(&key, &salt).unwrap();
    let b = HashedAuthKey::hash_with_salt(&key, &salt).unwrap();
    assert_eq!(format!("{:?}", a), format!("{:?}", b));
    assert!(a.verify(&key));
    assert!(!a.verify(&AuthKey::new("other").unwrap()));
}

fn reason(e: Error) -> String {
    match e {
        Error::InvalidAuthKey { reason }
        | Error::InvalidIngressId { reason }
        | Error::InvalidEgressId { reason }
        | Error::InvalidServerId { reason }
        | Error::InvalidTunnelName { reason } => reason,
        _ => panic!("not an identifier error"),
    }
}

#[test]
fn identifier_errors_give_their_reasons() {
    assert_eq!(reason(AuthKey::new("").unwrap_err()), "Auth key can't be empty.");
    assert_eq!(reason(AuthKey::new(&"a".repeat(256)).unwrap_err()), "Auth key max length is 255 bytes.");
    assert_eq!(reason(AuthKey::from_bytes(&[0xff]).unwrap_err()), "Invalid auth key UTF8 bytes.");
    assert_eq!(
        reason(EgressId::new("").unwrap_err()),
        "Egress ID has to be between 1 and 255 UTF8 bytes."
    );
    assert_eq!(reason(EgressId::from_bytes(&[0xff]).unwrap_err()), "Invalid egress ID UTF8 bytes.");
    assert_eq!(
        reason(IngressId::new(&"x".repeat(256)).unwrap_err()),
        "Ingress ID has to be between 1 and 255 UTF8 bytes."
    );
    assert_eq!(
        reason(ServerId::new("").unwrap_err()),
        "Server ID has to be between 1 and 255 UTF8 bytes."
    );
    assert_eq!(reason(TunnelName::from_bytes(&[0xff]).unwrap_err()), "Invalid tunnel name UTF8 bytes.");
    assert!(matches!(
        TunnelName::new(&"x".repeat(256)),
        Err(Error::InvalidIngressId { reason }) if reason == "Tunnel name too long. Max length: 255"
    ));
}
