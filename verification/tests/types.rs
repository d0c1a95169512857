use siffleux::byte_counter::ByteCounter;
use siffleux::tunnel::TunnelStream;
use siffleux::{AuthKey, EgressId, Error, IngressId, ServerId, TunnelName};

#[test]
fn ingress_id_accepts_one_to_255_bytes() {
    assert_eq!(IngressId::new("ingress").unwrap().value(), "ingress");
    assert_eq!(IngressId::new("ingress").unwrap().len(), 7);
    assert!(matches!(IngressId::new(""), Err(Error::InvalidIngressId { .. })));
    let long = "a".repeat(255);
    assert_eq!(IngressId::new(&long).unwrap().len(), 255);
    assert!(matches!(IngressId::new(&"a".repeat(256)), Err(Error::InvalidIngressId { .. })));
    // Length counts UTF-8 bytes, not characters.
    assert!(IngressId::new(&"é".repeat(127)).is_ok());
    assert!(IngressId::new(&"é".repeat(128)).is_err());
}

#[test]
fn ingress_id_from_bytes_checks_utf8() {
    assert_eq!(IngressId::from_bytes(b"abc").unwrap().value(), "abc");
    assert!(matches!(IngressId::from_bytes(&[0xff, 0xfe]), Err(Error::InvalidIngressId { .. })));
    assert!(matches!(IngressId::from_bytes(&[]), Err(Error::InvalidIngressId { .. })));
}

#[test]
fn egress_and_server_ids_follow_the_same_limits() {
    assert_eq!(EgressId::new("egress").unwrap().to_str(), "egress");
    assert_eq!(EgressId::new("egress").unwrap().len(), 6);
    assert!(matches!(EgressId::new(""), Err(Error::InvalidEgressId { .. })));
    assert!(matches!(EgressId::from_bytes(&[0xc3]), Err(Error::InvalidEgressId { .. })));
    assert_eq!(ServerId::new("server_id").unwrap().to_str(), "server_id");
    assert_eq!(ServerId::from_bytes(b"srv").unwrap().len(), 3);
    assert!(matches!(ServerId::new(&"s".repeat(256)), Err(Error::InvalidServerId { .. })));
}

#[test]
fn tunnel_name_limits() {
    assert_eq!(TunnelName::new("tunnel").unwrap().to_str(), "tunnel");
    assert_eq!(TunnelName::from_bytes(b"t").unwrap().len(), 1);
    assert!(matches!(TunnelName::from_bytes(&[0xff]), Err(Error::InvalidTunnelName { .. })));
    assert!(matches!(TunnelName::new(&"t".repeat(256)), Err(Error::InvalidIngressId { .. })));
}

#[test]
fn ids_compare_by_text() {
    assert_eq!(IngressId::new("a").unwrap(), IngressId::new("a").unwrap());
    assert_ne!(IngressId::new("a").unwrap(), IngressId::new("b").unwrap());
    let id = EgressId::new("e").unwrap();
    assert_eq!(id.clone(), id);
}

#[test]
fn auth_key_limits() {
    assert_eq!(AuthKey::new("valid_auth_key").unwrap().to_str(), "valid_auth_key");
    assert!(matches!(AuthKey::new(""), Err(Error::InvalidAuthKey { .. })));
    assert!(matches!(AuthKey::new(&"k".repeat(256)), Err(Error::InvalidAuthKey { .. })));
    assert!(matches!(AuthKey::from_bytes(&[0x80]), Err(Error::InvalidAuthKey { .. })));
    assert_eq!(AuthKey::from_bytes(b"k").unwrap().to_str(), "k");
}

#[test]
fn hashed_auth_key_accepts_its_key_only() {
    let key = AuthKey::new("valid_auth_key").unwrap();
    let hashed = key.hash().unwrap();
    assert!(hashed.verify(&key));
    assert!(!hashed.verify(&AuthKey::new("wrong_auth_key").unwrap()));
}

#[test]
fn two_hashes_of_one_key_differ_but_both_accept_it() {
    let key = AuthKey::new("secret").unwrap();
    let h1 = key.hash().unwrap();
    let h2 = key.hash().unwrap();
    assert!(h1.verify(&key) && h2.verify(&key));
    assert_ne!(format!("{:?}", h1), format!("{:?}", h2));
}

#[test]
fn byte_counter_counts_into_its_ancestors() {
    let server = ByteCounter::new(None);
    let tunnel = ByteCounter::new(Some(server.clone()));
    let stream = TunnelStream::new(7, tunnel.clone());
    assert_eq!(stream.id(), 7);
    stream.byte_counter().add_bytes_read(10);
    stream.byte_counter().add_bytes_write(3);
    tunnel.add_bytes_read(5);
    assert_eq!(stream.byte_counter().bytes_read(), 10);
    assert_eq!(stream.byte_counter().bytes_write(), 3);
    assert_eq!(tunnel.bytes_read(), 15);
    assert_eq!(tunnel.bytes_write(), 3);
    assert_eq!(server.bytes_read(), 15);
    assert_eq!(server.bytes_write(), 3);
}

#[test]
fn cloned_stream_shares_its_counter() {
    let tunnel = ByteCounter::new(None);
    let stream = TunnelStream::new(1, tunnel.clone());
    let copy = stream.clone();
    copy.byte_counter().add_bytes_write(4);
    assert_eq!(stream.byte_counter().bytes_write(), 4);
    assert_eq!(tunnel.bytes_write(), 4);
}

#[test]
fn error_messages() {
    assert_eq!(Error::RejectedIngressId.message(), "Rejected ingress Id.");
    assert_eq!(
        Error::IncompatibleVersion { expected: 1, received: 200 }.message(),
        "Incompatible version expected=1, received=200"
    );
    assert_eq!(
        Error::IngressIDAlreadyAssigned(IngressId::new("x").unwrap()).message(),
        "Ingress ID x already assigned"
    );
    assert_eq!(Error::Unknown("boom".to_owned()).message(), "Unknown error: boom");
}

#[test]
fn identifiers_parse_from_text() {
    let id: IngressId = "ingress".parse().unwrap();
    assert_eq!(id.value(), "ingress");
    assert!("".parse::<EgressId>().is_err());
    assert_eq!("server".parse::<ServerId>().unwrap().to_str(), "server");
    assert_eq!("key".parse::<AuthKey>().unwrap().to_str(), "key");
    assert!(matches!("".parse::<AuthKey>(), Err(Error::InvalidAuthKey { .. })));
    assert_eq!("t".parse::<TunnelName>().unwrap().to_str(), "t");
}
