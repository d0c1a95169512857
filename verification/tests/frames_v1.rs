use siffleux::frames::v1::{
    decode_is_defined, to_datagram, CodecV1, FrameV1, TunnelId, UdpMessage, HEADER_GAP_IPV4,
    UDP_HEADER_IPV4_LEN, UDP_HEADER_IPV6_LEN, UDP_IPV4_ORIGIN, UDP_IPV6_ORIGIN,
    UDP_PAYLOAD_CAPACITY,
};
use siffleux::net::{IpAddress, SocketAddress};
use siffleux::udp_routes::origin_header_fits;
use siffleux::{AuthKey, Error, IngressId, ServerId};

fn v4(a: u8, b: u8, c: u8, d: u8, port: u16) -> SocketAddress {
    SocketAddress { ip: IpAddress::V4([a, b, c, d]), port }
}

fn v6_localhost(port: u16) -> SocketAddress {
    let mut ip = [0u8; 16];
    ip[15] = 1;
    SocketAddress { ip: IpAddress::V6(ip), port }
}

fn v6_documentation(port: u16) -> (SocketAddress, [u8; 16]) {
    // 2001:db8::1
    let ip = [0x20, 0x01, 0x0d, 0xb8, 0, 0, 0, 0, 0, 0, 0, 0, 0, 0, 0, 1];
    (SocketAddress { ip: IpAddress::V6(ip), port }, ip)
}

#[test]
fn payload_mut_has_full_spare_capacity() {
    let mut msg = UdpMessage::new();
    assert_eq!(msg.payload_mut().len(), UDP_PAYLOAD_CAPACITY);
}

#[test]
fn payload_mut_is_writable_and_isolated_from_header_region() {
    let mut msg = UdpMessage::new();
    let payload = msg.payload_mut();
    payload[0] = 0xAA;
    payload[1] = 0xBB;

    let origin = v4(203, 0, 113, 5, 4242);
    let datagram = msg.to_datagram(origin, 2);

    assert_eq!(datagram.len(), UDP_HEADER_IPV4_LEN + 2);
    assert_eq!(datagram[UDP_HEADER_IPV4_LEN], 0xAA);
    assert_eq!(datagram[UDP_HEADER_IPV4_LEN + 1], 0xBB);
}

#[test]
fn ipv4_header_layout_and_length() {
    let mut msg = UdpMessage::new();
    let payload_data = b"hello";
    msg.payload_mut()[..payload_data.len()].copy_from_slice(payload_data);

    let origin = v4(192, 168, 1, 42, 5000);
    let datagram = msg.to_datagram(origin, payload_data.len());

    assert_eq!(datagram.len(), UDP_HEADER_IPV4_LEN + payload_data.len());
    assert_eq!(datagram[0], UDP_IPV4_ORIGIN);
    assert_eq!(&datagram[1..5], &[192u8, 168, 1, 42]);
    assert_eq!(&datagram[5..7], &5000u16.to_be_bytes());
    assert_eq!(&datagram[UDP_HEADER_IPV4_LEN..], payload_data);
}

#[test]
fn ipv6_header_layout_and_length() {
    let mut msg = UdpMessage::new();
    let payload_data = b"world!";
    msg.payload_mut()[..payload_data.len()].copy_from_slice(payload_data);

    let (origin, octets) = v6_documentation(51820);
    let datagram = msg.to_datagram(origin, payload_data.len());

    assert_eq!(datagram.len(), UDP_HEADER_IPV6_LEN + payload_data.len());
    assert_eq!(datagram[0], UDP_IPV6_ORIGIN);
    assert_eq!(&datagram[1..17], &octets);
    assert_eq!(&datagram[17..19], &51820u16.to_be_bytes());
    assert_eq!(&datagram[UDP_HEADER_IPV6_LEN..], payload_data);
}

#[test]
fn zero_length_payload_ipv4() {
    let mut msg = UdpMessage::new();
    let origin = v4(10, 0, 0, 1, 1);
    let datagram = msg.to_datagram(origin, 0);
    assert_eq!(datagram.len(), UDP_HEADER_IPV4_LEN);
    assert_eq!(datagram[0], UDP_IPV4_ORIGIN);
}

#[test]
fn zero_length_payload_ipv6() {
    let mut msg = UdpMessage::new();
    let origin = v6_localhost(1);
    let datagram = msg.to_datagram(origin, 0);
    assert_eq!(datagram.len(), UDP_HEADER_IPV6_LEN);
    assert_eq!(datagram[0], UDP_IPV6_ORIGIN);
}

#[test]
fn max_capacity_payload_ipv4() {
    let mut msg = UdpMessage::new();
    let fill: Vec<u8> = (0..UDP_PAYLOAD_CAPACITY).map(|i| (i % 256) as u8).collect();
    msg.payload_mut().copy_from_slice(&fill);

    let origin = v4(127, 0, 0, 1, 9999);
    let datagram = msg.to_datagram(origin, UDP_PAYLOAD_CAPACITY);

    assert_eq!(datagram.len(), UDP_HEADER_IPV4_LEN + UDP_PAYLOAD_CAPACITY);
    assert_eq!(&datagram[UDP_HEADER_IPV4_LEN..], &fill[..]);
}

#[test]
fn max_capacity_payload_ipv6() {
    let mut msg = UdpMessage::new();
    let fill: Vec<u8> = (0..UDP_PAYLOAD_CAPACITY).map(|i| (i % 256) as u8).collect();
    msg.payload_mut().copy_from_slice(&fill);

    let origin = v6_localhost(9999);
    let datagram = msg.to_datagram(origin, UDP_PAYLOAD_CAPACITY);

    assert_eq!(datagram.len(), UDP_HEADER_IPV6_LEN + UDP_PAYLOAD_CAPACITY);
    assert_eq!(&datagram[UDP_HEADER_IPV6_LEN..], &fill[..]);
}

#[test]
fn ipv4_and_ipv6_headers_have_expected_length_difference() {
    assert_eq!(UDP_HEADER_IPV6_LEN - UDP_HEADER_IPV4_LEN, HEADER_GAP_IPV4);
    assert_eq!(UDP_HEADER_IPV4_LEN, 7);
    assert_eq!(UDP_HEADER_IPV6_LEN, 19);
}

#[test]
fn different_messages_do_not_share_state() {
    let mut msg1 = UdpMessage::new();
    let mut msg2 = UdpMessage::new();

    msg1.payload_mut()[0] = 1;
    msg2.payload_mut()[0] = 2;

    let origin = v4(127, 0, 0, 1, 1);
    let d1 = msg1.to_datagram(origin, 1);
    let d2 = msg2.to_datagram(origin, 1);

    assert_eq!(d1[UDP_HEADER_IPV4_LEN], 1);
    assert_eq!(d2[UDP_HEADER_IPV4_LEN], 2);
}

#[test]
fn extract_origin_addr_ipv4_zero_length_payload() {
    let origin = v4(10, 0, 0, 1, 1);
    let mut msg = UdpMessage::new();
    let mut datagram = msg.to_datagram(origin, 0);

    let extracted = UdpMessage::extract_origin_addr(&mut datagram);

    assert_eq!(extracted, Some(origin));
    assert!(datagram.is_empty());
}

#[test]
fn extract_origin_addr_ipv6_zero_length_payload() {
    let origin = v6_localhost(1);
    let mut msg = UdpMessage::new();
    let mut datagram = msg.to_datagram(origin, 0);

    let extracted = UdpMessage::extract_origin_addr(&mut datagram);

    assert_eq!(extracted, Some(origin));
    assert!(datagram.is_empty());
}

#[test]
fn extract_origin_addr_ipv4_port_zero_and_max() {
    for port in [0u16, u16::MAX] {
        let origin = v4(1, 2, 3, 4, port);
        let mut msg = UdpMessage::new();
        let mut datagram = msg.to_datagram(origin, 0);

        assert_eq!(UdpMessage::extract_origin_addr(&mut datagram), Some(origin));
    }
}

#[test]
fn extract_origin_addr_ipv6_port_zero_and_max() {
    for port in [0u16, u16::MAX] {
        let origin = v6_localhost(port);
        let mut msg = UdpMessage::new();
        let mut datagram = msg.to_datagram(origin, 0);

        assert_eq!(UdpMessage::extract_origin_addr(&mut datagram), Some(origin));
    }
}

#[test]
fn extract_origin_addr_invalid_tag_returns_none() {
    let mut bytes = vec![0xFF, 1, 2, 3, 4, 5, 6];

    let extracted = UdpMessage::extract_origin_addr(&mut bytes);

    assert_eq!(extracted, None);
    assert_eq!(&bytes[..], &[1, 2, 3, 4, 5, 6]);
}

#[test]
fn origin_header_does_not_fit_in_empty_or_short_buffer() {
    assert!(!origin_header_fits(&[]));
    assert!(!origin_header_fits(&[UDP_IPV4_ORIGIN, 1, 2, 3, 4, 5]));
    assert!(origin_header_fits(&[UDP_IPV4_ORIGIN, 1, 2, 3, 4, 5, 6]));
    assert!(!origin_header_fits(&[UDP_IPV6_ORIGIN; 18]));
    assert!(origin_header_fits(&[UDP_IPV6_ORIGIN; 19]));
    assert!(origin_header_fits(&[0xFF]));
}

#[test]
fn extract_origin_addr_ipv4_roundtrip() {
    let origin = v4(192, 168, 1, 42, 5000);
    let mut msg = UdpMessage::new();
    let payload_data = b"hello";
    msg.payload_mut()[..payload_data.len()].copy_from_slice(payload_data);

    let mut datagram = msg.to_datagram(origin, payload_data.len());
    let extracted = UdpMessage::extract_origin_addr(&mut datagram);

    assert_eq!(extracted, Some(origin));
    assert_eq!(&datagram[..], payload_data);
}

#[test]
fn extract_origin_addr_ipv6_roundtrip() {
    let (origin, _) = v6_documentation(51820);
    let mut msg = UdpMessage::new();
    let payload_data = b"world!";
    msg.payload_mut()[..payload_data.len()].copy_from_slice(payload_data);

    let mut datagram = msg.to_datagram(origin, payload_data.len());
    let extracted = UdpMessage::extract_origin_addr(&mut datagram);

    assert_eq!(extracted, Some(origin));
    assert_eq!(&datagram[..], payload_data);
}

#[test]
fn full_pipeline_to_datagram_then_extract_preserves_payload_bytes() {
    let origin = v4(203, 0, 113, 5, 4242);
    let mut msg = UdpMessage::new();
    let fill: Vec<u8> = (0..UDP_PAYLOAD_CAPACITY).map(|i| (i % 256) as u8).collect();
    msg.payload_mut().copy_from_slice(&fill);

    let mut datagram = msg.to_datagram(origin, UDP_PAYLOAD_CAPACITY);
    let extracted = UdpMessage::extract_origin_addr(&mut datagram);

    assert_eq!(extracted, Some(origin));
    assert_eq!(&datagram[..], &fill[..]);
}

#[test]
fn payload_length_beyond_capacity_sends_whole_payload() {
    let mut msg = UdpMessage::new();
    let datagram = msg.to_datagram(v4(1, 1, 1, 1, 1), UDP_PAYLOAD_CAPACITY + 50);
    assert_eq!(datagram.len(), UDP_HEADER_IPV4_LEN + UDP_PAYLOAD_CAPACITY);
}

#[test]
fn free_to_datagram_takes_only_received_bytes() {
    let buffer = [9u8, 8, 7, 6, 5];
    let datagram = to_datagram(v4(10, 1, 2, 3, 0x1234), &buffer, 3);
    assert_eq!(datagram, vec![UDP_IPV4_ORIGIN, 10, 1, 2, 3, 0x12, 0x34, 9, 8, 7]);
    let mut d = datagram.clone();
    assert_eq!(UdpMessage::extract_origin_addr(&mut d), Some(v4(10, 1, 2, 3, 0x1234)));
    assert_eq!(d, vec![9, 8, 7]);
}

// Command frames.

fn encode(frame: FrameV1) -> Vec<u8> {
    let mut codec = CodecV1;
    let mut dst = Vec::new();
    codec.encode(frame, &mut dst).unwrap();
    dst
}

#[test]
fn ping_and_pong_are_one_byte() {
    assert_eq!(encode(FrameV1::Ping), vec![3]);
    assert_eq!(encode(FrameV1::Pong), vec![4]);
}

#[test]
fn auth_frame_layout() {
    let frame = FrameV1::Auth {
        auth_key: AuthKey::new("key").unwrap(),
        ingress_id: IngressId::new("in").unwrap(),
    };
    assert_eq!(encode(frame), vec![0, 0, 7, 3, b'k', b'e', b'y', 2, b'i', b'n']);
}

#[test]
fn authenticated_frame_layout() {
    let frame = FrameV1::Authenticated {
        tunnel_id: TunnelId::from_counter(1),
        server_id: ServerId::new("s").unwrap(),
    };
    let mut expected = vec![1, 0, 18, 1, b's'];
    expected.extend_from_slice(&[0, 0, 0, 0, 0, 0, 0, 0, 0, 0, 0, 0, 0, 0, 0, 1]);
    assert_eq!(encode(frame), expected);
}

#[test]
fn tunnel_ids_from_distinct_counters_differ() {
    assert_ne!(TunnelId::from_counter(0), TunnelId::from_counter(1));
    assert_ne!(TunnelId::from_counter(256), TunnelId::from_counter(1));
    assert_eq!(TunnelId::from_counter(u64::MAX).0[8..], [0xff; 8]);
}

#[test]
fn tunnel_id_from_counter_is_big_endian() {
    let id = TunnelId::from_counter(0x0102_0304_0506_0708);
    assert_eq!(id.0, [0, 0, 0, 0, 0, 0, 0, 0, 1, 2, 3, 4, 5, 6, 7, 8]);
}

#[test]
fn decode_gives_back_encoded_auth_frame_and_leaves_the_rest() {
    let mut src = encode(FrameV1::Auth {
        auth_key: AuthKey::new("valid_auth_key").unwrap(),
        ingress_id: IngressId::new("ingress").unwrap(),
    });
    src.extend_from_slice(&[3, 4]);
    assert!(decode_is_defined(&src));
    let mut codec = CodecV1;
    match codec.decode(&mut src) {
        Ok(Some(FrameV1::Auth { auth_key, ingress_id })) => {
            assert_eq!(auth_key.to_str(), "valid_auth_key");
            assert_eq!(ingress_id.value(), "ingress");
        }
        other => panic!("unexpected {:?}", other),
    }
    assert_eq!(src, vec![3, 4]);
    assert!(matches!(codec.decode(&mut src), Ok(Some(FrameV1::Ping))));
    assert!(matches!(codec.decode(&mut src), Ok(Some(FrameV1::Pong))));
    assert!(matches!(codec.decode(&mut src), Ok(None)));
}

#[test]
fn decode_gives_back_encoded_authenticated_frame() {
    let mut src = encode(FrameV1::Authenticated {
        tunnel_id: TunnelId::from_counter(42),
        server_id: ServerId::new("server_id").unwrap(),
    });
    let mut codec = CodecV1;
    match codec.decode(&mut src) {
        Ok(Some(FrameV1::Authenticated { tunnel_id, server_id })) => {
            assert_eq!(tunnel_id, TunnelId::from_counter(42));
            assert_eq!(server_id.to_str(), "server_id");
        }
        other => panic!("unexpected {:?}", other),
    }
    assert!(src.is_empty());
}

#[test]
fn decode_waits_for_the_announced_length() {
    let full = encode(FrameV1::Auth {
        auth_key: AuthKey::new("key").unwrap(),
        ingress_id: IngressId::new("in").unwrap(),
    });
    let mut partial = full[..full.len() - 1].to_vec();
    let mut codec = CodecV1;
    assert!(matches!(codec.decode(&mut partial), Ok(None)));
    assert_eq!(partial.len(), full.len() - 1);
}

#[test]
fn decode_unknown_type_is_incomplete() {
    let mut src = vec![9, 1, 2];
    let mut codec = CodecV1;
    assert!(matches!(codec.decode(&mut src), Ok(None)));
    assert_eq!(src, vec![9, 1, 2]);
}

#[test]
fn decode_rejects_empty_fields() {
    let mut codec = CodecV1;
    let mut empty_key = vec![0, 0, 3, 0, 1, b'x'];
    assert!(matches!(codec.decode(&mut empty_key), Err(Error::InvalidAuthKey { .. })));
    assert!(empty_key.is_empty());
    let mut empty_id = vec![0, 0, 3, 1, b'k', 0];
    assert!(matches!(codec.decode(&mut empty_id), Err(Error::InvalidIngressId { .. })));
    let mut bad_server = vec![1, 0, 17, 0];
    bad_server.extend_from_slice(&[0u8; 16]);
    assert!(matches!(codec.decode(&mut bad_server), Err(Error::InvalidServerId { .. })));
}

#[test]
fn decode_is_defined_spots_truncated_fields() {
    assert!(decode_is_defined(&[]));
    assert!(!decode_is_defined(&[0, 0]));
    assert!(decode_is_defined(&[0, 0, 9]));
    assert!(!decode_is_defined(&[0, 0, 0]));
    assert!(!decode_is_defined(&[0, 0, 2, 5, 1]));
    assert!(decode_is_defined(&[7]));
}
