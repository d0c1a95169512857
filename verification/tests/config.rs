use siffleux::cli::{
    AuthenticationArgs, EgressAgrs, ServerArgs, TcpEgressAgrs, TcpIngressAgrs, TlsArgs,
    UdpEgressAgrs, UdpIngressAgrs,
};
use siffleux::net::{IpAddress, SocketAddress};
use siffleux::random_key::{generate_ingress_id, generate_secure_random_key};
use siffleux::siffleux_config::{
    EgressConfig, IngressConfig, DEFAULT_SERVER_PORT, DEFAULT_SERVER_TLS_CERTIFICATE_FILE,
    DEFAULT_SERVER_TLS_PRIVATE_KEY_FILE, DEFAULT_SERVER_TLS_SUBJECT_ALT_NAME,
};
use siffleux::toml_config::{
    AuthenticationToml, ClientToml, ServerToml, TcpEgressToml, TcpIngressToml, TlsToml,
    UdpEgressToml, UdpIngressToml, RANDOM_EGRESS_ID_FAILURE,
};
use siffleux::{AuthKey, EgressId, IngressId, ServerId};

fn server_table(address: &str) -> AuthenticationToml {
    AuthenticationToml {
        address: address.to_owned(),
        cert_hash: "hash".to_owned(),
        cert_subject_alt_name: None,
    }
}

fn tcp_egress(ingress: &str, server: Option<AuthenticationToml>, id: Option<&str>) -> TcpEgressToml {
    TcpEgressToml {
        server,
        id: id.map(|i| EgressId::new(i).unwrap()),
        ingress_id: IngressId::new(ingress).unwrap(),
        auth_key: AuthKey::new("key").unwrap(),
        target: "127.0.0.1:80".to_owned(),
    }
}

fn udp_egress(ingress: &str, server: Option<AuthenticationToml>) -> UdpEgressToml {
    UdpEgressToml {
        server,
        id: Some(EgressId::new("udp-egress").unwrap()),
        ingress_id: IngressId::new(ingress).unwrap(),
        auth_key: AuthKey::new("key").unwrap(),
        target: "127.0.0.1:5000".to_owned(),
    }
}

#[test]
fn random_key_is_padded_url_safe_base64() {
    let k16 = generate_secure_random_key::<16>().unwrap();
    assert_eq!(k16.len(), 24);
    assert!(k16.ends_with("=="));
    let k32 = generate_secure_random_key::<32>().unwrap();
    assert_eq!(k32.len(), 44);
    assert!(k32
        .chars()
        .all(|c| c.is_ascii_alphanumeric() || c == '-' || c == '_' || c == '='));
    assert_ne!(generate_secure_random_key::<16>().unwrap(), k16);
    assert_eq!(generate_ingress_id().unwrap().len(), 24);
}

#[test]
fn server_toml_defaults() {
    let toml = ServerToml {
        id: None,
        ip: None,
        port: None,
        tls: None,
        tcp_ingress: vec![],
        udp_ingress: vec![],
    };
    let (server, ingresses) = toml.into_configs().unwrap();
    assert_eq!(server.id.len(), 24);
    assert_eq!(server.client_addr, SocketAddress { ip: IpAddress::V4([0, 0, 0, 0]), port: 8765 });
    assert_eq!(DEFAULT_SERVER_PORT, 8765);
    assert_eq!(server.tls.certificate, "siffleux-cert.pem");
    assert_eq!(server.tls.private_key, "siffleux-key.pem");
    assert_eq!(server.tls.subject_alt_name, "self-host.siffleux.dev");
    assert_eq!(DEFAULT_SERVER_TLS_CERTIFICATE_FILE, "siffleux-cert.pem");
    assert_eq!(DEFAULT_SERVER_TLS_PRIVATE_KEY_FILE, "siffleux-key.pem");
    assert_eq!(DEFAULT_SERVER_TLS_SUBJECT_ALT_NAME, "self-host.siffleux.dev");
    assert!(ingresses.is_empty());
}

#[test]
fn server_toml_keeps_given_values_and_orders_ingresses() {
    let toml = ServerToml {
        id: Some(ServerId::new("my-server-id").unwrap()),
        ip: Some(IpAddress::V4([10, 0, 0, 1])),
        port: Some(9000),
        tls: Some(TlsToml {
            cert_pem_path: Some("server-cert.pem".to_owned()),
            key_pem_path: None,
            cert_subject_alt_name: Some("my-server.com".to_owned()),
        }),
        tcp_ingress: vec![
            TcpIngressToml {
                ip: None,
                port: 8080,
                id: Some(IngressId::new("ingress-1").unwrap()),
                auth_key: AuthKey::new("key-1").unwrap(),
            },
            TcpIngressToml {
                ip: Some(IpAddress::V4([127, 0, 0, 1])),
                port: 8081,
                id: None,
                auth_key: AuthKey::new("key-2").unwrap(),
            },
        ],
        udp_ingress: vec![UdpIngressToml {
            ip: None,
            port: 8082,
            id: Some(IngressId::new("ingress-3").unwrap()),
            auth_key: AuthKey::new("key-3").unwrap(),
        }],
    };
    let (server, ingresses) = toml.into_configs().unwrap();
    assert_eq!(server.id.to_str(), "my-server-id");
    assert_eq!(server.client_addr, SocketAddress { ip: IpAddress::V4([10, 0, 0, 1]), port: 9000 });
    assert_eq!(server.tls.certificate, "server-cert.pem");
    assert_eq!(server.tls.private_key, "siffleux-key.pem");
    assert_eq!(server.tls.subject_alt_name, "my-server.com");
    assert_eq!(ingresses.len(), 3);
    match &ingresses[0] {
        IngressConfig::TCP(c) => {
            assert_eq!(c.id.value(), "ingress-1");
            assert_eq!(c.addr, SocketAddress { ip: IpAddress::V4([0, 0, 0, 0]), port: 8080 });
            assert_eq!(c.auth_key.to_str(), "key-1");
        }
        other => panic!("unexpected {:?}", other),
    }
    match &ingresses[1] {
        IngressConfig::TCP(c) => {
            assert_eq!(c.id.len(), 24);
            assert_eq!(c.addr, SocketAddress { ip: IpAddress::V4([127, 0, 0, 1]), port: 8081 });
        }
        other => panic!("unexpected {:?}", other),
    }
    match &ingresses[2] {
        IngressConfig::UDP(c) => {
            assert_eq!(c.id.value(), "ingress-3");
            assert_eq!(c.addr.port, 8082);
            assert_eq!(c.auth_key.to_str(), "key-3");
        }
        other => panic!("unexpected {:?}", other),
    }
}

#[test]
fn client_toml_egress_server_overrides_top_level() {
    let own = AuthenticationToml {
        address: "own.example:1".to_owned(),
        cert_hash: "own-hash".to_owned(),
        cert_subject_alt_name: Some("own.example".to_owned()),
    };
    let toml = ClientToml {
        server: Some(server_table("example.com:8765")),
        tcp_egress: vec![
            tcp_egress("ingress-1", None, Some("egress-1")),
            tcp_egress("ingress-2", Some(own), None),
        ],
        udp_egress: vec![udp_egress("ingress-3", None)],
    };
    let configs = toml.into_egress_configs().unwrap();
    assert_eq!(configs.len(), 3);
    match &configs[0] {
        EgressConfig::TCP(c) => {
            assert_eq!(c.id.to_str(), "egress-1");
            assert_eq!(c.ingress_id.value(), "ingress-1");
            assert_eq!(c.authentication_config.server, "example.com:8765");
            assert_eq!(c.authentication_config.certificate_hash, "hash");
            assert_eq!(
                c.authentication_config.certificate_subject_alt_name,
                "self-host.siffleux.dev"
            );
            assert_eq!(c.target, "127.0.0.1:80");
        }
        other => panic!("unexpected {:?}", other),
    }
    match &configs[1] {
        EgressConfig::TCP(c) => {
            assert_eq!(c.id.len(), 24);
            assert_eq!(c.authentication_config.server, "own.example:1");
            assert_eq!(c.authentication_config.certificate_hash, "own-hash");
            assert_eq!(c.authentication_config.certificate_subject_alt_name, "own.example");
        }
        other => panic!("unexpected {:?}", other),
    }
    match &configs[2] {
        EgressConfig::UDP(c) => {
            assert_eq!(c.id.to_str(), "udp-egress");
            assert_eq!(c.ingress_id.value(), "ingress-3");
            assert_eq!(c.target, "127.0.0.1:5000");
        }
        other => panic!("unexpected {:?}", other),
    }
}

#[test]
fn client_toml_egress_without_server_is_refused() {
    let toml = ClientToml {
        server: None,
        tcp_egress: vec![
            tcp_egress("served", Some(server_table("a:1")), Some("e")),
            tcp_egress("lonely", None, Some("f")),
        ],
        udp_egress: vec![udp_egress("also-lonely", None)],
    };
    assert_eq!(
        toml.into_egress_configs().unwrap_err(),
        "TCP egress ingress_id=lonely doesn't a server to connect to."
    );
    let toml = ClientToml {
        server: None,
        tcp_egress: vec![],
        udp_egress: vec![udp_egress("udp-lonely", None)],
    };
    assert_eq!(
        toml.into_egress_configs().unwrap_err(),
        "UDP egress ingress_id=udp-lonely doesn't a server to connect to."
    );
    assert_eq!(RANDOM_EGRESS_ID_FAILURE, "Failed to generate a random egress id.");
}

#[test]
fn authentication_toml_default_alt_name() {
    let c = server_table("host:1").into_authentication_config();
    assert_eq!(c.server, "host:1");
    assert_eq!(c.certificate_hash, "hash");
    assert_eq!(c.certificate_subject_alt_name, "self-host.siffleux.dev");
}

#[test]
fn ingress_toml_entries() {
    let tcp = TcpIngressToml {
        ip: None,
        port: 3000,
        id: Some(IngressId::new("i").unwrap()),
        auth_key: AuthKey::new("k").unwrap(),
    };
    match tcp.into_ingress_config().unwrap() {
        IngressConfig::TCP(c) => {
            assert_eq!(c.addr, SocketAddress { ip: IpAddress::V4([0, 0, 0, 0]), port: 3000 })
        }
        other => panic!("unexpected {:?}", other),
    }
    let udp = UdpIngressToml {
        ip: Some(IpAddress::V6([0; 16])),
        port: 1,
        id: None,
        auth_key: AuthKey::new("k").unwrap(),
    };
    match udp.into_ingress_config().unwrap() {
        IngressConfig::UDP(c) => {
            assert_eq!(c.addr.ip, IpAddress::V6([0; 16]));
            assert_eq!(c.id.len(), 24);
        }
        other => panic!("unexpected {:?}", other),
    }
}

#[test]
fn cli_server_and_ingress_arguments() {
    let args = ServerArgs {
        id: None,
        ip: IpAddress::V4([0, 0, 0, 0]),
        port: 8765,
        tls: TlsArgs {
            cert_pem_path: "c.pem".to_owned(),
            key_pem_path: "k.pem".to_owned(),
            cert_subject_alt_name: "san".to_owned(),
        },
    };
    let server = args.into_server_config().unwrap();
    assert_eq!(server.id.len(), 24);
    assert_eq!(server.tls.certificate, "c.pem");
    assert_eq!(server.tls.private_key, "k.pem");
    assert_eq!(server.tls.subject_alt_name, "san");

    let tcp = TcpIngressAgrs { ip: IpAddress::V4([1, 2, 3, 4]), port: 3000, id: None, auth_key: None };
    match tcp.into_ingress_config().unwrap() {
        IngressConfig::TCP(c) => {
            assert_eq!(c.auth_key.to_str().len(), 44);
            assert_eq!(c.id.len(), 24);
            assert_eq!(c.addr, SocketAddress { ip: IpAddress::V4([1, 2, 3, 4]), port: 3000 });
        }
        other => panic!("unexpected {:?}", other),
    }
    let udp = UdpIngressAgrs {
        ip: IpAddress::V4([0, 0, 0, 0]),
        port: 3000,
        id: Some(IngressId::new("ingress").unwrap()),
        auth_key: Some(AuthKey::new("valid_auth_key").unwrap()),
    };
    match udp.into_ingress_config().unwrap() {
        IngressConfig::UDP(c) => {
            assert_eq!(c.auth_key.to_str(), "valid_auth_key");
            assert_eq!(c.id.value(), "ingress");
        }
        other => panic!("unexpected {:?}", other),
    }
}

#[test]
fn cli_egress_arguments() {
    let authentication = || AuthenticationArgs {
        server: "127.0.0.1:8765".to_owned(),
        cert_hash: "CERT".to_owned(),
        cert_subject_alt_name: "self-host.siffleux.dev".to_owned(),
    };
    let tcp = TcpEgressAgrs {
        authentication_args: authentication(),
        egress_args: EgressAgrs {
            id: Some(EgressId::new("egress").unwrap()),
            ingress_id: IngressId::new("ingress").unwrap(),
            auth_key: AuthKey::new("valid_auth_key").unwrap(),
        },
        target: "127.0.0.1:80".to_owned(),
    };
    match tcp.into_egress_config().unwrap() {
        EgressConfig::TCP(c) => {
            assert_eq!(c.id.to_str(), "egress");
            assert_eq!(c.authentication_config.server, "127.0.0.1:8765");
            assert_eq!(c.authentication_config.certificate_hash, "CERT");
            assert_eq!(c.target, "127.0.0.1:80");
        }
        other => panic!("unexpected {:?}", other),
    }
    let udp = UdpEgressAgrs {
        authentication_args: authentication(),
        egress_args: EgressAgrs {
            id: None,
            ingress_id: IngressId::new("ingress").unwrap(),
            auth_key: AuthKey::new("valid_auth_key").unwrap(),
        },
        target: "127.0.0.1:5000".to_owned(),
    };
    match udp.into_egress_config().unwrap() {
        EgressConfig::UDP(c) => {
            assert_eq!(c.id.len(), 24);
            assert_eq!(c.ingress_id.value(), "ingress");
            assert_eq!(c.auth_key.to_str(), "valid_auth_key");
        }
        other => panic!("unexpected {:?}", other),
    }
}
