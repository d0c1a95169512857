//! The settings a server or a client runs with, once every default has been filled
//! in and every missing id generated.
use vstd::prelude::*;

use crate::net::{spec_unspecified_v4, IpAddress, SocketAddress};
use crate::types::{AuthKey, EgressId, IngressId, ServerId, TunnelName};

verus! {

/// Port on which a server listens for clients unless told otherwise.
pub const DEFAULT_SERVER_PORT: u16 = 8765;

/// Port on which an ingress started from the command line listens unless told
/// otherwise.
pub const DEFAULT_INGRESS_PORT: u16 = 3000;

/// PEM certificate file of a server unless told otherwise.
pub const DEFAULT_SERVER_TLS_CERTIFICATE_FILE: &'static str = "siffleux-cert.pem";

/// PEM private key file of a server unless told otherwise.
pub const DEFAULT_SERVER_TLS_PRIVATE_KEY_FILE: &'static str = "siffleux-key.pem";

/// Subject alternative name of the server certificate unless told otherwise.
pub const DEFAULT_SERVER_TLS_SUBJECT_ALT_NAME: &'static str = "self-host.siffleux.dev";

/// Address on which a server listens for clients unless told otherwise: every
/// IPv4 interface.
pub fn default_server_ip() -> (r: IpAddress)
    ensures
        r == spec_unspecified_v4(),
{
    IpAddress::unspecified_v4()
}

/// Address on which an ingress listens unless told otherwise: every IPv4
/// interface.
pub fn default_ingress_ip() -> (r: IpAddress)
    ensures
        r == spec_unspecified_v4(),
{
    IpAddress::unspecified_v4()
}

/// TLS settings of a server.
#[derive(Debug)]
pub struct TlsToml {
    /// Path to the PEM certificate.
    pub certificate: String,
    /// Path to the PEM private key.
    pub private_key: String,
    /// Certificate subject alt name.
    pub subject_alt_name: String,
}

/// Settings of a server.
#[derive(Debug)]
pub struct ServerConfig {
    /// ID to identify the server the client is connected to.
    pub id: ServerId,
    /// Socket address the server listens on for client connections.
    pub client_addr: SocketAddress,
    /// TLS settings.
    pub tls: TlsToml,
}

/// Settings of an ingress.
#[derive(Debug)]
pub enum IngressConfig {
    TCP(TcpIngressConfig),
    UDP(UdpIngressConfig),
}

/// Settings of a TCP ingress.
#[derive(Debug)]
pub struct TcpIngressConfig {
    /// Socket address the TCP ingress listens on for TCP connections.
    pub addr: SocketAddress,
    /// ID of the ingress.
    pub id: IngressId,
    /// Authentication key used to connect to the ingress.
    pub auth_key: AuthKey,
}

/// Settings of a UDP ingress.
#[derive(Debug)]
pub struct UdpIngressConfig {
    /// Socket address the UDP ingress listens on for UDP datagrams.
    pub addr: SocketAddress,
    /// ID of the ingress.
    pub id: IngressId,
    /// Authentication key used to connect to the ingress.
    pub auth_key: AuthKey,
}

/// How a client reaches and recognises its server.
#[derive(Debug)]
pub struct AuthenticationConfig {
    /// Address (hostname:port or ip:port) of the server to connect to.
    pub server: String,
    /// Hash of the server certificate to validate.
    pub certificate_hash: String,
    /// Certificate subject alt name.
    pub certificate_subject_alt_name: String,
}

/// Settings of an egress.
#[derive(Debug)]
pub enum EgressConfig {
    TCP(TcpEgressConfig),
    UDP(UdpEgressConfig),
}

/// Settings of a TCP egress.
#[derive(Debug)]
pub struct TcpEgressConfig {
    pub authentication_config: AuthenticationConfig,
    /// ID of the egress.
    pub id: EgressId,
    /// ID of the ingress to receive ingress connections.
    pub ingress_id: IngressId,
    /// Authentication key used to connect to the ingress.
    pub auth_key: AuthKey,
    /// Address (hostname:port or ip:port) to send the TCP connections received from
    /// the ingress.
    pub target: String,
}

/// Settings of a UDP egress.
#[derive(Debug)]
pub struct UdpEgressConfig {
    pub authentication_config: AuthenticationConfig,
    /// ID of the egress.
    pub id: EgressId,
    /// ID of the ingress to receive ingress connections.
    pub ingress_id: IngressId,
    /// Authentication key used to connect to the ingress.
    pub auth_key: AuthKey,
    /// Address (hostname:port or ip:port) to send the UDP datagrams received from the
    /// ingress.
    pub target: String,
}

/// How a client reaches the server of a named tunnel.
#[derive(Debug)]
pub struct TunnelConfig {
    /// Address (hostname:port or ip:port) of the server to connect the tunnel.
    pub server: String,
    /// Name to identify the tunnel on the server.
    pub name: Option<TunnelName>,
    /// Hash of the server certificate to validate.
    pub cert_hash: String,
    /// Certificate subject alt name.
    pub cert_subject_alt_name: String,
}

} // verus!
