//! Server and client settings as given on the command line, and how the values
//! left out are filled in.
use vstd::prelude::*;

use crate::net::{IpAddress, SocketAddress};
use crate::random_key::{
    generate_auth_key, generate_egress_id, generate_ingress_id, generate_server_id,
    is_random_key_text,
};
use crate::siffleux_config;
use crate::siffleux_config::{
    AuthenticationConfig, EgressConfig, IngressConfig, ServerConfig, TcpEgressConfig,
    TcpIngressConfig, UdpEgressConfig, UdpIngressConfig,
};
use crate::toml_config::{
    spec_egress_id_resolved, spec_ingress_id_resolved, spec_server_id_resolved,
};
use crate::types::{AuthKey, EgressId, IngressId, ServerId};

verus! {

// #########################
// Server CLI
// #########################

/// Options of a server.
#[derive(Debug)]
pub struct ServerArgs {
    /// ID to identify the server.
    pub id: Option<ServerId>,
    /// IP address the server will listen for client connections.
    pub ip: IpAddress,
    /// Port the server will listen for client connections.
    pub port: u16,
    pub tls: TlsArgs,
}

/// TLS options of a server.
#[derive(Debug)]
pub struct TlsArgs {
    /// Path to the PEM certificate.
    pub cert_pem_path: String,
    /// Path to the PEM private key.
    pub key_pem_path: String,
    /// Certificate subject alt name.
    pub cert_subject_alt_name: String,
}

impl ServerArgs {
    /// `c` holds the settings given by these options.
    pub open spec fn spec_resolved_by(self, c: ServerConfig) -> bool {
        &&& spec_server_id_resolved(self.id, c.id)
        &&& c.client_addr == (SocketAddress { ip: self.ip, port: self.port })
        &&& c.tls.certificate@ == self.tls.cert_pem_path@
        &&& c.tls.private_key@ == self.tls.key_pem_path@
        &&& c.tls.subject_alt_name@ == self.tls.cert_subject_alt_name@
    }

    /// The server settings given by these options, with a fresh id when none is
    /// given. `None` only when the id is left out and no random id could be drawn.
    pub fn into_server_config(self) -> (r: Option<ServerConfig>)
        ensures
            r matches Some(c) ==> self.spec_resolved_by(c),
            self.id is Some ==> r is Some,
    {
        let id = match self.id {
            Some(id) => id,
            None => generate_server_id()?,
        };
        Some(
            ServerConfig {
                id,
                client_addr: SocketAddress { ip: self.ip, port: self.port },
                tls: siffleux_config::TlsToml {
                    certificate: self.tls.cert_pem_path,
                    private_key: self.tls.key_pem_path,
                    subject_alt_name: self.tls.cert_subject_alt_name,
                },
            },
        )
    }
}

/// The settings of an ingress listening on `ip` and `port`, with the given id and
/// auth key, or fresh random ones when not given.
pub open spec fn spec_ingress_args_resolved(
    ip: IpAddress,
    port: u16,
    id: Option<IngressId>,
    auth_key: Option<AuthKey>,
    addr: SocketAddress,
    resolved_id: IngressId,
    resolved_key: AuthKey,
) -> bool {
    &&& addr == (SocketAddress { ip, port })
    &&& spec_ingress_id_resolved(id, resolved_id)
    &&& match auth_key {
        Some(k) => resolved_key@ == k@,
        None => is_random_key_text(resolved_key@, 32),
    }
}

/// Options of a TCP ingress.
#[derive(Debug)]
pub struct TcpIngressAgrs {
    /// IP address the TCP ingress will listen for TCP connections.
    pub ip: IpAddress,
    /// Port the TCP ingress will listen for TCP connections.
    pub port: u16,
    /// ID of the ingress.
    pub id: Option<IngressId>,
    /// Authentication key used to connect to the ingress.
    pub auth_key: Option<AuthKey>,
}

impl TcpIngressAgrs {
    /// `c` holds the settings given by these options.
    pub open spec fn spec_resolved_by(self, c: IngressConfig) -> bool {
        c matches IngressConfig::TCP(t) && spec_ingress_args_resolved(
            self.ip,
            self.port,
            self.id,
            self.auth_key,
            t.addr,
            t.id,
            t.auth_key,
        )
    }

    /// The TCP ingress settings given by these options, with a fresh auth key and a
    /// fresh id when they are not given. `None` only when something is left out and
    /// no random value could be drawn.
    pub fn into_ingress_config(self) -> (r: Option<IngressConfig>)
        ensures
            r matches Some(c) ==> self.spec_resolved_by(c),
            self.id is Some && self.auth_key is Some ==> r is Some,
    {
        let auth_key = match self.auth_key {
            Some(k) => k,
            None => generate_auth_key()?,
        };
        let id = match self.id {
            Some(id) => id,
            None => generate_ingress_id()?,
        };
        Some(
            IngressConfig::TCP(
                TcpIngressConfig { addr: SocketAddress { ip: self.ip, port: self.port }, id, auth_key },
            ),
        )
    }
}

/// Options of a UDP ingress.
#[derive(Debug)]
pub struct UdpIngressAgrs {
    /// IP address the UDP ingress will listen for UDP datagrams.
    pub ip: IpAddress,
    /// Port the UDP ingress will listen for UDP datagrams.
    pub port: u16,
    /// ID of the ingress.
    pub id: Option<IngressId>,
    /// Authentication key used to connect to the ingress.
    pub auth_key: Option<AuthKey>,
}

impl UdpIngressAgrs {
    /// `c` holds the settings given by these options.
    pub open spec fn spec_resolved_by(self, c: IngressConfig) -> bool {
        c matches IngressConfig::UDP(u) && spec_ingress_args_resolved(
            self.ip,
            self.port,
            self.id,
            self.auth_key,
            u.addr,
            u.id,
            u.auth_key,
        )
    }

    /// The UDP ingress settings given by these options, with a fresh auth key and a
    /// fresh id when they are not given. `None` only when something is left out and
    /// no random value could be drawn.
    pub fn into_ingress_config(self) -> (r: Option<IngressConfig>)
        ensures
            r matches Some(c) ==> self.spec_resolved_by(c),
            self.id is Some && self.auth_key is Some ==> r is Some,
    {
        let auth_key = match self.auth_key {
            Some(k) => k,
            None => generate_auth_key()?,
        };
        let id = match self.id {
            Some(id) => id,
            None => generate_ingress_id()?,
        };
        Some(
            IngressConfig::UDP(
                UdpIngressConfig { addr: SocketAddress { ip: self.ip, port: self.port }, id, auth_key },
            ),
        )
    }
}

// #########################
// Client CLI
// #########################

/// How to reach and recognise the server, as given on the command line.
#[derive(Debug)]
pub struct AuthenticationArgs {
    /// Address (hostname:port or ip:port) of the server to connect to.
    pub server: String,
    /// Hash of the server certificate to validate.
    pub cert_hash: String,
    /// Certificate subject alt name.
    pub cert_subject_alt_name: String,
}

impl AuthenticationArgs {
    /// The settings given by these options.
    pub fn into_authentication_config(self) -> (r: AuthenticationConfig)
        ensures
            r.server@ == self.server@,
            r.certificate_hash@ == self.cert_hash@,
            r.certificate_subject_alt_name@ == self.cert_subject_alt_name@,
    {
        AuthenticationConfig {
            server: self.server,
            certificate_hash: self.cert_hash,
            certificate_subject_alt_name: self.cert_subject_alt_name,
        }
    }
}

/// Options shared by every kind of egress.
#[derive(Debug)]
pub struct EgressAgrs {
    /// ID of the egress.
    pub id: Option<EgressId>,
    /// ID of the ingress to receive ingress connections.
    pub ingress_id: IngressId,
    /// Authentication key used to connect to the ingress.
    pub auth_key: AuthKey,
}

/// The settings of an egress given by `authentication`, `egress` and `target`.
pub open spec fn spec_egress_args_resolved(
    authentication: AuthenticationArgs,
    egress: EgressAgrs,
    target: String,
    c_authentication: AuthenticationConfig,
    c_id: EgressId,
    c_ingress_id: IngressId,
    c_auth_key: AuthKey,
    c_target: String,
) -> bool {
    &&& c_authentication.server@ == authentication.server@
    &&& c_authentication.certificate_hash@ == authentication.cert_hash@
    &&& c_authentication.certificate_subject_alt_name@ == authentication.cert_subject_alt_name@
    &&& spec_egress_id_resolved(egress.id, c_id)
    &&& c_ingress_id@ == egress.ingress_id@
    &&& c_auth_key@ == egress.auth_key@
    &&& c_target@ == target@
}

/// Options of a TCP egress.
#[derive(Debug)]
pub struct TcpEgressAgrs {
    pub authentication_args: AuthenticationArgs,
    pub egress_args: EgressAgrs,
    /// Address (hostname:port or ip:port) to send the TCP connections received from
    /// the ingress.
    pub target: String,
}

impl TcpEgressAgrs {
    /// `c` holds the settings given by these options.
    pub open spec fn spec_resolved_by(self, c: EgressConfig) -> bool {
        c matches EgressConfig::TCP(t) && spec_egress_args_resolved(
            self.authentication_args,
            self.egress_args,
            self.target,
            t.authentication_config,
            t.id,
            t.ingress_id,
            t.auth_key,
            t.target,
        )
    }

    /// The TCP egress settings given by these options, with a fresh id when none is
    /// given. `None` only when the id is left out and no random id could be drawn.
    pub fn into_egress_config(self) -> (r: Option<EgressConfig>)
        ensures
            r matches Some(c) ==> self.spec_resolved_by(c),
            self.egress_args.id is Some ==> r is Some,
    {
        let id = match self.egress_args.id {
            Some(id) => id,
            None => generate_egress_id()?,
        };
        Some(
            EgressConfig::TCP(
                TcpEgressConfig {
                    authentication_config: self.authentication_args.into_authentication_config(),
                    id,
                    ingress_id: self.egress_args.ingress_id,
                    auth_key: self.egress_args.auth_key,
                    target: self.target,
                },
            ),
        )
    }
}

/// Options of a UDP egress.
#[derive(Debug)]
pub struct UdpEgressAgrs {
    pub authentication_args: AuthenticationArgs,
    pub egress_args: EgressAgrs,
    /// Address (hostname:port or ip:port) to send the UDP datagrams received from the
    /// ingress.
    pub target: String,
}

impl UdpEgressAgrs {
    /// `c` holds the settings given by these options.
    pub open spec fn spec_resolved_by(self, c: EgressConfig) -> bool {
        c matches EgressConfig::UDP(u) && spec_egress_args_resolved(
            self.authentication_args,
            self.egress_args,
            self.target,
            u.authentication_config,
            u.id,
            u.ingress_id,
            u.auth_key,
            u.target,
        )
    }

    /// The UDP egress settings given by these options, with a fresh id when none is
    /// given. `None` only when the id is left out and no random id could be drawn.
    pub fn into_egress_config(self) -> (r: Option<EgressConfig>)
        ensures
            r matches Some(c) ==> self.spec_resolved_by(c),
            self.egress_args.id is Some ==> r is Some,
    {
        let id = match self.egress_args.id {
            Some(id) => id,
            None => generate_egress_id()?,
        };
        Some(
            EgressConfig::UDP(
                UdpEgressConfig {
                    authentication_config: self.authentication_args.into_authentication_config(),
                    id,
                    ingress_id: self.egress_args.ingress_id,
                    auth_key: self.egress_args.auth_key,
                    target: self.target,
                },
            ),
        )
    }
}

/// Options of an egress that closes every stream the server opens.
#[derive(Debug)]
pub struct EndEgressAgrs {
    pub egress_args: EgressAgrs,
}

} // verus!
