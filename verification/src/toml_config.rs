//! Server and client settings as written in TOML files, and how the values left
//! out are filled in: defaults for addresses, ports and TLS files, fresh random
//! ids for servers, ingresses and egresses, and the top-level `[server]` for the
//! egresses that name none of their own.
use vstd::prelude::*;

use crate::error::joined;
use crate::net::{spec_unspecified_v4, IpAddress, SocketAddress};
use crate::random_key::{
    generate_egress_id, generate_ingress_id, generate_server_id, is_random_key_text,
};
use crate::siffleux_config;
use crate::siffleux_config::{
    default_ingress_ip, default_server_ip, AuthenticationConfig, EgressConfig, IngressConfig,
    ServerConfig, TcpEgressConfig, TcpIngressConfig, UdpEgressConfig, UdpIngressConfig,
    DEFAULT_SERVER_PORT, DEFAULT_SERVER_TLS_CERTIFICATE_FILE, DEFAULT_SERVER_TLS_PRIVATE_KEY_FILE,
    DEFAULT_SERVER_TLS_SUBJECT_ALT_NAME,
};
use crate::types::{AuthKey, EgressId, IngressId, ServerId};

verus! {

// #########################
// Filling in values
// #########################

/// `value` when given, else `default`.
pub open spec fn spec_text_or(value: Option<String>, default: Seq<char>) -> Seq<char> {
    match value {
        Some(s) => s@,
        None => default,
    }
}

/// `ip` when given, else every IPv4 interface.
pub open spec fn spec_ip_or_unspecified(ip: Option<IpAddress>) -> IpAddress {
    match ip {
        Some(ip) => ip,
        None => spec_unspecified_v4(),
    }
}

/// `resolved` is the given id, or a fresh random one when none was given.
pub open spec fn spec_ingress_id_resolved(given: Option<IngressId>, resolved: IngressId) -> bool {
    match given {
        Some(id) => resolved@ == id@,
        None => is_random_key_text(resolved@, 16),
    }
}

/// `resolved` is the given id, or a fresh random one when none was given.
pub open spec fn spec_egress_id_resolved(given: Option<EgressId>, resolved: EgressId) -> bool {
    match given {
        Some(id) => resolved@ == id@,
        None => is_random_key_text(resolved@, 16),
    }
}

/// `resolved` is the given id, or a fresh random one when none was given.
pub open spec fn spec_server_id_resolved(given: Option<ServerId>, resolved: ServerId) -> bool {
    match given {
        Some(id) => resolved@ == id@,
        None => is_random_key_text(resolved@, 16),
    }
}

/// The given text, or a copy of `default`.
fn text_or(value: &Option<String>, default: &str) -> (r: String)
    ensures
        r@ == spec_text_or(*value, default@),
{
    match value {
        Some(s) => s.clone(),
        None => default.to_owned(),
    }
}

/// Index of the first `false` in `flags`.
pub open spec fn spec_first_missing(flags: Seq<bool>) -> Option<int>
    decreases flags.len(),
{
    if flags.len() == 0 {
        None
    } else if !flags[0] {
        Some(0)
    } else {
        match spec_first_missing(flags.drop_first()) {
            Some(j) => Some(j + 1),
            None => None,
        }
    }
}

/// The first `false` of `flags` is at `i` when every earlier flag is `true`.
proof fn lemma_first_missing_at(flags: Seq<bool>, i: int)
    requires
        0 <= i < flags.len(),
        !flags[i],
        forall|k: int| 0 <= k < i ==> flags[k],
    ensures
        spec_first_missing(flags) == Some(i),
    decreases i,
{
    if i > 0 {
        lemma_first_missing_at(flags.drop_first(), i - 1);
    }
}

/// A sequence of `true` has no first `false`.
proof fn lemma_first_missing_none(flags: Seq<bool>)
    requires
        forall|k: int| 0 <= k < flags.len() ==> flags[k],
    ensures
        spec_first_missing(flags) is None,
    decreases flags.len(),
{
    if flags.len() > 0 {
        lemma_first_missing_none(flags.drop_first());
    }
}

// #########################
// Server Toml
// #########################

/// Settings of a server as written in its TOML file.
#[derive(Debug)]
pub struct ServerToml {
    /// ID to identify the server the client is connected to.
    pub id: Option<ServerId>,
    /// IP address the server will listen for client connections.
    pub ip: Option<IpAddress>,
    /// Port the server will listen for client connections.
    pub port: Option<u16>,
    /// TLS configs.
    pub tls: Option<TlsToml>,
    pub tcp_ingress: Vec<TcpIngressToml>,
    pub udp_ingress: Vec<UdpIngressToml>,
}

/// The `[tls]` table of a server's TOML file.
#[derive(Debug)]
pub struct TlsToml {
    /// Path to the PEM certificate.
    pub cert_pem_path: Option<String>,
    /// Path to the PEM private key.
    pub key_pem_path: Option<String>,
    /// Certificate subject alt name.
    pub cert_subject_alt_name: Option<String>,
}

/// `r` holds the TLS settings of the table `tls`: each value given, else its
/// default.
pub open spec fn spec_tls_resolved(tls: Option<TlsToml>, r: siffleux_config::TlsToml) -> bool {
    match tls {
        Some(t) => {
            &&& r.certificate@ == spec_text_or(t.cert_pem_path, DEFAULT_SERVER_TLS_CERTIFICATE_FILE@)
            &&& r.private_key@ == spec_text_or(t.key_pem_path, DEFAULT_SERVER_TLS_PRIVATE_KEY_FILE@)
            &&& r.subject_alt_name@ == spec_text_or(
                t.cert_subject_alt_name,
                DEFAULT_SERVER_TLS_SUBJECT_ALT_NAME@,
            )
        },
        None => {
            &&& r.certificate@ == DEFAULT_SERVER_TLS_CERTIFICATE_FILE@
            &&& r.private_key@ == DEFAULT_SERVER_TLS_PRIVATE_KEY_FILE@
            &&& r.subject_alt_name@ == DEFAULT_SERVER_TLS_SUBJECT_ALT_NAME@
        },
    }
}

fn tls_settings(tls: &Option<TlsToml>) -> (r: siffleux_config::TlsToml)
    ensures
        spec_tls_resolved(*tls, r),
{
    match tls {
        Some(t) => siffleux_config::TlsToml {
            certificate: text_or(&t.cert_pem_path, DEFAULT_SERVER_TLS_CERTIFICATE_FILE),
            private_key: text_or(&t.key_pem_path, DEFAULT_SERVER_TLS_PRIVATE_KEY_FILE),
            subject_alt_name: text_or(&t.cert_subject_alt_name, DEFAULT_SERVER_TLS_SUBJECT_ALT_NAME),
        },
        None => siffleux_config::TlsToml {
            certificate: DEFAULT_SERVER_TLS_CERTIFICATE_FILE.to_owned(),
            private_key: DEFAULT_SERVER_TLS_PRIVATE_KEY_FILE.to_owned(),
            subject_alt_name: DEFAULT_SERVER_TLS_SUBJECT_ALT_NAME.to_owned(),
        },
    }
}

/// The settings of an ingress listening on `ip` (every interface when not given)
/// and `port`, with the given id (a fresh one when not given) and auth key.
pub open spec fn spec_ingress_resolved(
    ip: Option<IpAddress>,
    port: u16,
    id: Option<IngressId>,
    auth_key: AuthKey,
    addr: SocketAddress,
    resolved_id: IngressId,
    resolved_key: AuthKey,
) -> bool {
    &&& addr == (SocketAddress { ip: spec_ip_or_unspecified(ip), port })
    &&& spec_ingress_id_resolved(id, resolved_id)
    &&& resolved_key@ == auth_key@
}

/// The given ingress id, or a fresh one.
fn ingress_id_or_generated(id: &Option<IngressId>) -> (r: Option<IngressId>)
    ensures
        r matches Some(i) ==> spec_ingress_id_resolved(*id, i),
        id is Some ==> r is Some,
{
    match id {
        Some(id) => Some(id.clone()),
        None => generate_ingress_id(),
    }
}

/// A `[[tcp_ingress]]` entry of a server's TOML file.
#[derive(Debug)]
pub struct TcpIngressToml {
    /// IP address the TCP ingress will listen for TCP connections.
    pub ip: Option<IpAddress>,
    /// Port the TCP ingress will listen for TCP connections.
    pub port: u16,
    /// ID of the ingress.
    pub id: Option<IngressId>,
    /// Authentication key used to connect to the ingress.
    pub auth_key: AuthKey,
}

impl TcpIngressToml {
    /// `c` holds the settings of this entry.
    pub open spec fn spec_resolved_by(self, c: IngressConfig) -> bool {
        c matches IngressConfig::TCP(t) && spec_ingress_resolved(
            self.ip,
            self.port,
            self.id,
            self.auth_key,
            t.addr,
            t.id,
            t.auth_key,
        )
    }

    /// The TCP ingress settings of this entry. `None` only when the id is left out
    /// and no random id could be drawn.
    pub fn into_ingress_config(self) -> (r: Option<IngressConfig>)
        ensures
            r matches Some(c) ==> self.spec_resolved_by(c),
            self.id is Some ==> r is Some,
    {
        self.ingress_config()
    }

    fn ingress_config(&self) -> (r: Option<IngressConfig>)
        ensures
            r matches Some(c) ==> self.spec_resolved_by(c),
            self.id is Some ==> r is Some,
    {
        let ip = match self.ip {
            Some(ip) => ip,
            None => default_ingress_ip(),
        };
        let id = ingress_id_or_generated(&self.id)?;
        Some(
            IngressConfig::TCP(
                TcpIngressConfig {
                    addr: SocketAddress { ip, port: self.port },
                    id,
                    auth_key: self.auth_key.clone(),
                },
            ),
        )
    }
}

/// A `[[udp_ingress]]` entry of a server's TOML file.
#[derive(Debug)]
pub struct UdpIngressToml {
    /// IP address the UDP ingress will listen for UDP datagrams.
    pub ip: Option<IpAddress>,
    /// Port the UDP ingress will listen for UDP datagrams.
    pub port: u16,
    /// ID of the ingress.
    pub id: Option<IngressId>,
    /// Authentication key used to connect to the ingress.
    pub auth_key: AuthKey,
}

impl UdpIngressToml {
    /// `c` holds the settings of this entry.
    pub open spec fn spec_resolved_by(self, c: IngressConfig) -> bool {
        c matches IngressConfig::UDP(u) && spec_ingress_resolved(
            self.ip,
            self.port,
            self.id,
            self.auth_key,
            u.addr,
            u.id,
            u.auth_key,
        )
    }

    /// The UDP ingress settings of this entry. `None` only when the id is left out
    /// and no random id could be drawn.
    pub fn into_ingress_config(self) -> (r: Option<IngressConfig>)
        ensures
            r matches Some(c) ==> self.spec_resolved_by(c),
            self.id is Some ==> r is Some,
    {
        self.ingress_config()
    }

    fn ingress_config(&self) -> (r: Option<IngressConfig>)
        ensures
            r matches Some(c) ==> self.spec_resolved_by(c),
            self.id is Some ==> r is Some,
    {
        let ip = match self.ip {
            Some(ip) => ip,
            None => default_ingress_ip(),
        };
        let id = ingress_id_or_generated(&self.id)?;
        Some(
            IngressConfig::UDP(
                UdpIngressConfig {
                    addr: SocketAddress { ip, port: self.port },
                    id,
                    auth_key: self.auth_key.clone(),
                },
            ),
        )
    }
}

impl ServerToml {
    /// Every id of the file is given: nothing has to be drawn at random.
    pub open spec fn spec_ids_given(self) -> bool {
        &&& self.id is Some
        &&& forall|i: int| 0 <= i < self.tcp_ingress@.len() ==> (#[trigger] self.tcp_ingress@[i]).id is Some
        &&& forall|i: int| 0 <= i < self.udp_ingress@.len() ==> (#[trigger] self.udp_ingress@[i]).id is Some
    }

    /// `server` and `ingresses` hold the settings of this file: the TCP ingresses
    /// first, then the UDP ingresses, each in the order of the file.
    pub open spec fn spec_resolved_by(self, server: ServerConfig, ingresses: Seq<IngressConfig>) -> bool {
        &&& spec_server_id_resolved(self.id, server.id)
        &&& server.client_addr == (SocketAddress {
            ip: spec_ip_or_unspecified(self.ip),
            port: match self.port {
                Some(p) => p,
                None => DEFAULT_SERVER_PORT,
            },
        })
        &&& spec_tls_resolved(self.tls, server.tls)
        &&& ingresses.len() == self.tcp_ingress@.len() + self.udp_ingress@.len()
        &&& forall|i: int|
            0 <= i < self.tcp_ingress@.len() ==> (#[trigger] self.tcp_ingress@[i]).spec_resolved_by(
                ingresses[i],
            )
        &&& forall|j: int|
            0 <= j < self.udp_ingress@.len() ==> (#[trigger] self.udp_ingress@[j]).spec_resolved_by(
                ingresses[self.tcp_ingress@.len() + j],
            )
    }

    /// The server settings and the ingress settings of this file. `None` only when
    /// an id is left out and no random id could be drawn.
    pub fn into_configs(self) -> (r: Option<(ServerConfig, Vec<IngressConfig>)>)
        ensures
            r matches Some((server, ingresses)) ==> self.spec_resolved_by(server, ingresses@),
            self.spec_ids_given() ==> r is Some,
    {
        let id = match &self.id {
            Some(id) => id.clone(),
            None => generate_server_id()?,
        };
        let ip = match self.ip {
            Some(ip) => ip,
            None => default_server_ip(),
        };
        let port = match self.port {
            Some(p) => p,
            None => DEFAULT_SERVER_PORT,
        };
        let tls = tls_settings(&self.tls);
        let mut ingresses: Vec<IngressConfig> = Vec::new();
        let n_tcp = self.tcp_ingress.len();
        let mut i: usize = 0;
        while i < n_tcp
            invariant
                n_tcp == self.tcp_ingress@.len(),
                i <= n_tcp,
                ingresses@.len() == i,
                forall|k: int|
                    0 <= k < i ==> (#[trigger] self.tcp_ingress@[k]).spec_resolved_by(
                        ingresses@[k],
                    ),
            decreases n_tcp - i,
        {
            let c = match self.tcp_ingress[i].ingress_config() {
                Some(c) => c,
                None => {
                    assert(!self.spec_ids_given());
                    return None;
                },
            };
            ingresses.push(c);
            i = i + 1;
        }
        let n_udp = self.udp_ingress.len();
        let mut j: usize = 0;
        while j < n_udp
            invariant
                n_tcp == self.tcp_ingress@.len(),
                n_udp == self.udp_ingress@.len(),
                j <= n_udp,
                ingresses@.len() == n_tcp + j,
                forall|k: int|
                    0 <= k < n_tcp ==> (#[trigger] self.tcp_ingress@[k]).spec_resolved_by(
                        ingresses@[k],
                    ),
                forall|k: int|
                    0 <= k < j ==> (#[trigger] self.udp_ingress@[k]).spec_resolved_by(
                        ingresses@[n_tcp + k],
                    ),
            decreases n_udp - j,
        {
            let c = match self.udp_ingress[j].ingress_config() {
                Some(c) => c,
                None => {
                    assert(!self.spec_ids_given());
                    return None;
                },
            };
            ingresses.push(c);
            j = j + 1;
        }
        let server = ServerConfig { id, client_addr: SocketAddress { ip, port }, tls };
        Some((server, ingresses))
    }
}

// #########################
// Client Toml
// #########################

/// Settings of a client as written in its TOML file.
#[derive(Debug)]
pub struct ClientToml {
    pub server: Option<AuthenticationToml>,
    pub tcp_egress: Vec<TcpEgressToml>,
    pub udp_egress: Vec<UdpEgressToml>,
}

/// A `[server]` table: how to reach and recognise a server.
#[derive(Debug, Clone)]
pub struct AuthenticationToml {
    /// Address (hostname:port or ip:port) of the server to connect to.
    pub address: String,
    /// Hash of the server certificate to validate.
    pub cert_hash: String,
    /// Certificate subject alt name.
    pub cert_subject_alt_name: Option<String>,
}

impl AuthenticationToml {
    /// `c` holds the settings of this table, with the default subject alt name when
    /// none is given.
    pub open spec fn spec_resolved_by(self, c: AuthenticationConfig) -> bool {
        &&& c.server@ == self.address@
        &&& c.certificate_hash@ == self.cert_hash@
        &&& c.certificate_subject_alt_name@ == spec_text_or(
            self.cert_subject_alt_name,
            DEFAULT_SERVER_TLS_SUBJECT_ALT_NAME@,
        )
    }

    /// The settings of this table.
    pub fn into_authentication_config(self) -> (r: AuthenticationConfig)
        ensures
            self.spec_resolved_by(r),
    {
        self.authentication_config()
    }

    fn authentication_config(&self) -> (r: AuthenticationConfig)
        ensures
            self.spec_resolved_by(r),
    {
        AuthenticationConfig {
            server: self.address.clone(),
            certificate_hash: self.cert_hash.clone(),
            certificate_subject_alt_name: text_or(
                &self.cert_subject_alt_name,
                DEFAULT_SERVER_TLS_SUBJECT_ALT_NAME,
            ),
        }
    }
}

/// The server of an egress: its own when it names one, else the top-level one.
pub open spec fn spec_server_for(
    own: Option<AuthenticationToml>,
    top: Option<AuthenticationToml>,
) -> Option<AuthenticationToml> {
    match own {
        Some(a) => Some(a),
        None => top,
    }
}

/// The settings of an egress entry with server `own` (else `top`), id `id` (a
/// fresh one when not given), ingress id, auth key and target.
pub open spec fn spec_egress_resolved(
    top: Option<AuthenticationToml>,
    own: Option<AuthenticationToml>,
    id: Option<EgressId>,
    ingress_id: IngressId,
    auth_key: AuthKey,
    target: String,
    c_authentication: AuthenticationConfig,
    c_id: EgressId,
    c_ingress_id: IngressId,
    c_auth_key: AuthKey,
    c_target: String,
) -> bool {
    &&& spec_server_for(own, top) matches Some(a) && a.spec_resolved_by(c_authentication)
    &&& spec_egress_id_resolved(id, c_id)
    &&& c_ingress_id@ == ingress_id@
    &&& c_auth_key@ == auth_key@
    &&& c_target@ == target@
}

/// The message of the error for an egress that has no server to connect to;
/// `prefix` names the kind of egress.
pub open spec fn spec_missing_server_message(prefix: Seq<char>, ingress_id: Seq<char>) -> Seq<char> {
    prefix + ingress_id + " doesn't a server to connect to."@
}

/// The message of the error when no random egress id could be drawn.
pub const RANDOM_EGRESS_ID_FAILURE: &'static str = "Failed to generate a random egress id.";

/// A `[[tcp_egress]]` entry of a client's TOML file.
#[derive(Debug)]
pub struct TcpEgressToml {
    pub server: Option<AuthenticationToml>,
    /// ID of the egress.
    pub id: Option<EgressId>,
    /// ID of the ingress to receive ingress connections.
    pub ingress_id: IngressId,
    /// Authentication key used to connect to the ingress.
    pub auth_key: AuthKey,
    /// Address (hostname:port or ip:port) to send the TCP connections received from
    /// the ingress.
    pub target: String,
}

impl TcpEgressToml {
    /// `c` holds the settings of this entry, `top` being the file's top-level
    /// server.
    pub open spec fn spec_resolved_by(self, top: Option<AuthenticationToml>, c: EgressConfig) -> bool {
        c matches EgressConfig::TCP(t) && spec_egress_resolved(
            top,
            self.server,
            self.id,
            self.ingress_id,
            self.auth_key,
            self.target,
            t.authentication_config,
            t.id,
            t.ingress_id,
            t.auth_key,
            t.target,
        )
    }
}

/// A `[[udp_egress]]` entry of a client's TOML file.
#[derive(Debug)]
pub struct UdpEgressToml {
    pub server: Option<AuthenticationToml>,
    /// ID of the egress.
    pub id: Option<EgressId>,
    /// ID of the ingress to receive ingress connections.
    pub ingress_id: IngressId,
    /// Authentication key used to connect to the ingress.
    pub auth_key: AuthKey,
    /// Address (hostname:port or ip:port) to send the UDP datagrams received from the
    /// ingress.
    pub target: String,
}

impl UdpEgressToml {
    /// `c` holds the settings of this entry, `top` being the file's top-level
    /// server.
    pub open spec fn spec_resolved_by(self, top: Option<AuthenticationToml>, c: EgressConfig) -> bool {
        c matches EgressConfig::UDP(u) && spec_egress_resolved(
            top,
            self.server,
            self.id,
            self.ingress_id,
            self.auth_key,
            self.target,
            u.authentication_config,
            u.id,
            u.ingress_id,
            u.auth_key,
            u.target,
        )
    }
}

/// The server of an egress: its own, else the top-level one.
fn server_for(own: &Option<AuthenticationToml>, top: &Option<AuthenticationToml>) -> (r: Option<
    AuthenticationConfig,
>)
    ensures
        r is Some <==> spec_server_for(*own, *top) is Some,
        r matches Some(c) ==> spec_server_for(*own, *top)->Some_0.spec_resolved_by(c),
{
    match own {
        Some(a) => Some(a.authentication_config()),
        None => match top {
            Some(a) => Some(a.authentication_config()),
            None => None,
        },
    }
}

/// The given egress id, or a fresh one.
fn egress_id_or_generated(id: &Option<EgressId>) -> (r: Option<EgressId>)
    ensures
        r matches Some(i) ==> spec_egress_id_resolved(*id, i),
        id is Some ==> r is Some,
{
    match id {
        Some(id) => Some(id.clone()),
        None => generate_egress_id(),
    }
}

impl ClientToml {
    /// For each TCP egress, whether it has a server to connect to.
    pub open spec fn spec_tcp_served(self) -> Seq<bool> {
        self.tcp_egress@.map_values(
            |e: TcpEgressToml| spec_server_for(e.server, self.server) is Some,
        )
    }

    /// For each UDP egress, whether it has a server to connect to.
    pub open spec fn spec_udp_served(self) -> Seq<bool> {
        self.udp_egress@.map_values(
            |e: UdpEgressToml| spec_server_for(e.server, self.server) is Some,
        )
    }

    /// The message for the first egress, TCP ones first, that has no server to
    /// connect to; `None` when every egress has one.
    pub open spec fn spec_missing_server_error(self) -> Option<Seq<char>> {
        match spec_first_missing(self.spec_tcp_served()) {
            Some(i) => Some(spec_missing_server_message("TCP egress ingress_id="@, self.tcp_egress@[i].ingress_id@)),
            None => match spec_first_missing(self.spec_udp_served()) {
                Some(j) => Some(
                    spec_missing_server_message("UDP egress ingress_id="@, self.udp_egress@[j].ingress_id@),
                ),
                None => None,
            },
        }
    }

    /// Every egress id of the file is given: nothing has to be drawn at random.
    pub open spec fn spec_ids_given(self) -> bool {
        &&& forall|i: int| 0 <= i < self.tcp_egress@.len() ==> (#[trigger] self.tcp_egress@[i]).id is Some
        &&& forall|i: int| 0 <= i < self.udp_egress@.len() ==> (#[trigger] self.udp_egress@[i]).id is Some
    }

    /// `v` holds the settings of the egresses of this file: the TCP egresses first,
    /// then the UDP egresses, each in the order of the file.
    pub open spec fn spec_resolved_by(self, v: Seq<EgressConfig>) -> bool {
        &&& v.len() == self.tcp_egress@.len() + self.udp_egress@.len()
        &&& forall|i: int|
            0 <= i < self.tcp_egress@.len() ==> (#[trigger] self.tcp_egress@[i]).spec_resolved_by(
                self.server,
                v[i],
            )
        &&& forall|j: int|
            0 <= j < self.udp_egress@.len() ==> (#[trigger] self.udp_egress@[j]).spec_resolved_by(
                self.server,
                v[self.tcp_egress@.len() + j],
            )
    }

    /// The settings of the egresses of this file. Fails with the message of
    /// `spec_missing_server_error` when an egress has no server to connect to, and
    /// with `RANDOM_EGRESS_ID_FAILURE` when an egress id is left out and no random id
    /// could be drawn.
    pub fn into_egress_configs(self) -> (r: Result<Vec<EgressConfig>, String>)
        ensures
            match self.spec_missing_server_error() {
                Some(m) => r matches Err(e) && e@ == m,
                None => match r {
                    Ok(v) => self.spec_resolved_by(v@),
                    Err(e) => e@ == RANDOM_EGRESS_ID_FAILURE@ && !self.spec_ids_given(),
                },
            },
    {
        let n_tcp = self.tcp_egress.len();
        let n_udp = self.udp_egress.len();
        // Every egress needs a server before anything is drawn at random.
        let mut i: usize = 0;
        while i < n_tcp
            invariant
                n_tcp == self.tcp_egress@.len(),
                i <= n_tcp,
                forall|k: int| 0 <= k < i ==> #[trigger] self.spec_tcp_served()[k],
            decreases n_tcp - i,
        {
            if self.tcp_egress[i].server.is_none() && self.server.is_none() {
                proof {
                    lemma_first_missing_at(self.spec_tcp_served(), i as int);
                }
                let mut m = joined("TCP egress ingress_id=", self.tcp_egress[i].ingress_id.value());
                m.append(" doesn't a server to connect to.");
                return Err(m);
            }
            i = i + 1;
        }
        proof {
            lemma_first_missing_none(self.spec_tcp_served());
        }
        let mut j: usize = 0;
        while j < n_udp
            invariant
                n_udp == self.udp_egress@.len(),
                j <= n_udp,
                spec_first_missing(self.spec_tcp_served()) is None,
                forall|k: int| 0 <= k < j ==> #[trigger] self.spec_udp_served()[k],
            decreases n_udp - j,
        {
            if self.udp_egress[j].server.is_none() && self.server.is_none() {
                proof {
                    lemma_first_missing_at(self.spec_udp_served(), j as int);
                }
                let mut m = joined("UDP egress ingress_id=", self.udp_egress[j].ingress_id.value());
                m.append(" doesn't a server to connect to.");
                return Err(m);
            }
            j = j + 1;
        }
        proof {
            lemma_first_missing_none(self.spec_udp_served());
        }
        let mut egresses: Vec<EgressConfig> = Vec::new();
        let mut i: usize = 0;
        while i < n_tcp
            invariant
                n_tcp == self.tcp_egress@.len(),
                i <= n_tcp,
                egresses@.len() == i,
                spec_first_missing(self.spec_tcp_served()) is None,
                spec_first_missing(self.spec_udp_served()) is None,
                forall|k: int| 0 <= k < n_tcp ==> #[trigger] self.spec_tcp_served()[k],
                forall|k: int|
                    0 <= k < i ==> (#[trigger] self.tcp_egress@[k]).spec_resolved_by(
                        self.server,
                        egresses@[k],
                    ),
            decreases n_tcp - i,
        {
            let e = &self.tcp_egress[i];
            assert(self.spec_tcp_served()[i as int]);
            let authentication_config = match server_for(&e.server, &self.server) {
                Some(c) => c,
                None => return Err(RANDOM_EGRESS_ID_FAILURE.to_owned()),
            };
            let id = match egress_id_or_generated(&e.id) {
                Some(id) => id,
                None => {
                    assert(self.tcp_egress@[i as int].id is None);
                    return Err(RANDOM_EGRESS_ID_FAILURE.to_owned());
                },
            };
            egresses.push(
                EgressConfig::TCP(
                    TcpEgressConfig {
                        authentication_config,
                        id,
                        ingress_id: e.ingress_id.clone(),
                        auth_key: e.auth_key.clone(),
                        target: e.target.clone(),
                    },
                ),
            );
            i = i + 1;
        }
        let mut j: usize = 0;
        while j < n_udp
            invariant
                n_tcp == self.tcp_egress@.len(),
                n_udp == self.udp_egress@.len(),
                j <= n_udp,
                egresses@.len() == n_tcp + j,
                spec_first_missing(self.spec_tcp_served()) is None,
                spec_first_missing(self.spec_udp_served()) is None,
                forall|k: int| 0 <= k < n_udp ==> #[trigger] self.spec_udp_served()[k],
                forall|k: int|
                    0 <= k < n_tcp ==> (#[trigger] self.tcp_egress@[k]).spec_resolved_by(
                        self.server,
                        egresses@[k],
                    ),
                forall|k: int|
                    0 <= k < j ==> (#[trigger] self.udp_egress@[k]).spec_resolved_by(
                        self.server,
                        egresses@[n_tcp + k],
                    ),
            decreases n_udp - j,
        {
            let e = &self.udp_egress[j];
            assert(self.spec_udp_served()[j as int]);
            let authentication_config = match server_for(&e.server, &self.server) {
                Some(c) => c,
                None => return Err(RANDOM_EGRESS_ID_FAILURE.to_owned()),
            };
            let id = match egress_id_or_generated(&e.id) {
                Some(id) => id,
                None => {
                    assert(self.udp_egress@[j as int].id is None);
                    return Err(RANDOM_EGRESS_ID_FAILURE.to_owned());
                },
            };
            egresses.push(
                EgressConfig::UDP(
                    UdpEgressConfig {
                        authentication_config,
                        id,
                        ingress_id: e.ingress_id.clone(),
                        auth_key: e.auth_key.clone(),
                        target: e.target.clone(),
                    },
                ),
            );
            j = j + 1;
        }
        Ok(egresses)
    }
}

} // verus!
