//! Siffleux: a self-hosted tunnel. A client behind a NAT keeps a QUIC connection
//! to a public server; the TCP connections and UDP datagrams that reach the
//! server's ingresses go through it to the client's egresses. This crate holds the
//! logic of the tunnel, verified; the program around it does the I/O.
pub mod byte_counter;
pub mod certificate;
pub mod cli;
pub mod code;
mod crypto;
pub mod error;
pub mod frames;
pub mod handshake;
pub mod lifecycle;
pub mod net;
pub mod proto;
pub mod protocol;
pub mod random_key;
pub mod reconnect;
pub mod registry;
pub mod siffleux_config;
pub mod stream_copy;
pub mod tunnel;
pub mod tunnel_loop;
pub mod tunnel_pool;
pub mod toml_config;
pub mod types;
pub mod udp_routes;

pub use error::Error;
pub use types::{AuthKey, EgressId, HashedAuthKey, IngressId, ServerId, TunnelName};
