//! Identifiers and secrets exchanged between a client and a server.
pub mod auth_key;
pub mod egress_id;
pub mod ingress_id;
pub mod server_id;
pub mod text;
pub mod tunnel_name;

pub use auth_key::{AuthKey, HashedAuthKey};
pub use egress_id::EgressId;
pub use ingress_id::IngressId;
pub use server_id::ServerId;
pub use tunnel_name::TunnelName;
