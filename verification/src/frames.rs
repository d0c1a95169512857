//! Wire formats exchanged through a tunnel.
pub mod v1;
