//! A WireGuard VPN management service: addressing rules, peer registration,
//! configuration rendering and authentication, with their contracts proved by Verus.
pub mod crypto;
pub mod ipv4;
pub mod models;
pub mod registration;
pub mod render;
pub mod schemas;
pub mod text;
pub mod token;
pub mod validate;
