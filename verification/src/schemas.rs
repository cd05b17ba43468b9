//! The older records of the service: clients, keypairs and their registration.
pub mod client;
pub mod dns_server;
pub mod keypair;
pub mod server;
pub mod vpn_ip_address;
