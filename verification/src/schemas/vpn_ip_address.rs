//! Module that holds everything that is necessary for the `VpnIpAddress`
pub use crate::models::vpn_ip_address::{NewVpnIpAddress, VpnIpAddress};
