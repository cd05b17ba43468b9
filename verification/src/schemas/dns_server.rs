//! Module that holds everything that is necessary for the `DnsServer`
pub use crate::models::dns_server::{DnsServer, InputDnsServer, NewDnsServer};
