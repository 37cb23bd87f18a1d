//! Address-family handling for a multicast DNS socket: the fixed protocol
//! addresses of each IP version, and the decisions taken while joining the
//! mDNS multicast group on the local interfaces.

pub mod address;
pub mod address_family;
pub mod join;
pub mod session;
pub mod laws;
