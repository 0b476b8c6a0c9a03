//! How a node of a peer-to-peer network is known to its peers: the services it
//! advertises and the address it is reached at, as they are held in memory
//! before anything is written to the wire.
//!
//! - [`service_flags`]: a set of services as a 64-bit field, with `|`, `&` and
//!   `!`; [`service_laws`] states what holds of every such set.
//! - [`address`]: the record of a peer, built from an IPv4 or IPv6 endpoint and
//!   always kept in IPv6 form; [`address_laws`] states that the IPv4 address
//!   can be read back from it.

pub mod address;
pub mod address_laws;
pub mod service_flags;
pub mod service_laws;

pub use address::{Address, SocketEndpoint};
pub use service_flags::ServiceFlags;
