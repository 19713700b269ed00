//! A small verified facade for mDNS service discovery.
//!
//! The crate exposes one capability, browsing for the names of services
//! currently visible on the local network. The capability is stated as a
//! trait, [`backend::MdnsDiscoveryTrait`]; a production adapter binds it to
//! a live mDNS daemon ([`mdns::MdnsDiscovery`]), and a stub backend with a
//! fixed answer ([`backend::StubMdnsDiscovery`]) permits deterministic,
//! network-free use of the same facade. [`facade::ServiceDiscovery`] owns
//! exactly one backend, fixed at construction, and its `browse` delegates to
//! the backend without any transformation.

pub mod backend;
pub mod facade;
pub mod mdns;
