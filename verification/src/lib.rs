//! A verified core for a UDP relay: datagram routing metadata, a session
//! table that gives each client address its own backend session, a router
//! that decides how every datagram is forwarded, and a probabilistic
//! drop filter. All network and task plumbing lives outside this crate;
//! the decisions it feeds on are proved here.

pub mod datagram;
pub mod filters;
pub mod router;
pub mod session;

pub use datagram::Addr;
pub use datagram::Datagram;
pub use datagram::BUFFER_SIZE;
pub use filters::drop_chance::DropChance;
pub use filters::drop_chance::DROP_SCALE;
pub use filters::ConfigError;
pub use filters::Filter;
pub use router::RouteDecision;
pub use router::Router;
pub use session::SessionTable;
