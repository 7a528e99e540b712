//! A session bridge that carries a bidirectional message protocol over an
//! asymmetric HTTP transport: server-to-client traffic flows on a long-lived
//! event stream, while client-to-server messages arrive as discrete request
//! bodies that are matched to the right stream through a session registry.
//!
//! The crate verifies the bridge itself: identifier generation and parsing,
//! the registry of live sessions, the wire framing of the outbound event
//! stream, the inbound delivery decisions, and the cleanup protocol that
//! releases a session's resources exactly once.

pub mod bridge;
pub mod error;
pub mod events;
pub mod ids;
pub mod lifecycle;
pub mod registry;
