//! Event relay engine for a pub/sub → chat-network bridge.
//!
//! The engine decodes platform-tagged bus payloads into a normalized event,
//! resolves the destinations registered for the originating channel (with echo
//! suppression), turns message-creation events into a display name and a final
//! text body, and defines the relay loop's failure/continuation policy. All of
//! that is pure and verified here; subscribing, the shared directory lookup
//! and the outbound sends are I/O that a caller performs around it.

pub mod decode;
pub mod event;
pub mod json;
pub mod relay;
pub mod resolve;
pub mod text;
pub mod transform;
