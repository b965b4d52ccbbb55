//! A failover coordinator for completing an authorization-code exchange
//! across two interchangeable communication channels.
//!
//! A caller registers a preferred ("default") channel and a fallback
//! ("other") channel; the coordinator broadcasts the authorization context
//! to both, routes send and receive calls to whichever channel is currently
//! selected, and switches to the fallback — once, and for good — when the
//! preferred channel fails.

pub mod auth_context;
pub mod channel_messenger;
pub mod compound_messenger;
pub mod error;
