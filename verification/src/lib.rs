//! Provisioning of isolated, ephemeral test databases.
//!
//! The crate models the lifecycle of one disposable database instance:
//! a backing store is allocated, an ordered sequence of schema migrations
//! is applied to it, and only then is a connection handle released to the
//! caller. The decision logic — which migration comes next, when the
//! stale artifact of a prior run must be cleared, when the handle may be
//! exposed — is verified here; an unverified shell performs the actual
//! storage and database calls and reports each outcome back as an event.

pub mod lifecycle;
pub mod migration;
pub mod store;
