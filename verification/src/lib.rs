//! A verified core for provisioning uniquely-named collections.
//!
//! An authorized creator asks for a collection under a caller-chosen
//! identifier; an external issuer then issues the resource, configures its
//! roles and transfers ownership, one asynchronous call at a time.  This
//! crate holds the verified logic of that protocol: the authorization gate,
//! the append-only identifier registry, and the staged workflow that decides,
//! for each completed external call, what to record and what to call next.
//! The host that actually performs the external calls lives outside the
//! library and drives the workflow with their results.

pub mod auth;
pub mod bytes;
pub mod contract;
pub mod registry;
pub mod workflow;
