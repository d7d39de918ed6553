//! Provisioning and teardown of a single on-demand cloud server, driven by
//! chat commands. The library holds the request shapes of the provider's API
//! and the two workflows as step functions; the caller performs the remote
//! calls and feeds their results back in.

pub mod actions;
pub mod api;
pub mod destroy;
pub mod guard;
pub mod lookup;
pub mod poll;
pub mod provision;
pub mod text;
