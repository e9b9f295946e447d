//! Decision and conversion logic of a daemon that reports on its host and on the
//! Docker containers that run there: what a reply holds for a given inspection or
//! statistics sample, how a container and the daemon's network are described,
//! and where the server listens.

pub mod messages;
pub mod system;
pub mod docker;
pub mod server;
pub mod handlers;
