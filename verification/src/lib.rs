//! Decision core of a host that builds, loads and drives a separately compiled
//! game module.
//!
//! The host builds the module out of process, opens the resulting dynamic
//! library, resolves a fixed set of exported entry points and then drives the
//! module frame by frame. Everything that touches the operating system (the
//! child process, the dynamic loader, the calls across the boundary) is done
//! by the embedding program; every decision about what to do next, and what
//! each outcome means, is made here.

pub mod entry;
pub mod error;
pub mod project;
pub mod loader;
pub mod instance;
pub mod bridge;
pub mod lifecycle;
pub mod module;
pub mod numeric;
