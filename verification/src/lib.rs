//! Core logic of a small desktop shell that exposes the operating system's
//! character/emoji picker panel to a GUI frontend.
//!
//! The crate models the two pieces of behaviour the shell has: the panel
//! invoker, which requests the native picker on the one supported platform
//! and is a guaranteed no-op everywhere else, and the application bootstrap,
//! which conditionally attaches a diagnostic logging facility, populates the
//! command registry, and hands control to the host event loop. The host GUI
//! framework itself is a black box driven by a thin unverified front end.

pub mod bootstrap;
pub mod platform;
pub mod registry;
