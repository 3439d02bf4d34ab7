//! Bootstrap layer for a windowed graphics application.
//!
//! The crate negotiates optional validation layers, resolves the instance
//! extension list (including platform portability gating), composes an
//! instance creation request, and drives the application lifecycle state
//! machine (`Ready` -> `Destroyed`) from windowing events. The actual
//! graphics runtime and window system are collaborators: an unverified
//! driver performs their calls and hands plain values in and out.

pub mod app;
pub mod events;
pub mod extensions;
pub mod instance;
pub mod names;
pub mod version;
