//! Decisions of a Spin-based WebAssembly host runtime: what is reported when a
//! component reaches for a network destination it may not use, how the example
//! guest routes its HTTP requests, the application's own factor, and the manifest
//! and instance settings with which the host prepares its component.
pub mod text;
pub mod networking;
pub mod factor;
pub mod guest;
pub mod settings;
