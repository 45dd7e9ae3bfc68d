//! The application shell of a small teaching kernel: four text windows that
//! browse a file store, edit a file's bytes with column wrapping, or hold a
//! program handed off for execution, plus a one-line filename bar.
//!
//! Everything here is pure state: storage, display and keyboard live with the
//! caller, which performs the [`kernel::Request`]s that key handling returns
//! and paints the [`render::Plot`]s that drawing returns.

pub mod layout;
pub mod text;
pub mod editing;
pub mod directory;
pub mod typing;
pub mod input;
pub mod mode;
pub mod kernel;
pub mod render;
pub mod host;
pub mod laws;

pub use kernel::{Kernel, Request};
pub use layout::KWindows;
