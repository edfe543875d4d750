//! Offscreen thumbnail rendering core for 3D model files.
//!
//! The library covers the render-session lifecycle, camera auto-framing,
//! the asset swap protocol, timeout-isolated execution, and fallback
//! imagery selection. The rendering backend itself and the operating-system
//! shell glue live outside the library and drive it through plain values.

pub mod errors;
pub mod fallback;
pub mod framing;
pub mod handlers;
pub mod import;
pub mod pixels;
pub mod providers;
pub mod registry;
pub mod session;
mod text;
pub mod timeout;
