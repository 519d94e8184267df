//! Vulkan surface creation for raw window handles.
//!
//! A window handle names the native window of one window system. For each
//! system this library knows the instance extension that must be enabled and
//! the platform call, with its arguments, that creates the surface.
pub mod agreement;
pub mod extension;
pub mod handle;
pub mod surface;

pub use extension::enumerate_required_extension;
pub use handle::WindowHandle;
pub use surface::{surface_request, SurfaceCall, SurfaceRequest};
