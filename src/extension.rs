//! The instance extension that each kind of window needs.
use vstd::prelude::*;

use crate::handle::WindowHandle;

verus! {

/// The bytes of an ASCII name, followed by the nul that ends it.
pub open spec fn nul_terminated(name: Seq<char>) -> Seq<u8> {
    name.map_values(|c: char| c as u8).push(0u8)
}

/// The nul-terminated name `VK_KHR_win32_surface`.
pub open spec fn khr_win32_surface() -> Seq<u8> {
    nul_terminated("VK_KHR_win32_surface"@)
}

/// The nul-terminated name `VK_KHR_wayland_surface`.
pub open spec fn khr_wayland_surface() -> Seq<u8> {
    nul_terminated("VK_KHR_wayland_surface"@)
}

/// The nul-terminated name `VK_KHR_xlib_surface`.
pub open spec fn khr_xlib_surface() -> Seq<u8> {
    nul_terminated("VK_KHR_xlib_surface"@)
}

/// The nul-terminated name `VK_KHR_xcb_surface`.
pub open spec fn khr_xcb_surface() -> Seq<u8> {
    nul_terminated("VK_KHR_xcb_surface"@)
}

/// The nul-terminated name `VK_KHR_android_surface`.
pub open spec fn khr_android_surface() -> Seq<u8> {
    nul_terminated("VK_KHR_android_surface"@)
}

/// The nul-terminated name `VK_MVK_macos_surface`.
pub open spec fn mvk_macos_surface() -> Seq<u8> {
    nul_terminated("VK_MVK_macos_surface"@)
}

/// The nul-terminated name `VK_MVK_ios_surface`.
pub open spec fn mvk_ios_surface() -> Seq<u8> {
    nul_terminated("VK_MVK_ios_surface"@)
}

/// The nul-terminated name of the surface extension that a handle's kind
/// needs; `None` for a kind that has none.
pub open spec fn required_extension(h: WindowHandle) -> Option<Seq<u8>> {
    match h {
        WindowHandle::Windows { .. } => Some(khr_win32_surface()),
        WindowHandle::Wayland { .. } => Some(khr_wayland_surface()),
        WindowHandle::Xlib { .. } => Some(khr_xlib_surface()),
        WindowHandle::Xcb { .. } => Some(khr_xcb_surface()),
        WindowHandle::Android { .. } => Some(khr_android_surface()),
        WindowHandle::MacOS { .. } => Some(mvk_macos_surface()),
        WindowHandle::IOS { .. } => Some(mvk_ios_surface()),
        WindowHandle::Web { .. } | WindowHandle::Unknown => None,
    }
}

/// Relies on ash's `khr::Win32Surface::name`: the constant `VK_KHR_win32_surface`.
#[verifier::external_body]
fn khr_win32_surface_name() -> (r: &'static [u8])
    ensures
        r@ == khr_win32_surface(),
{
    ash::extensions::khr::Win32Surface::name().to_bytes_with_nul()
}

/// Relies on ash's `khr::WaylandSurface::name`: the constant `VK_KHR_wayland_surface`.
#[verifier::external_body]
fn khr_wayland_surface_name() -> (r: &'static [u8])
    ensures
        r@ == khr_wayland_surface(),
{
    ash::extensions::khr::WaylandSurface::name().to_bytes_with_nul()
}

/// Relies on ash's `khr::XlibSurface::name`: the constant `VK_KHR_xlib_surface`.
#[verifier::external_body]
fn khr_xlib_surface_name() -> (r: &'static [u8])
    ensures
        r@ == khr_xlib_surface(),
{
    ash::extensions::khr::XlibSurface::name().to_bytes_with_nul()
}

/// Relies on ash's `khr::XcbSurface::name`: the constant `VK_KHR_xcb_surface`.
#[verifier::external_body]
fn khr_xcb_surface_name() -> (r: &'static [u8])
    ensures
        r@ == khr_xcb_surface(),
{
    ash::extensions::khr::XcbSurface::name().to_bytes_with_nul()
}

/// Relies on ash's `khr::AndroidSurface::name`: the constant `VK_KHR_android_surface`.
#[verifier::external_body]
fn khr_android_surface_name() -> (r: &'static [u8])
    ensures
        r@ == khr_android_surface(),
{
    ash::extensions::khr::AndroidSurface::name().to_bytes_with_nul()
}

/// Relies on ash's `mvk::MacOSSurface::name`: the constant `VK_MVK_macos_surface`.
#[verifier::external_body]
fn mvk_macos_surface_name() -> (r: &'static [u8])
    ensures
        r@ == mvk_macos_surface(),
{
    ash::extensions::mvk::MacOSSurface::name().to_bytes_with_nul()
}

/// Relies on ash's `mvk::IOSSurface::name`: the constant `VK_MVK_ios_surface`.
#[verifier::external_body]
fn mvk_ios_surface_name() -> (r: &'static [u8])
    ensures
        r@ == mvk_ios_surface(),
{
    ash::extensions::mvk::IOSSurface::name().to_bytes_with_nul()
}

/// The name of the instance extension that must be enabled before a surface
/// is made for `window_handle`, with its terminating nul.
///
/// A handle whose kind has no surface extension is a caller's error: such a
/// handle is outside the contract.
pub fn enumerate_required_extension(window_handle: &WindowHandle) -> (r: &'static [u8])
    requires
        window_handle.supported(),
    ensures
        required_extension(*window_handle) == Some(r@),
{
    match window_handle {
        WindowHandle::Windows { .. } => khr_win32_surface_name(),
        WindowHandle::Wayland { .. } => khr_wayland_surface_name(),
        WindowHandle::Xlib { .. } => khr_xlib_surface_name(),
        WindowHandle::Xcb { .. } => khr_xcb_surface_name(),
        WindowHandle::Android { .. } => khr_android_surface_name(),
        WindowHandle::MacOS { .. } => mvk_macos_surface_name(),
        WindowHandle::IOS { .. } => mvk_ios_surface_name(),
        WindowHandle::Web { .. } | WindowHandle::Unknown => unreached(),
    }
}

} // verus!
