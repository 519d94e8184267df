//! Which platform call makes the surface for a window, and with what.
use vstd::prelude::*;

use ash::vk::AllocationCallbacks;

use crate::extension::{
    khr_android_surface, khr_wayland_surface, khr_win32_surface, khr_xcb_surface,
    khr_xlib_surface, mvk_ios_surface, mvk_macos_surface,
};
use crate::handle::WindowHandle;

verus! {

/// The caller's host-memory allocator hooks, handed on untouched.
#[verifier::external_type_specification]
#[verifier::external_body]
pub struct ExAllocationCallbacks(AllocationCallbacks);

/// One platform surface-creation call, with the fields of its create-info
/// structure, named as the structure names them.
#[allow(inconsistent_fields)]
#[derive(Clone, Copy, Debug, PartialEq, Eq, Structural)]
pub enum SurfaceCall {
    /// `vkCreateWin32SurfaceKHR`.
    Win32 { hinstance: usize, hwnd: usize },
    /// `vkCreateWaylandSurfaceKHR`.
    Wayland { display: usize, surface: usize },
    /// `vkCreateXlibSurfaceKHR`.
    Xlib { dpy: usize, window: u64 },
    /// `vkCreateXcbSurfaceKHR`.
    Xcb { connection: usize, window: u32 },
    /// `vkCreateAndroidSurfaceKHR`.
    Android { window: usize },
    /// `vkCreateMacOSSurfaceMVK`.
    MacOS { view: usize },
    /// `vkCreateIOSSurfaceMVK`.
    IOS { view: usize },
}

impl SurfaceCall {
    /// The nul-terminated name of the extension that provides this call.
    pub open spec fn extension(self) -> Seq<u8> {
        match self {
            SurfaceCall::Win32 { .. } => khr_win32_surface(),
            SurfaceCall::Wayland { .. } => khr_wayland_surface(),
            SurfaceCall::Xlib { .. } => khr_xlib_surface(),
            SurfaceCall::Xcb { .. } => khr_xcb_surface(),
            SurfaceCall::Android { .. } => khr_android_surface(),
            SurfaceCall::MacOS { .. } => mvk_macos_surface(),
            SurfaceCall::IOS { .. } => mvk_ios_surface(),
        }
    }
}

/// The call that makes a surface for `h`, with the handle's fields in the
/// places the call takes them; `None` for a kind that has no such call.
pub open spec fn surface_call(h: WindowHandle) -> Option<SurfaceCall> {
    match h {
        WindowHandle::Windows { hwnd, hinstance } => Some(SurfaceCall::Win32 { hinstance, hwnd }),
        WindowHandle::Wayland { surface, display } => Some(SurfaceCall::Wayland { display, surface }),
        WindowHandle::Xlib { window, display } => Some(SurfaceCall::Xlib { dpy: display, window }),
        WindowHandle::Xcb { window, connection } => Some(SurfaceCall::Xcb { connection, window }),
        WindowHandle::Android { a_native_window } => Some(
            SurfaceCall::Android { window: a_native_window },
        ),
        WindowHandle::MacOS { ns_view, .. } => Some(SurfaceCall::MacOS { view: ns_view }),
        WindowHandle::IOS { ui_view, .. } => Some(SurfaceCall::IOS { view: ui_view }),
        WindowHandle::Web { .. } | WindowHandle::Unknown => None,
    }
}

/// A surface to be made: the platform call, and the allocator hooks that go
/// with it (`None` for the implementation's own allocator).
pub struct SurfaceRequest<'a> {
    /// The platform call and its create-info fields.
    pub call: SurfaceCall,
    /// The allocator hooks to hand to the call.
    pub allocation_callbacks: Option<&'a AllocationCallbacks>,
}

/// Chooses the platform call that makes a surface for `window_handle`, fills
/// its create-info fields from the handle, and pairs it with the caller's
/// allocator hooks as they were given.
///
/// A handle whose kind has no surface call is a caller's error: such a handle
/// is outside the contract.
pub fn surface_request<'a>(
    window_handle: &WindowHandle,
    allocation_callbacks: Option<&'a AllocationCallbacks>,
) -> (r: SurfaceRequest<'a>)
    requires
        window_handle.supported(),
    ensures
        surface_call(*window_handle) == Some(r.call),
        r.allocation_callbacks == allocation_callbacks,
{
    let call = match *window_handle {
        WindowHandle::Windows { hwnd, hinstance } => SurfaceCall::Win32 { hinstance, hwnd },
        WindowHandle::Wayland { surface, display } => SurfaceCall::Wayland { display, surface },
        WindowHandle::Xlib { window, display } => SurfaceCall::Xlib { dpy: display, window },
        WindowHandle::Xcb { window, connection } => SurfaceCall::Xcb { connection, window },
        WindowHandle::Android { a_native_window } => SurfaceCall::Android { window: a_native_window },
        WindowHandle::MacOS { ns_view, .. } => SurfaceCall::MacOS { view: ns_view },
        WindowHandle::IOS { ui_view, .. } => SurfaceCall::IOS { view: ui_view },
        WindowHandle::Web { .. } | WindowHandle::Unknown => unreached(),
    };
    SurfaceRequest { call, allocation_callbacks }
}

} // verus!
