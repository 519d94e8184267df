use ash::vk::AllocationCallbacks;
use ash_window::{enumerate_required_extension, surface_request, SurfaceCall, WindowHandle};

fn supported_handles() -> Vec<WindowHandle> {
    vec![
        WindowHandle::Windows { hwnd: 0x10, hinstance: 0x20 },
        WindowHandle::Wayland { surface: 0x30, display: 0x40 },
        WindowHandle::Xlib { window: 42, display: 0x1000 },
        WindowHandle::Xcb { window: 7, connection: 0x50 },
        WindowHandle::Android { a_native_window: 0x60 },
        WindowHandle::MacOS { ns_window: 0x70, ns_view: 0x80 },
        WindowHandle::IOS { ui_window: 0x90, ui_view: 0xa0, ui_view_controller: 0xb0 },
    ]
}

fn extension_of(call: &SurfaceCall) -> &'static [u8] {
    match call {
        SurfaceCall::Win32 { .. } => b"VK_KHR_win32_surface\0",
        SurfaceCall::Wayland { .. } => b"VK_KHR_wayland_surface\0",
        SurfaceCall::Xlib { .. } => b"VK_KHR_xlib_surface\0",
        SurfaceCall::Xcb { .. } => b"VK_KHR_xcb_surface\0",
        SurfaceCall::Android { .. } => b"VK_KHR_android_surface\0",
        SurfaceCall::MacOS { .. } => b"VK_MVK_macos_surface\0",
        SurfaceCall::IOS { .. } => b"VK_MVK_ios_surface\0",
    }
}

#[test]
fn xlib_handle_gives_xlib_call_and_extension() {
    let handle = WindowHandle::Xlib { window: 42, display: 0x1000 };
    let request = surface_request(&handle, None);
    assert_eq!(request.call, SurfaceCall::Xlib { dpy: 0x1000, window: 42 });
    assert!(request.allocation_callbacks.is_none());
    assert_eq!(enumerate_required_extension(&handle), b"VK_KHR_xlib_surface\0");
}

#[test]
fn every_supported_kind_is_handled() {
    for handle in supported_handles() {
        assert!(handle.is_supported());
        let _ = surface_request(&handle, None);
        let name = enumerate_required_extension(&handle);
        assert_eq!(name.last(), Some(&0u8));
        assert!(!name[..name.len() - 1].contains(&0u8));
    }
}

#[test]
fn unsupported_kinds_are_reported() {
    assert!(!WindowHandle::Web { id: 3 }.is_supported());
    assert!(!WindowHandle::Unknown.is_supported());
}

#[test]
fn extension_names_are_exact() {
    let expected: [&[u8]; 7] = [
        b"VK_KHR_win32_surface\0",
        b"VK_KHR_wayland_surface\0",
        b"VK_KHR_xlib_surface\0",
        b"VK_KHR_xcb_surface\0",
        b"VK_KHR_android_surface\0",
        b"VK_MVK_macos_surface\0",
        b"VK_MVK_ios_surface\0",
    ];
    for (handle, name) in supported_handles().iter().zip(expected.iter()) {
        assert_eq!(enumerate_required_extension(handle), *name);
    }
}

#[test]
fn extension_agrees_with_chosen_call() {
    for handle in supported_handles() {
        let request = surface_request(&handle, None);
        assert_eq!(enumerate_required_extension(&handle), extension_of(&request.call));
    }
}

#[test]
fn fields_go_to_their_places() {
    let calls: Vec<SurfaceCall> =
        supported_handles().iter().map(|h| surface_request(h, None).call).collect();
    assert_eq!(
        calls,
        vec![
            SurfaceCall::Win32 { hinstance: 0x20, hwnd: 0x10 },
            SurfaceCall::Wayland { display: 0x40, surface: 0x30 },
            SurfaceCall::Xlib { dpy: 0x1000, window: 42 },
            SurfaceCall::Xcb { connection: 0x50, window: 7 },
            SurfaceCall::Android { window: 0x60 },
            SurfaceCall::MacOS { view: 0x80 },
            SurfaceCall::IOS { view: 0xa0 },
        ]
    );
}

#[test]
fn wide_xlib_window_is_not_truncated() {
    let handle = WindowHandle::Xlib { window: u64::MAX - 1, display: usize::MAX };
    let request = surface_request(&handle, None);
    assert_eq!(request.call, SurfaceCall::Xlib { dpy: usize::MAX, window: u64::MAX - 1 });
}

#[test]
fn allocator_hooks_are_passed_through() {
    let hooks = AllocationCallbacks::default();
    for handle in supported_handles() {
        let request = surface_request(&handle, Some(&hooks));
        assert!(std::ptr::eq(request.allocation_callbacks.unwrap(), &hooks));
        assert!(surface_request(&handle, None).allocation_callbacks.is_none());
    }
}
