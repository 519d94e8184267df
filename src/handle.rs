//! The window handle, as plain values.
use vstd::prelude::*;

verus! {

/// A native window, tagged by the window system that owns it.
///
/// Native pointers are held as addresses; nothing here reads through them.
#[allow(inconsistent_fields)]
#[derive(Clone, Copy, Debug, PartialEq, Eq, Structural)]
pub enum WindowHandle {
    /// A Win32 window: `hwnd`, and the module instance `hinstance`.
    Windows { hwnd: usize, hinstance: usize },
    /// A Wayland surface and its display connection.
    Wayland { surface: usize, display: usize },
    /// An Xlib window id and its display.
    Xlib { window: u64, display: usize },
    /// An XCB window id and its connection.
    Xcb { window: u32, connection: usize },
    /// An Android `ANativeWindow`.
    Android { a_native_window: usize },
    /// A macOS window and its `NSView`.
    MacOS { ns_window: usize, ns_view: usize },
    /// An iOS window, its `UIView` and its view controller.
    IOS { ui_window: usize, ui_view: usize, ui_view_controller: usize },
    /// A canvas of a web page, by its id.
    Web { id: u32 },
    /// A window system that this library does not know.
    Unknown,
}

impl WindowHandle {
    /// Whether the handle is of a kind that has a surface extension.
    pub open spec fn supported(self) -> bool {
        !(self is Web || self is Unknown)
    }

    /// Tells whether a surface can be made for this handle.
    pub fn is_supported(&self) -> (r: bool)
        ensures
            r == self.supported(),
    {
        match self {
            WindowHandle::Web { .. } | WindowHandle::Unknown => false,
            _ => true,
        }
    }
}

} // verus!
