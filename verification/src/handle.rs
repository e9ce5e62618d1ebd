//! Resolving host-supplied window handles and normalizing surface bounds.
//!
//! The host passes an opaque 64-bit integer naming an existing native window
//! or view. Resolution turns it into a typed, platform-specific reference.
//! A zero handle can never denote a valid native object and is rejected on
//! every platform. On the platform whose handles are ambiguous — the same
//! integer may point at a top-level window or at a content view — the
//! pointee's runtime identity decides: a window yields its content view, a
//! view is taken unchanged, anything else is rejected.

use vstd::prelude::*;

use crate::error::WebViewError;

verus! {

/// The operating environment the process was built for.
#[derive(Clone, Copy, PartialEq, Eq, Structural, Debug)]
pub enum Platform {
    /// Surfaces embed in X11 windows; the UI loop lives on a dedicated thread.
    Linux,
    /// Surfaces embed in AppKit views; work marshals to the main thread.
    MacOs,
    /// Surfaces embed in Win32 windows; callers run on the UI thread already.
    Windows,
    /// No resolver support; every create fails.
    Unsupported,
}

/// The runtime identity of the object a handle points at, on the platform
/// with ambiguous handle kinds. Elsewhere it is ignored.
#[derive(Clone, Copy, PartialEq, Eq, Structural, Debug)]
pub enum HandleIdentity {
    /// A top-level window; `content_view` is the address of its content view.
    Window { content_view: u64 },
    /// Already a content view.
    View,
    /// Neither a window nor a view.
    Other,
}

/// A typed raw window reference, produced transiently and never stored.
#[derive(Clone, Copy, PartialEq, Eq, Structural, Debug)]
pub enum ResolvedWindow {
    /// A numeric X11 window identifier.
    X11Window { window: u64 },
    /// The address of an AppKit content view.
    AppKitView { view: u64 },
    /// A numeric Win32 window handle.
    Win32Window { hwnd: u64 },
}

/// What resolving a handle yields on each platform.
pub open spec fn spec_resolve(
    platform: Platform,
    handle: u64,
    identity: HandleIdentity,
) -> Result<ResolvedWindow, WebViewError> {
    if handle == 0 {
        Err(WebViewError::InvalidWindowHandle)
    } else {
        match platform {
            Platform::Linux => Ok(ResolvedWindow::X11Window { window: handle }),
            Platform::Windows => Ok(ResolvedWindow::Win32Window { hwnd: handle }),
            Platform::MacOs => match identity {
                HandleIdentity::Window { content_view } => Ok(
                    ResolvedWindow::AppKitView { view: content_view },
                ),
                HandleIdentity::View => Ok(ResolvedWindow::AppKitView { view: handle }),
                HandleIdentity::Other => Err(WebViewError::InvalidWindowHandle),
            },
            Platform::Unsupported => Err(WebViewError::UnsupportedPlatform),
        }
    }
}

/// Resolves a host-supplied handle into a typed raw window reference. A zero
/// handle is rejected on every platform; on the ambiguous-handle platform a
/// window-kind handle resolves to its content view's address, a view-kind
/// handle passes through unchanged, and any other identity is rejected.
pub fn raw_window_handle_from(platform: Platform, handle: u64, identity: HandleIdentity) -> (r:
    Result<ResolvedWindow, WebViewError>)
    ensures
        r == spec_resolve(platform, handle, identity),
        handle == 0 ==> (r matches Err(e) && e == WebViewError::InvalidWindowHandle),
{
    if handle == 0 {
        return Err(WebViewError::InvalidWindowHandle);
    }
    match platform {
        Platform::Linux => Ok(ResolvedWindow::X11Window { window: handle }),
        Platform::Windows => Ok(ResolvedWindow::Win32Window { hwnd: handle }),
        Platform::MacOs => match identity {
            HandleIdentity::Window { content_view } => Ok(
                ResolvedWindow::AppKitView { view: content_view },
            ),
            HandleIdentity::View => Ok(ResolvedWindow::AppKitView { view: handle }),
            HandleIdentity::Other => Err(WebViewError::InvalidWindowHandle),
        },
        Platform::Unsupported => Err(WebViewError::UnsupportedPlatform),
    }
}

/// A position and size to apply to a surface.
#[derive(Clone, Copy, PartialEq, Eq, Structural, Debug)]
pub struct Bounds {
    pub x: i32,
    pub y: i32,
    pub width: i32,
    pub height: i32,
}

/// A dimension clamped to the smallest extent the rendering engine accepts:
/// it treats a zero-sized region as an error, so degenerate sizes are
/// silently coerced rather than rejected.
pub open spec fn clamp_dim(v: i32) -> i32 {
    if v < 1 {
        1
    } else {
        v
    }
}

/// Builds the bounds to apply: the position is kept, width and height are
/// clamped to at least 1.
pub fn make_bounds(x: i32, y: i32, width: i32, height: i32) -> (b: Bounds)
    ensures
        b.x == x,
        b.y == y,
        b.width == clamp_dim(width),
        b.height == clamp_dim(height),
        b.width >= 1,
        b.height >= 1,
{
    let w: i32 = if width < 1 {
        1
    } else {
        width
    };
    let h: i32 = if height < 1 {
        1
    } else {
        height
    };
    Bounds { x, y, width: w, height: h }
}

} // verus!
