use wrywebview::{
    HandleIdentity, Platform, ResolvedWindow, WebViewError, make_bounds, prepare_create,
    raw_window_handle_from,
};

#[test]
fn zero_handle_is_rejected_on_every_platform() {
    for platform in [Platform::Linux, Platform::MacOs, Platform::Windows, Platform::Unsupported] {
        let r = raw_window_handle_from(platform, 0, HandleIdentity::View);
        assert_eq!(r, Err(WebViewError::InvalidWindowHandle));
        let r = prepare_create(platform, 0, HandleIdentity::View, 640, 480,
            "https://a.test".to_string());
        assert!(matches!(r, Err(WebViewError::InvalidWindowHandle)));
    }
}

#[test]
fn single_kind_platforms_reinterpret_directly() {
    let r = raw_window_handle_from(Platform::Linux, 0x5aa5, HandleIdentity::Other);
    assert_eq!(r, Ok(ResolvedWindow::X11Window { window: 0x5aa5 }));
    let r = raw_window_handle_from(Platform::Windows, 0xfeed, HandleIdentity::Other);
    assert_eq!(r, Ok(ResolvedWindow::Win32Window { hwnd: 0xfeed }));
}

#[test]
fn window_kind_handle_resolves_to_its_content_view() {
    let r = raw_window_handle_from(Platform::MacOs, 0x1000,
        HandleIdentity::Window { content_view: 0x2000 });
    assert_eq!(r, Ok(ResolvedWindow::AppKitView { view: 0x2000 }));
    // The content view's address, not the window's own address.
    assert_ne!(r, Ok(ResolvedWindow::AppKitView { view: 0x1000 }));
}

#[test]
fn view_kind_handle_passes_through_unchanged() {
    let r = raw_window_handle_from(Platform::MacOs, 0x3000, HandleIdentity::View);
    assert_eq!(r, Ok(ResolvedWindow::AppKitView { view: 0x3000 }));
}

#[test]
fn ambiguous_handle_of_other_identity_is_rejected() {
    let r = raw_window_handle_from(Platform::MacOs, 0x4000, HandleIdentity::Other);
    assert_eq!(r, Err(WebViewError::InvalidWindowHandle));
}

#[test]
fn unsupported_platform_fails_creation() {
    let r = prepare_create(Platform::Unsupported, 0x1000, HandleIdentity::View, 640, 480,
        "https://a.test".to_string());
    assert!(matches!(r, Err(WebViewError::UnsupportedPlatform)));
}

#[test]
fn prepare_create_fixes_bounds_and_url() {
    let p = prepare_create(Platform::Linux, 0x77, HandleIdentity::Other, 0, -3,
        "https://a.test".to_string())
        .unwrap();
    assert_eq!(p.window, ResolvedWindow::X11Window { window: 0x77 });
    assert_eq!((p.bounds.x, p.bounds.y, p.bounds.width, p.bounds.height), (0, 0, 1, 1));
    assert_eq!(p.url, "https://a.test".to_string());
}

#[test]
fn make_bounds_clamps_only_degenerate_sizes() {
    let b = make_bounds(3, 4, -10, 0);
    assert_eq!((b.x, b.y, b.width, b.height), (3, 4, 1, 1));
    let b = make_bounds(-3, -4, 800, 600);
    assert_eq!((b.x, b.y, b.width, b.height), (-3, -4, 800, 600));
}
