use wrywebview::{
    PageLoadEvent, Registry, WebViewError, WebViewState, complete_create, destroy_webview, focus,
    get_url, go_back, go_forward, is_loading, load_url, reload, set_bounds, with_webview,
};

const T_MAIN: u64 = 100;
const T_OTHER: u64 = 101;

fn reg_with_one(url: &str) -> (Registry, u64) {
    let mut reg = Registry::new();
    let id = complete_create(&mut reg, T_MAIN, Ok(7), url.to_string()).unwrap();
    (reg, id)
}

#[test]
fn ids_strictly_increase_across_destroys() {
    let mut reg = Registry::new();
    let id1 = complete_create(&mut reg, T_MAIN, Ok(7), "https://a.test".to_string()).unwrap();
    let id2 = complete_create(&mut reg, T_MAIN, Ok(8), "https://b.test".to_string()).unwrap();
    assert_eq!(id1, 1);
    assert_eq!(id2, 2);
    assert_eq!(destroy_webview(&mut reg, id1, T_MAIN), Ok(Some(7)));
    let id3 = complete_create(&mut reg, T_MAIN, Ok(9), "https://c.test".to_string()).unwrap();
    assert_eq!(id3, 3);
    assert!(id3 > id2 && id2 > id1);
}

#[test]
fn create_failure_registers_nothing() {
    let mut reg = Registry::new();
    let r = complete_create(&mut reg, T_MAIN, Err("engine exploded".to_string()),
        "https://a.test".to_string());
    assert_eq!(r, Err(WebViewError::UnderlyingEngine("engine exploded".to_string())));
    let id = complete_create(&mut reg, T_MAIN, Ok(7), "https://a.test".to_string()).unwrap();
    assert_eq!(id, 1);
}

#[test]
fn set_bounds_clamps_zero_size() {
    let (reg, id) = reg_with_one("https://a.test");
    let c = set_bounds(&reg, id, T_MAIN, 10, 20, 0, 0).unwrap();
    assert_eq!(c.webview, 7);
    assert_eq!(c.bounds.x, 10);
    assert_eq!(c.bounds.y, 20);
    assert_eq!(c.bounds.width, 1);
    assert_eq!(c.bounds.height, 1);
}

#[test]
fn set_bounds_keeps_positive_size() {
    let (reg, id) = reg_with_one("https://a.test");
    let c = set_bounds(&reg, id, T_MAIN, -5, -6, 640, 480).unwrap();
    assert_eq!((c.bounds.x, c.bounds.y, c.bounds.width, c.bounds.height), (-5, -6, 640, 480));
}

#[test]
fn operations_on_unissued_id_fail_not_found() {
    let mut reg = Registry::new();
    assert_eq!(get_url(&reg, 42), Err(WebViewError::WebViewNotFound(42)));
    assert_eq!(is_loading(&reg, 42), Err(WebViewError::WebViewNotFound(42)));
    assert!(matches!(set_bounds(&reg, 42, T_MAIN, 0, 0, 1, 1),
        Err(WebViewError::WebViewNotFound(42))));
    assert!(matches!(load_url(&mut reg, 42, T_MAIN, "https://x.test".to_string()),
        Err(WebViewError::WebViewNotFound(42))));
    assert!(matches!(focus(&reg, 42, T_MAIN), Err(WebViewError::WebViewNotFound(42))));
}

#[test]
fn operations_on_destroyed_id_fail_not_found() {
    let (mut reg, id) = reg_with_one("https://a.test");
    assert_eq!(destroy_webview(&mut reg, id, T_MAIN), Ok(Some(7)));
    assert_eq!(get_url(&reg, id), Err(WebViewError::WebViewNotFound(id)));
    assert!(matches!(reload(&mut reg, id, T_MAIN), Err(WebViewError::WebViewNotFound(id))));
}

#[test]
fn destroy_twice_succeeds() {
    let (mut reg, id) = reg_with_one("https://a.test");
    assert_eq!(destroy_webview(&mut reg, id, T_MAIN), Ok(Some(7)));
    assert_eq!(destroy_webview(&mut reg, id, T_MAIN), Ok(None));
    assert_eq!(destroy_webview(&mut reg, id, T_OTHER), Ok(None));
}

#[test]
fn destroy_of_never_created_id_is_a_noop() {
    let mut reg = Registry::new();
    assert_eq!(destroy_webview(&mut reg, 9, T_MAIN), Ok(None));
}

#[test]
fn wrong_thread_is_rejected_everywhere() {
    let (mut reg, id) = reg_with_one("https://a.test");
    assert!(matches!(set_bounds(&reg, id, T_OTHER, 0, 0, 1, 1),
        Err(WebViewError::WrongThread(i)) if i == id));
    assert!(matches!(load_url(&mut reg, id, T_OTHER, "https://x.test".to_string()),
        Err(WebViewError::WrongThread(i)) if i == id));
    assert!(matches!(go_back(&mut reg, id, T_OTHER), Err(WebViewError::WrongThread(i)) if i == id));
    assert!(matches!(go_forward(&mut reg, id, T_OTHER),
        Err(WebViewError::WrongThread(i)) if i == id));
    assert!(matches!(reload(&mut reg, id, T_OTHER), Err(WebViewError::WrongThread(i)) if i == id));
    assert!(matches!(focus(&reg, id, T_OTHER), Err(WebViewError::WrongThread(i)) if i == id));
    assert!(matches!(destroy_webview(&mut reg, id, T_OTHER),
        Err(WebViewError::WrongThread(i)) if i == id));
    // The surface is still there and still usable from its owning thread.
    assert_eq!(destroy_webview(&mut reg, id, T_MAIN), Ok(Some(7)));
}

#[test]
fn state_reads_need_no_thread_affinity() {
    let (reg, id) = reg_with_one("https://a.test");
    assert_eq!(get_url(&reg, id), Ok("https://a.test".to_string()));
    assert_eq!(is_loading(&reg, id), Ok(true));
}

#[test]
fn loading_is_true_immediately_after_load_url() {
    let (mut reg, id) = reg_with_one("https://a.test");
    // Let the first load finish, so the eager write is what flips the flag.
    reg.notify_page_load(id, PageLoadEvent::Finished, "https://a.test".to_string());
    assert_eq!(is_loading(&reg, id), Ok(false));
    let c = load_url(&mut reg, id, T_MAIN, "https://example.test".to_string()).unwrap();
    assert_eq!(c.webview, 7);
    assert_eq!(c.url, "https://example.test".to_string());
    assert_eq!(is_loading(&reg, id), Ok(true));
    // The callback has not fired: the tracked url is still the old one.
    assert_eq!(get_url(&reg, id), Ok("https://a.test".to_string()));
}

#[test]
fn loading_is_set_eagerly_even_when_the_thread_check_fails() {
    let (mut reg, id) = reg_with_one("https://a.test");
    reg.notify_page_load(id, PageLoadEvent::Finished, "https://a.test".to_string());
    assert_eq!(is_loading(&reg, id), Ok(false));
    let r = load_url(&mut reg, id, T_OTHER, "https://example.test".to_string());
    assert!(matches!(r, Err(WebViewError::WrongThread(i)) if i == id));
    assert_eq!(is_loading(&reg, id), Ok(true));
}

#[test]
fn history_and_reload_mark_loading_and_carry_their_scripts() {
    let (mut reg, id) = reg_with_one("https://a.test");
    reg.notify_page_load(id, PageLoadEvent::Finished, "https://a.test".to_string());

    let c = go_back(&mut reg, id, T_MAIN).unwrap();
    assert_eq!(c.script, "window.history.back()".to_string());
    assert_eq!(is_loading(&reg, id), Ok(true));

    reg.notify_page_load(id, PageLoadEvent::Finished, "https://a.test".to_string());
    let c = go_forward(&mut reg, id, T_MAIN).unwrap();
    assert_eq!(c.script, "window.history.forward()".to_string());
    assert_eq!(is_loading(&reg, id), Ok(true));

    reg.notify_page_load(id, PageLoadEvent::Finished, "https://a.test".to_string());
    let c = reload(&mut reg, id, T_MAIN).unwrap();
    assert_eq!(c.script, "window.location.reload()".to_string());
    assert_eq!(is_loading(&reg, id), Ok(true));
}

#[test]
fn focus_carries_its_script_and_leaves_loading_alone() {
    let (mut reg, id) = reg_with_one("https://a.test");
    reg.notify_page_load(id, PageLoadEvent::Finished, "https://a.test".to_string());
    let c = focus(&reg, id, T_MAIN).unwrap();
    assert_eq!(c.webview, 7);
    assert_eq!(c.script, "document.documentElement.focus(); window.focus();".to_string());
    assert_eq!(is_loading(&reg, id), Ok(false));
}

#[test]
fn page_load_finished_updates_url_and_clears_loading() {
    let (mut reg, id) = reg_with_one("https://a.test");
    reg.notify_page_load(id, PageLoadEvent::Finished, "https://a.test/landed".to_string());
    assert_eq!(get_url(&reg, id), Ok("https://a.test/landed".to_string()));
    assert_eq!(is_loading(&reg, id), Ok(false));
}

#[test]
fn page_load_started_marks_loading_and_keeps_url() {
    let (mut reg, id) = reg_with_one("https://a.test");
    reg.notify_page_load(id, PageLoadEvent::Finished, "https://a.test".to_string());
    reg.notify_page_load(id, PageLoadEvent::Started, "ignored".to_string());
    assert_eq!(is_loading(&reg, id), Ok(true));
    assert_eq!(get_url(&reg, id), Ok("https://a.test".to_string()));
}

#[test]
fn navigation_start_records_target_and_permits() {
    let (mut reg, id) = reg_with_one("https://a.test");
    let allow = reg.notify_navigation_start(id, "https://next.test".to_string());
    assert!(allow);
    assert_eq!(get_url(&reg, id), Ok("https://next.test".to_string()));
    assert_eq!(is_loading(&reg, id), Ok(true));
    // Events for destroyed surfaces are dropped but still permitted.
    assert!(reg.notify_navigation_start(999, "https://x.test".to_string()));
}

#[test]
fn events_touch_only_the_surface_they_name() {
    let mut reg = Registry::new();
    let id1 = complete_create(&mut reg, T_MAIN, Ok(7), "https://a.test".to_string()).unwrap();
    let id2 = complete_create(&mut reg, T_MAIN, Ok(8), "https://b.test".to_string()).unwrap();
    reg.notify_page_load(id1, PageLoadEvent::Finished, "https://a.test/done".to_string());
    assert_eq!(get_url(&reg, id1), Ok("https://a.test/done".to_string()));
    assert_eq!(get_url(&reg, id2), Ok("https://b.test".to_string()));
    assert_eq!(is_loading(&reg, id2), Ok(true));
}

#[test]
fn get_state_hands_out_a_readable_copy() {
    let (mut reg, id) = reg_with_one("https://a.test");
    let s = reg.get_state(id).unwrap();
    assert!(s.is_loading);
    assert_eq!(s.current_url, "https://a.test".to_string());
    // The copy stays readable after the surface is destroyed.
    assert_eq!(destroy_webview(&mut reg, id, T_MAIN), Ok(Some(7)));
    assert_eq!(s.current_url, "https://a.test".to_string());
    assert!(matches!(reg.get_state(id), Err(WebViewError::WebViewNotFound(i)) if i == id));
}

#[test]
fn next_id_advances_without_registering() {
    let mut reg = Registry::new();
    assert_eq!(reg.next_id(), 1);
    assert_eq!(reg.next_id(), 2);
    let id = complete_create(&mut reg, T_MAIN, Ok(7), "https://a.test".to_string()).unwrap();
    assert_eq!(id, 3);
}

#[test]
fn with_webview_runs_the_action_after_the_checks() {
    let (reg, id) = reg_with_one("https://a.test");
    let r = with_webview(&reg, id, T_MAIN, |wv| Ok(wv + 1));
    assert_eq!(r, Ok(8));
    let r = with_webview(&reg, id, T_OTHER, |wv| Ok(wv + 1));
    assert!(matches!(r, Err(WebViewError::WrongThread(i)) if i == id));
    let r = with_webview(&reg, 42, T_MAIN, |wv| Ok(wv + 1));
    assert!(matches!(r, Err(WebViewError::WebViewNotFound(42))));
    let r: Result<u64, WebViewError> = with_webview(&reg, id, T_MAIN, |_wv| {
        Err(WebViewError::UnderlyingEngine("script failed".to_string()))
    });
    assert_eq!(r, Err(WebViewError::UnderlyingEngine("script failed".to_string())));
}

#[test]
fn webview_state_transitions() {
    let mut s = WebViewState::new("https://a.test".to_string());
    assert!(s.is_loading);
    s.on_page_load(PageLoadEvent::Finished, "https://a.test/done".to_string());
    assert!(!s.is_loading);
    assert_eq!(s.current_url, "https://a.test/done".to_string());
    assert!(s.on_navigation_start("https://b.test".to_string()));
    assert!(s.is_loading);
    assert_eq!(s.current_url, "https://b.test".to_string());
    let copy = s.snapshot();
    assert_eq!(copy.current_url, s.current_url);
    assert_eq!(copy.is_loading, s.is_loading);
}
