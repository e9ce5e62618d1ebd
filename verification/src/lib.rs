//! A registry of thread-confined embedded web-rendering surfaces.
//!
//! The host hands in an opaque native window handle and gets back a resource
//! id it can use to position, navigate, query and destroy the embedded
//! surface. This library carries the concurrency and resource-lifetime rules:
//! id allocation, thread affinity, navigation-state tracking, handle
//! resolution and the per-platform dispatch decisions. The native rendering
//! engine is an outside collaborator: each operation here validates the
//! request against the registry and yields the exact command the caller then
//! applies to the engine on the owning thread.

mod error;
mod handle;
mod platform;
mod state;

pub use error::WebViewError;
pub use handle::{
    Bounds, HandleIdentity, Platform, ResolvedWindow, clamp_dim, make_bounds,
    raw_window_handle_from, spec_resolve,
};
pub use platform::{
    DedicatedRunner, MarshalDecision, RunnerPhase, Strategy, marshal_decision, run_on_main_thread,
    strategy_for,
};
pub use state::{
    PageLoadEvent, Registry, WebViewEntry, WebViewState, agrees_except, lemma_destroy_idempotent,
    lemma_finished_load_observed, lemma_ids_strictly_increase, lemma_unissued_id_absent,
    page_load_post, registered, unregister_post, with_webview,
};

use vstd::prelude::*;
use vstd::string::StringExecFns;

verus! {

/// Everything needed to build one surface: the resolved parent window, the
/// initial bounds (position 0,0; size clamped), and the initial url.
pub struct CreatePlan {
    pub window: ResolvedWindow,
    pub bounds: Bounds,
    pub url: String,
}

/// Validates a creation request: resolves the parent handle for the platform
/// and fixes the initial bounds and url. A zero handle fails on every
/// platform; the surface starts loading `url` at position (0,0) with its size
/// clamped to at least 1×1.
pub fn prepare_create(
    platform: Platform,
    parent_handle: u64,
    identity: HandleIdentity,
    width: i32,
    height: i32,
    url: String,
) -> (r: Result<CreatePlan, WebViewError>)
    ensures
        parent_handle == 0 ==> (r matches Err(e) && e == WebViewError::InvalidWindowHandle),
        spec_resolve(platform, parent_handle, identity) matches Ok(w) ==> (r matches Ok(p)
            && p.window == w && p.bounds == (Bounds {
            x: 0,
            y: 0,
            width: clamp_dim(width),
            height: clamp_dim(height),
        }) && p.url == url),
        spec_resolve(platform, parent_handle, identity) matches Err(e) ==> (r matches Err(e2) && e2
            == e),
{
    match raw_window_handle_from(platform, parent_handle, identity) {
        Ok(window) => Ok(CreatePlan { window, bounds: make_bounds(0, 0, width, height), url }),
        Err(e) => Err(e),
    }
}

/// Finishes a creation with what the engine reported: an engine failure is
/// surfaced as-is and registers nothing; a built surface is registered under
/// a fresh id, owned by the calling thread, with its state loading the
/// initial url.
pub fn complete_create(
    reg: &mut Registry,
    thread_id: u64,
    built: Result<u64, String>,
    url: String,
) -> (r: Result<u64, WebViewError>)
    requires
        old(reg).wf(),
        old(reg).counter() < u64::MAX,
    ensures
        final(reg).wf(),
        built matches Err(m) ==> (r matches Err(e) && e == WebViewError::UnderlyingEngine(m))
            && *final(reg) == *old(reg),
        built matches Ok(wv) ==> (r matches Ok(id) && registered(*old(reg), *final(reg), id)
            && !old(reg).contains(id) && final(reg).contains(id) && final(reg).entry_of(id).webview
            == wv && final(reg).entry_of(id).thread_id == thread_id && final(reg).entry_of(
            id,
        ).state.is_loading && final(reg).entry_of(id).state.current_url == url && agrees_except(
            *old(reg),
            *final(reg),
            id,
        )),
{
    match built {
        Ok(webview) => {
            let state = WebViewState::new(url);
            let id = reg.register(webview, thread_id, state);
            Ok(id)
        },
        Err(m) => Err(WebViewError::UnderlyingEngine(m)),
    }
}

/// A repositioning command for the engine: which surface, and the bounds to
/// apply.
pub struct BoundsCommand {
    pub webview: u64,
    pub bounds: Bounds,
}

/// Validates a repositioning request and yields the command to apply: the
/// requested size is clamped to at least 1×1. Fails if the id has no live
/// surface or the caller is not the owning thread.
pub fn set_bounds(reg: &Registry, id: u64, thread_id: u64, x: i32, y: i32, width: i32, height: i32)
    -> (r: Result<BoundsCommand, WebViewError>)
    requires
        reg.wf(),
    ensures
        !reg.contains(id) ==> (r matches Err(e) && e == WebViewError::WebViewNotFound(id)),
        reg.contains(id) && reg.entry_of(id).thread_id != thread_id ==> (r matches Err(e) && e
            == WebViewError::WrongThread(id)),
        reg.contains(id) && reg.entry_of(id).thread_id == thread_id ==> (r matches Ok(c)
            && c.webview == reg.entry_of(id).webview && c.bounds == (Bounds {
            x,
            y,
            width: clamp_dim(width),
            height: clamp_dim(height),
        }) && c.bounds.width >= 1 && c.bounds.height >= 1),
{
    match reg.lookup_webview(id, thread_id) {
        Ok(webview) => Ok(BoundsCommand { webview, bounds: make_bounds(x, y, width, height) }),
        Err(e) => Err(e),
    }
}

/// A navigation command for the engine: which surface, and the url to load.
pub struct LoadCommand {
    pub webview: u64,
    pub url: String,
}

/// Validates a navigation request and yields the command to apply. Whenever
/// the surface exists its loading flag is set eagerly — before the engine
/// acts — so a poll right after this returns sees `true` even if the engine's
/// own callback has not fired yet.
pub fn load_url(reg: &mut Registry, id: u64, thread_id: u64, url: String) -> (r: Result<
    LoadCommand,
    WebViewError,
>)
    requires
        old(reg).wf(),
    ensures
        final(reg).wf(),
        final(reg).counter() == old(reg).counter(),
        forall|k: u64| final(reg).contains(k) <==> old(reg).contains(k),
        agrees_except(*old(reg), *final(reg), id),
        !old(reg).contains(id) ==> (r matches Err(e) && e == WebViewError::WebViewNotFound(id))
            && *final(reg) == *old(reg),
        old(reg).contains(id) ==> final(reg).entry_of(id).state.is_loading,
        old(reg).contains(id) ==> final(reg).entry_of(id).state.current_url == old(reg).entry_of(
            id,
        ).state.current_url,
        old(reg).contains(id) ==> final(reg).entry_of(id).webview == old(reg).entry_of(id).webview
            && final(reg).entry_of(id).thread_id == old(reg).entry_of(id).thread_id,
        old(reg).contains(id) && old(reg).entry_of(id).thread_id != thread_id ==> (r matches Err(e)
            && e == WebViewError::WrongThread(id)),
        old(reg).contains(id) && old(reg).entry_of(id).thread_id == thread_id ==> (r matches Ok(c)
            && c.webview == old(reg).entry_of(id).webview && c.url == url),
{
    match reg.begin_navigation(id, thread_id) {
        Ok(webview) => Ok(LoadCommand { webview, url }),
        Err(e) => Err(e),
    }
}

/// A script command for the engine: which surface, and the script to run in
/// its page.
pub struct ScriptCommand {
    pub webview: u64,
    pub script: String,
}

/// Validates a history-back request and yields the script command that
/// performs it. The loading flag is set eagerly, as for `load_url`.
pub fn go_back(reg: &mut Registry, id: u64, thread_id: u64) -> (r: Result<
    ScriptCommand,
    WebViewError,
>)
    requires
        old(reg).wf(),
    ensures
        final(reg).wf(),
        final(reg).counter() == old(reg).counter(),
        forall|k: u64| final(reg).contains(k) <==> old(reg).contains(k),
        agrees_except(*old(reg), *final(reg), id),
        !old(reg).contains(id) ==> (r matches Err(e) && e == WebViewError::WebViewNotFound(id))
            && *final(reg) == *old(reg),
        old(reg).contains(id) ==> final(reg).entry_of(id).state.is_loading,
        old(reg).contains(id) ==> final(reg).entry_of(id).state.current_url == old(reg).entry_of(
            id,
        ).state.current_url,
        old(reg).contains(id) ==> final(reg).entry_of(id).webview == old(reg).entry_of(id).webview
            && final(reg).entry_of(id).thread_id == old(reg).entry_of(id).thread_id,
        old(reg).contains(id) && old(reg).entry_of(id).thread_id != thread_id ==> (r matches Err(e)
            && e == WebViewError::WrongThread(id)),
        old(reg).contains(id) && old(reg).entry_of(id).thread_id == thread_id ==> (r matches Ok(c)
            && c.webview == old(reg).entry_of(id).webview && c.script@
            == "window.history.back()"@),
{
    match reg.begin_navigation(id, thread_id) {
        Ok(webview) => Ok(
            ScriptCommand { webview, script: String::from_str("window.history.back()") },
        ),
        Err(e) => Err(e),
    }
}

/// Validates a history-forward request and yields the script command that
/// performs it. The loading flag is set eagerly, as for `load_url`.
pub fn go_forward(reg: &mut Registry, id: u64, thread_id: u64) -> (r: Result<
    ScriptCommand,
    WebViewError,
>)
    requires
        old(reg).wf(),
    ensures
        final(reg).wf(),
        final(reg).counter() == old(reg).counter(),
        forall|k: u64| final(reg).contains(k) <==> old(reg).contains(k),
        agrees_except(*old(reg), *final(reg), id),
        !old(reg).contains(id) ==> (r matches Err(e) && e == WebViewError::WebViewNotFound(id))
            && *final(reg) == *old(reg),
        old(reg).contains(id) ==> final(reg).entry_of(id).state.is_loading,
        old(reg).contains(id) ==> final(reg).entry_of(id).state.current_url == old(reg).entry_of(
            id,
        ).state.current_url,
        old(reg).contains(id) ==> final(reg).entry_of(id).webview == old(reg).entry_of(id).webview
            && final(reg).entry_of(id).thread_id == old(reg).entry_of(id).thread_id,
        old(reg).contains(id) && old(reg).entry_of(id).thread_id != thread_id ==> (r matches Err(e)
            && e == WebViewError::WrongThread(id)),
        old(reg).contains(id) && old(reg).entry_of(id).thread_id == thread_id ==> (r matches Ok(c)
            && c.webview == old(reg).entry_of(id).webview && c.script@
            == "window.history.forward()"@),
{
    match reg.begin_navigation(id, thread_id) {
        Ok(webview) => Ok(
            ScriptCommand { webview, script: String::from_str("window.history.forward()") },
        ),
        Err(e) => Err(e),
    }
}

/// Validates a reload request and yields the script command that performs it.
/// The loading flag is set eagerly, as for `load_url`.
pub fn reload(reg: &mut Registry, id: u64, thread_id: u64) -> (r: Result<
    ScriptCommand,
    WebViewError,
>)
    requires
        old(reg).wf(),
    ensures
        final(reg).wf(),
        final(reg).counter() == old(reg).counter(),
        forall|k: u64| final(reg).contains(k) <==> old(reg).contains(k),
        agrees_except(*old(reg), *final(reg), id),
        !old(reg).contains(id) ==> (r matches Err(e) && e == WebViewError::WebViewNotFound(id))
            && *final(reg) == *old(reg),
        old(reg).contains(id) ==> final(reg).entry_of(id).state.is_loading,
        old(reg).contains(id) ==> final(reg).entry_of(id).state.current_url == old(reg).entry_of(
            id,
        ).state.current_url,
        old(reg).contains(id) ==> final(reg).entry_of(id).webview == old(reg).entry_of(id).webview
            && final(reg).entry_of(id).thread_id == old(reg).entry_of(id).thread_id,
        old(reg).contains(id) && old(reg).entry_of(id).thread_id != thread_id ==> (r matches Err(e)
            && e == WebViewError::WrongThread(id)),
        old(reg).contains(id) && old(reg).entry_of(id).thread_id == thread_id ==> (r matches Ok(c)
            && c.webview == old(reg).entry_of(id).webview && c.script@
            == "window.location.reload()"@),
{
    match reg.begin_navigation(id, thread_id) {
        Ok(webview) => Ok(
            ScriptCommand { webview, script: String::from_str("window.location.reload()") },
        ),
        Err(e) => Err(e),
    }
}

/// Validates a focus request and yields the script command that performs it.
/// Focusing is not a navigation, so the loading flag is untouched.
pub fn focus(reg: &Registry, id: u64, thread_id: u64) -> (r: Result<ScriptCommand, WebViewError>)
    requires
        reg.wf(),
    ensures
        !reg.contains(id) ==> (r matches Err(e) && e == WebViewError::WebViewNotFound(id)),
        reg.contains(id) && reg.entry_of(id).thread_id != thread_id ==> (r matches Err(e) && e
            == WebViewError::WrongThread(id)),
        reg.contains(id) && reg.entry_of(id).thread_id == thread_id ==> (r matches Ok(c)
            && c.webview == reg.entry_of(id).webview && c.script@
            == "document.documentElement.focus(); window.focus();"@),
{
    match reg.lookup_webview(id, thread_id) {
        Ok(webview) => Ok(
            ScriptCommand {
                webview,
                script: String::from_str("document.documentElement.focus(); window.focus();"),
            },
        ),
        Err(e) => Err(e),
    }
}

/// Reads the surface's current url. A pure state read: any thread may call
/// it; it fails only when the id has no live surface.
pub fn get_url(reg: &Registry, id: u64) -> (r: Result<String, WebViewError>)
    requires
        reg.wf(),
    ensures
        reg.contains(id) ==> (r matches Ok(u) && u == reg.entry_of(id).state.current_url),
        !reg.contains(id) ==> (r matches Err(e) && e == WebViewError::WebViewNotFound(id)),
{
    match reg.get_state(id) {
        Ok(state) => Ok(state.current_url),
        Err(e) => Err(e),
    }
}

/// Reads whether the surface is loading. A pure state read: any thread may
/// call it; it fails only when the id has no live surface.
pub fn is_loading(reg: &Registry, id: u64) -> (r: Result<bool, WebViewError>)
    requires
        reg.wf(),
    ensures
        reg.contains(id) ==> r == Ok::<bool, WebViewError>(reg.entry_of(id).state.is_loading),
        !reg.contains(id) ==> (r matches Err(e) && e == WebViewError::WebViewNotFound(id)),
{
    match reg.get_state(id) {
        Ok(state) => Ok(state.is_loading),
        Err(e) => Err(e),
    }
}

/// Destroys the surface: removes its entry and hands back the surface token
/// the caller must release — exactly once. Destroying an absent or already
/// destroyed id succeeds as a no-op; a live surface is only destroyed on its
/// owning thread.
pub fn destroy_webview(reg: &mut Registry, id: u64, thread_id: u64) -> (r: Result<
    Option<u64>,
    WebViewError,
>)
    requires
        old(reg).wf(),
    ensures
        final(reg).wf(),
        unregister_post(*old(reg), *final(reg), id, thread_id, r),
{
    reg.unregister(id, thread_id)
}

/// On the platform whose dedicated worker pumps its own event queue
/// continuously there is nothing for the host to drain; provided so hosts can
/// call one pump entry point everywhere.
pub fn pump_gtk_events() {
}

} // verus!
