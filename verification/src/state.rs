//! Navigation state and the process-wide registry of thread-confined
//! surfaces.
//!
//! The registry maps resource ids to entries; an entry owns the native
//! surface token, remembers the identity of the one thread allowed to touch
//! the surface, and carries the surface's navigation state. Ids come from a
//! monotonically increasing counter starting at 1 and are never reused, even
//! after the surface they named is destroyed.

use vstd::prelude::*;

use crate::error::WebViewError;

verus! {

/// Which phase a page-load event reports.
#[derive(Clone, Copy, PartialEq, Eq, Structural, Debug)]
pub enum PageLoadEvent {
    Started,
    Finished,
}

/// Tracks the loading flag and current url of one surface. It is updated by
/// navigation event callbacks and by eager pre-dispatch writes, and read by
/// the query operations.
pub struct WebViewState {
    pub is_loading: bool,
    pub current_url: String,
}

impl WebViewState {
    /// A fresh state: a surface starts out loading its initial url.
    pub fn new(url: String) -> (s: WebViewState)
        ensures
            s.is_loading,
            s.current_url == url,
    {
        WebViewState { is_loading: true, current_url: url }
    }

    /// An owned copy, so the state can be handed out and read even after the
    /// registry entry that held it is gone.
    pub fn snapshot(&self) -> (s: WebViewState)
        ensures
            s == *self,
    {
        WebViewState { is_loading: self.is_loading, current_url: self.current_url.clone() }
    }

    /// Navigation-start callback: the surface begins loading the new target
    /// url. The navigation is always permitted.
    pub fn on_navigation_start(&mut self, url: String) -> (allow: bool)
        ensures
            allow,
            final(self).is_loading,
            final(self).current_url == url,
    {
        self.is_loading = true;
        self.current_url = url;
        true
    }

    /// Page-load callback: the "started" phase marks the surface loading; the
    /// "finished" phase clears the flag and records the finished url.
    pub fn on_page_load(&mut self, event: PageLoadEvent, url: String)
        ensures
            event is Started ==> final(self).is_loading && final(self).current_url == old(
                self,
            ).current_url,
            event is Finished ==> !final(self).is_loading && final(self).current_url == url,
    {
        match event {
            PageLoadEvent::Started => {
                self.is_loading = true;
            },
            PageLoadEvent::Finished => {
                self.is_loading = false;
                self.current_url = url;
            },
        }
    }
}

/// One live registry entry: the native surface token, the identity of the
/// only thread allowed to touch that surface, and its navigation state.
pub struct WebViewEntry {
    pub webview: u64,
    pub thread_id: u64,
    pub state: WebViewState,
}

/// The process-wide table of live surfaces, keyed by resource id.
pub struct Registry {
    next: u64,
    rows: Vec<(u64, WebViewEntry)>,
}

spec fn seq_has_id(s: Seq<(u64, WebViewEntry)>, id: u64) -> bool {
    exists|i: int| 0 <= i < s.len() && s[i].0 == id
}

spec fn seq_idx_of(s: Seq<(u64, WebViewEntry)>, id: u64) -> int {
    choose|i: int| 0 <= i < s.len() && s[i].0 == id
}

spec fn seq_ids_unique(s: Seq<(u64, WebViewEntry)>) -> bool {
    forall|i: int, j: int|
        0 <= i < s.len() && 0 <= j < s.len() && i != j ==> (#[trigger] s[i]).0 != (#[trigger] s[j]).0
}

/// With unique ids, the index the lookup picks for `id` is the one index that
/// carries it.
proof fn lemma_seq_idx_unique(s: Seq<(u64, WebViewEntry)>, i: int, id: u64)
    requires
        seq_ids_unique(s),
        0 <= i < s.len(),
        s[i].0 == id,
    ensures
        seq_has_id(s, id),
        seq_idx_of(s, id) == i,
{
    assert(seq_has_id(s, id));
    let j = seq_idx_of(s, id);
    assert(0 <= j < s.len() && s[j].0 == id);
    assert(j == i);
}

impl Registry {
    /// The next id the registry will hand out.
    pub closed spec fn counter(&self) -> u64 {
        self.next
    }

    /// Whether a live entry carries this id.
    pub closed spec fn contains(&self, id: u64) -> bool {
        seq_has_id(self.rows@, id)
    }

    /// The live entry that carries this id (meaningful when `contains(id)`).
    pub closed spec fn entry_of(&self, id: u64) -> WebViewEntry {
        self.rows@[seq_idx_of(self.rows@, id)].1
    }

    /// Validity: ids are at least 1, below the counter, and pairwise
    /// distinct, so an id denotes at most one live entry and is never reused.
    pub closed spec fn wf(&self) -> bool {
        &&& self.next >= 1
        &&& forall|i: int|
            0 <= i < self.rows@.len() ==> 1 <= (#[trigger] self.rows@[i]).0 < self.next
        &&& seq_ids_unique(self.rows@)
    }

    /// An empty registry; ids start at 1.
    pub fn new() -> (r: Registry)
        ensures
            r.wf(),
            r.counter() == 1,
            forall|id: u64| !r.contains(id),
    {
        Registry { next: 1, rows: Vec::new() }
    }

    /// The index of the row that carries `id`, if one does.
    fn find_row(&self, id: u64) -> (r: Option<usize>)
        ensures
            match r {
                Some(i) => i < self.rows@.len() && self.rows@[i as int].0 == id,
                None => !self.contains(id),
            },
    {
        let mut i: usize = 0;
        while i < self.rows.len()
            invariant
                i <= self.rows@.len(),
                forall|j: int| 0 <= j < i ==> (#[trigger] self.rows@[j]).0 != id,
            decreases self.rows@.len() - i,
        {
            if self.rows[i].0 == id {
                return Some(i);
            }
            i = i + 1;
        }
        None
    }

    /// The id the next registration will get, without advancing anything.
    /// Lets a caller confirm the counter is not exhausted before registering.
    pub fn peek_next_id(&self) -> (id: u64)
        ensures
            id == self.counter(),
    {
        self.next
    }

    /// Allocates the next resource id: returns the counter and advances it.
    pub fn next_id(&mut self) -> (id: u64)
        requires
            old(self).wf(),
            old(self).counter() < u64::MAX,
        ensures
            final(self).wf(),
            registered(*old(self), *final(self), id),
            id >= 1,
            forall|k: u64| final(self).contains(k) <==> old(self).contains(k),
            forall|k: u64|
                old(self).contains(k) ==> final(self).entry_of(k) == old(self).entry_of(k),
    {
        let id = self.next;
        self.next = self.next + 1;
        id
    }

    /// Inserts a new entry under a fresh id, recording the calling thread as
    /// the owning thread. The returned id was never issued before and will
    /// never be issued again.
    pub fn register(&mut self, webview: u64, thread_id: u64, state: WebViewState) -> (id: u64)
        requires
            old(self).wf(),
            old(self).counter() < u64::MAX,
        ensures
            final(self).wf(),
            registered(*old(self), *final(self), id),
            id >= 1,
            !old(self).contains(id),
            final(self).contains(id),
            final(self).entry_of(id) == (WebViewEntry { webview, thread_id, state }),
            agrees_except(*old(self), *final(self), id),
    {
        let id = self.next;
        self.next = self.next + 1;
        let ghost mid_rows = self.rows@;
        self.rows.push((id, WebViewEntry { webview, thread_id, state }));
        proof {
            let pre = *old(self);
            let n = pre.rows@.len() as int;
            assert(self.rows@ =~= pre.rows@.push(self.rows@[n]));
            assert forall|ii: int, jj: int|
                0 <= ii < self.rows@.len() && 0 <= jj < self.rows@.len() && ii != jj implies (
            #[trigger] self.rows@[ii]).0 != (#[trigger] self.rows@[jj]).0 by {
                if ii < n && jj < n {
                    assert(pre.rows@[ii] == self.rows@[ii]);
                    assert(pre.rows@[jj] == self.rows@[jj]);
                } else if ii == n {
                    assert(self.rows@[jj] == pre.rows@[jj]);
                    assert(pre.rows@[jj].0 < id);
                } else {
                    assert(self.rows@[ii] == pre.rows@[ii]);
                    assert(pre.rows@[ii].0 < id);
                }
            }
            if seq_has_id(pre.rows@, id) {
                let j = seq_idx_of(pre.rows@, id);
                assert(pre.rows@[j].0 < pre.next);
                assert(false);
            }
            lemma_seq_idx_unique(self.rows@, n, id);
            assert forall|k: u64| k != id implies (self.contains(k) <==> pre.contains(k)) by {
                if seq_has_id(self.rows@, k) {
                    let j = seq_idx_of(self.rows@, k);
                    assert(0 <= j < self.rows@.len() && self.rows@[j].0 == k);
                    assert(j != n);
                    assert(pre.rows@[j] == self.rows@[j]);
                    assert(seq_has_id(pre.rows@, k));
                }
                if seq_has_id(pre.rows@, k) {
                    let j = seq_idx_of(pre.rows@, k);
                    assert(self.rows@[j] == pre.rows@[j]);
                    assert(seq_has_id(self.rows@, k));
                }
            }
            assert forall|k: u64| k != id && pre.contains(k) implies self.entry_of(k)
                == pre.entry_of(k) by {
                let j = seq_idx_of(pre.rows@, k);
                assert(0 <= j < pre.rows@.len() && pre.rows@[j].0 == k);
                assert(self.rows@[j] == pre.rows@[j]);
                lemma_seq_idx_unique(self.rows@, j, k);
                lemma_seq_idx_unique(pre.rows@, j, k);
            }
        }
        id
    }

    /// Looks up the surface token for `id`, enforcing thread affinity: the
    /// token comes back only on the thread that registered the surface.
    pub fn lookup_webview(&self, id: u64, thread_id: u64) -> (r: Result<u64, WebViewError>)
        requires
            self.wf(),
        ensures
            !self.contains(id) ==> (r matches Err(e) && e == WebViewError::WebViewNotFound(id)),
            self.contains(id) && self.entry_of(id).thread_id != thread_id ==> (r matches Err(e)
                && e == WebViewError::WrongThread(id)),
            self.contains(id) && self.entry_of(id).thread_id == thread_id ==> r == Ok::<
                u64,
                WebViewError,
            >(self.entry_of(id).webview),
    {
        match self.find_row(id) {
            None => Err(WebViewError::WebViewNotFound(id)),
            Some(i) => {
                proof {
                    lemma_seq_idx_unique(self.rows@, i as int, id);
                }
                if self.rows[i].1.thread_id != thread_id {
                    Err(WebViewError::WrongThread(id))
                } else {
                    Ok(self.rows[i].1.webview)
                }
            },
        }
    }

    /// Hands out a copy of the navigation state for `id`. State reads need no
    /// thread affinity.
    pub fn get_state(&self, id: u64) -> (r: Result<WebViewState, WebViewError>)
        requires
            self.wf(),
        ensures
            self.contains(id) ==> (r matches Ok(s) && s == self.entry_of(id).state),
            !self.contains(id) ==> (r matches Err(e) && e == WebViewError::WebViewNotFound(id)),
    {
        match self.find_row(id) {
            None => Err(WebViewError::WebViewNotFound(id)),
            Some(i) => {
                proof {
                    lemma_seq_idx_unique(self.rows@, i as int, id);
                }
                Ok(self.rows[i].1.state.snapshot())
            },
        }
    }

    /// Eagerly marks the surface as loading and looks up its token, enforcing
    /// thread affinity. The eager write happens whenever the entry exists,
    /// even when the thread check then fails, because the caller issued a
    /// navigation and a poll of the loading flag right after must see `true`.
    pub fn begin_navigation(&mut self, id: u64, thread_id: u64) -> (r: Result<u64, WebViewError>)
        requires
            old(self).wf(),
        ensures
            final(self).wf(),
            final(self).counter() == old(self).counter(),
            forall|k: u64| final(self).contains(k) <==> old(self).contains(k),
            !old(self).contains(id) ==> (r matches Err(e) && e == WebViewError::WebViewNotFound(id))
                && *final(self) == *old(self),
            old(self).contains(id) ==> final(self).entry_of(id).state.is_loading,
            old(self).contains(id) ==> final(self).entry_of(id).state.current_url == old(
                self,
            ).entry_of(id).state.current_url,
            old(self).contains(id) ==> final(self).entry_of(id).webview == old(self).entry_of(
                id,
            ).webview,
            old(self).contains(id) ==> final(self).entry_of(id).thread_id == old(self).entry_of(
                id,
            ).thread_id,
            agrees_except(*old(self), *final(self), id),
            old(self).contains(id) && old(self).entry_of(id).thread_id == thread_id ==> r == Ok::<
                u64,
                WebViewError,
            >(old(self).entry_of(id).webview),
            old(self).contains(id) && old(self).entry_of(id).thread_id != thread_id ==> (r matches
                Err(e) && e == WebViewError::WrongThread(id)),
    {
        match self.find_row(id) {
            None => Err(WebViewError::WebViewNotFound(id)),
            Some(i) => {
                proof {
                    lemma_seq_idx_unique(old(self).rows@, i as int, id);
                }
                self.rows[i].1.state.is_loading = true;
                proof {
                    lemma_row_update(*old(self), *self, i as int);
                }
                if self.rows[i].1.thread_id != thread_id {
                    Err(WebViewError::WrongThread(id))
                } else {
                    Ok(self.rows[i].1.webview)
                }
            },
        }
    }

    /// Routes a navigation-start event from the engine to the surface's
    /// state: loading becomes true and the target url is recorded. The event
    /// is permitted regardless; an event for a destroyed id is dropped.
    pub fn notify_navigation_start(&mut self, id: u64, url: String) -> (allow: bool)
        requires
            old(self).wf(),
        ensures
            allow,
            final(self).wf(),
            final(self).counter() == old(self).counter(),
            forall|k: u64| final(self).contains(k) <==> old(self).contains(k),
            agrees_except(*old(self), *final(self), id),
            !old(self).contains(id) ==> *final(self) == *old(self),
            old(self).contains(id) ==> final(self).entry_of(id).state.is_loading,
            old(self).contains(id) ==> final(self).entry_of(id).state.current_url == url,
            old(self).contains(id) ==> final(self).entry_of(id).webview == old(self).entry_of(
                id,
            ).webview,
            old(self).contains(id) ==> final(self).entry_of(id).thread_id == old(self).entry_of(
                id,
            ).thread_id,
    {
        match self.find_row(id) {
            None => true,
            Some(i) => {
                proof {
                    lemma_seq_idx_unique(old(self).rows@, i as int, id);
                }
                let allow = self.rows[i].1.state.on_navigation_start(url);
                proof {
                    lemma_row_update(*old(self), *self, i as int);
                }
                allow
            },
        }
    }

    /// Routes a page-load event from the engine to the surface's state. An
    /// event for a destroyed id is dropped.
    pub fn notify_page_load(&mut self, id: u64, event: PageLoadEvent, url: String)
        requires
            old(self).wf(),
        ensures
            final(self).wf(),
            page_load_post(*old(self), *final(self), id, event, url),
    {
        match self.find_row(id) {
            None => (),
            Some(i) => {
                proof {
                    lemma_seq_idx_unique(old(self).rows@, i as int, id);
                }
                self.rows[i].1.state.on_page_load(event, url);
                proof {
                    lemma_row_update(*old(self), *self, i as int);
                }
            },
        }
    }

    /// Removes the entry for `id` and hands its surface token back for
    /// release — exactly once, since the entry is gone afterwards. Removing
    /// an absent id succeeds as a no-op: the host may issue cleanup calls
    /// defensively. A live entry is only removed on its owning thread.
    pub fn unregister(&mut self, id: u64, thread_id: u64) -> (r: Result<
        Option<u64>,
        WebViewError,
    >)
        requires
            old(self).wf(),
        ensures
            final(self).wf(),
            unregister_post(*old(self), *final(self), id, thread_id, r),
    {
        match self.find_row(id) {
            None => Ok(None),
            Some(i) => {
                proof {
                    lemma_seq_idx_unique(old(self).rows@, i as int, id);
                }
                if self.rows[i].1.thread_id != thread_id {
                    Err(WebViewError::WrongThread(id))
                } else {
                    let row = self.rows.remove(i);
                    proof {
                        lemma_row_remove(*old(self), *self, i as int);
                    }
                    Ok(Some(row.1.webview))
                }
            },
        }
    }
}

/// What allocating an id does to the counter: the id is the old counter and
/// the counter advances by one.
pub open spec fn registered(pre: Registry, post: Registry, id: u64) -> bool {
    &&& id == pre.counter()
    &&& post.counter() == pre.counter() + 1
}

/// The two registries agree on every id but `id`.
pub open spec fn agrees_except(pre: Registry, post: Registry, id: u64) -> bool {
    &&& forall|k: u64| k != id ==> (post.contains(k) <==> pre.contains(k))
    &&& forall|k: u64| k != id && pre.contains(k) ==> post.entry_of(k) == pre.entry_of(k)
}

/// Everything `unregister` promises: a no-op on an absent id, a thread-check
/// failure on a foreign thread, and otherwise removal with the surface token
/// handed back for release.
pub open spec fn unregister_post(
    pre: Registry,
    post: Registry,
    id: u64,
    thread_id: u64,
    r: Result<Option<u64>, WebViewError>,
) -> bool {
    &&& post.counter() == pre.counter()
    &&& !pre.contains(id) ==> r == Ok::<Option<u64>, WebViewError>(None) && post == pre
    &&& pre.contains(id) && pre.entry_of(id).thread_id != thread_id ==> r == Err::<
        Option<u64>,
        WebViewError,
    >(WebViewError::WrongThread(id)) && post == pre
    &&& pre.contains(id) && pre.entry_of(id).thread_id == thread_id ==> r == Ok::<
        Option<u64>,
        WebViewError,
    >(Some(pre.entry_of(id).webview)) && !post.contains(id) && agrees_except(pre, post, id)
}

/// Everything a page-load event does to the registry: only the state of the
/// surface it names changes, and how it changes depends on the phase.
pub open spec fn page_load_post(
    pre: Registry,
    post: Registry,
    id: u64,
    event: PageLoadEvent,
    url: String,
) -> bool {
    &&& post.counter() == pre.counter()
    &&& (forall|k: u64| post.contains(k) <==> pre.contains(k))
    &&& agrees_except(pre, post, id)
    &&& !pre.contains(id) ==> post == pre
    &&& pre.contains(id) ==> (post.entry_of(id).webview == pre.entry_of(id).webview
        && post.entry_of(id).thread_id == pre.entry_of(id).thread_id)
    &&& pre.contains(id) && event is Started ==> (post.entry_of(id).state.is_loading
        && post.entry_of(id).state.current_url == pre.entry_of(id).state.current_url)
    &&& pre.contains(id) && event is Finished ==> (!post.entry_of(id).state.is_loading
        && post.entry_of(id).state.current_url == url)
}

/// Replacing one row's entry, keeping its id, preserves validity, keeps the
/// same set of live ids, and leaves every other entry as it was.
proof fn lemma_row_update(pre: Registry, post: Registry, i: int)
    requires
        pre.wf(),
        0 <= i < pre.rows@.len(),
        post.next == pre.next,
        post.rows@ == pre.rows@.update(i, post.rows@[i]),
        post.rows@[i].0 == pre.rows@[i].0,
    ensures
        post.wf(),
        forall|k: u64| post.contains(k) <==> pre.contains(k),
        post.contains(pre.rows@[i].0),
        post.entry_of(pre.rows@[i].0) == post.rows@[i].1,
        pre.entry_of(pre.rows@[i].0) == pre.rows@[i].1,
        agrees_except(pre, post, pre.rows@[i].0),
{
    let id0 = pre.rows@[i].0;
    assert(post.rows@.len() == pre.rows@.len());
    assert forall|j: int| 0 <= j < post.rows@.len() && j != i implies post.rows@[j]
        == pre.rows@[j] by {}
    assert forall|p: int, q: int|
        0 <= p < post.rows@.len() && 0 <= q < post.rows@.len() && p != q implies (
    #[trigger] post.rows@[p]).0 != (#[trigger] post.rows@[q]).0 by {
        assert(post.rows@[p].0 == pre.rows@[p].0);
        assert(post.rows@[q].0 == pre.rows@[q].0);
    }
    assert forall|j: int| 0 <= j < post.rows@.len() implies 1 <= (#[trigger] post.rows@[j]).0
        < post.next by {
        assert(post.rows@[j].0 == pre.rows@[j].0);
    }
    assert forall|k: u64| post.contains(k) <==> pre.contains(k) by {
        if seq_has_id(post.rows@, k) {
            let j = seq_idx_of(post.rows@, k);
            assert(pre.rows@[j].0 == k);
            assert(seq_has_id(pre.rows@, k));
        }
        if seq_has_id(pre.rows@, k) {
            let j = seq_idx_of(pre.rows@, k);
            assert(post.rows@[j].0 == k);
            assert(seq_has_id(post.rows@, k));
        }
    }
    lemma_seq_idx_unique(post.rows@, i, id0);
    lemma_seq_idx_unique(pre.rows@, i, id0);
    assert forall|k: u64| k != id0 && pre.contains(k) implies post.entry_of(k) == pre.entry_of(
        k,
    ) by {
        let j = seq_idx_of(pre.rows@, k);
        assert(0 <= j < pre.rows@.len() && pre.rows@[j].0 == k);
        assert(j != i);
        assert(post.rows@[j] == pre.rows@[j]);
        lemma_seq_idx_unique(post.rows@, j, k);
        lemma_seq_idx_unique(pre.rows@, j, k);
    }
}

/// Removing one row drops exactly its id: validity is preserved, every other
/// id stays live with its entry untouched.
proof fn lemma_row_remove(pre: Registry, post: Registry, i: int)
    requires
        pre.wf(),
        0 <= i < pre.rows@.len(),
        post.next == pre.next,
        post.rows@ == pre.rows@.remove(i),
    ensures
        post.wf(),
        !post.contains(pre.rows@[i].0),
        agrees_except(pre, post, pre.rows@[i].0),
        forall|k: u64| k != pre.rows@[i].0 ==> (post.contains(k) <==> pre.contains(k)),
{
    let id0 = pre.rows@[i].0;
    assert(post.rows@.len() == pre.rows@.len() - 1);
    assert forall|j: int| 0 <= j < post.rows@.len() implies post.rows@[j] == (if j < i {
        pre.rows@[j]
    } else {
        pre.rows@[j + 1]
    }) by {}
    assert forall|j: int| 0 <= j < post.rows@.len() implies 1 <= (#[trigger] post.rows@[j]).0
        < post.next by {
        if j < i {
            assert(post.rows@[j] == pre.rows@[j]);
        } else {
            assert(post.rows@[j] == pre.rows@[j + 1]);
        }
    }
    assert forall|p: int, q: int|
        0 <= p < post.rows@.len() && 0 <= q < post.rows@.len() && p != q implies (
    #[trigger] post.rows@[p]).0 != (#[trigger] post.rows@[q]).0 by {
        let p0 = if p < i { p } else { p + 1 };
        let q0 = if q < i { q } else { q + 1 };
        assert(post.rows@[p] == pre.rows@[p0]);
        assert(post.rows@[q] == pre.rows@[q0]);
    }
    if seq_has_id(post.rows@, id0) {
        let j = seq_idx_of(post.rows@, id0);
        let j0 = if j < i { j } else { j + 1 };
        assert(post.rows@[j] == pre.rows@[j0]);
        assert(pre.rows@[j0].0 == pre.rows@[i].0);
        assert(j0 != i);
        assert(false);
    }
    assert forall|k: u64| k != id0 implies (post.contains(k) <==> pre.contains(k)) by {
        if seq_has_id(post.rows@, k) {
            let j = seq_idx_of(post.rows@, k);
            let j0 = if j < i { j } else { j + 1 };
            assert(pre.rows@[j0] == post.rows@[j]);
            assert(seq_has_id(pre.rows@, k));
        }
        if seq_has_id(pre.rows@, k) {
            let j = seq_idx_of(pre.rows@, k);
            assert(0 <= j < pre.rows@.len() && pre.rows@[j].0 == k);
            assert(j != i);
            let jn = if j < i { j } else { j - 1 };
            assert(post.rows@[jn] == pre.rows@[j]);
            assert(seq_has_id(post.rows@, k));
        }
    }
    assert forall|k: u64| k != id0 && pre.contains(k) implies post.entry_of(k) == pre.entry_of(
        k,
    ) by {
        let j = seq_idx_of(pre.rows@, k);
        assert(0 <= j < pre.rows@.len() && pre.rows@[j].0 == k);
        assert(j != i);
        let jn = if j < i { j } else { j - 1 };
        assert(post.rows@[jn] == pre.rows@[j]);
        lemma_seq_idx_unique(post.rows@, jn, k);
        lemma_seq_idx_unique(pre.rows@, j, k);
    }
}

/// Executes a caller-supplied action on the surface token for `id`, after the
/// lookup and thread-affinity checks. The registry itself is not borrowed
/// while the action runs.
pub fn with_webview<R, F: FnOnce(u64) -> Result<R, WebViewError>>(
    reg: &Registry,
    id: u64,
    thread_id: u64,
    f: F,
) -> (r: Result<R, WebViewError>)
    requires
        reg.wf(),
        forall|wv: u64| call_requires(f, (wv,)),
    ensures
        !reg.contains(id) ==> (r matches Err(e) && e == WebViewError::WebViewNotFound(id)),
        reg.contains(id) && reg.entry_of(id).thread_id != thread_id ==> (r matches Err(e) && e
            == WebViewError::WrongThread(id)),
        reg.contains(id) && reg.entry_of(id).thread_id == thread_id ==> call_ensures(
            f,
            (reg.entry_of(id).webview,),
            r,
        ),
{
    match reg.lookup_webview(id, thread_id) {
        Ok(webview) => f(webview),
        Err(e) => Err(e),
    }
}

/// Ids handed out by registrations are strictly increasing and never repeat:
/// a registration returns the counter and advances it, no operation ever
/// lowers the counter, so a later registration — with any number of lookups,
/// navigations and destructions in between — returns a strictly larger id.
pub proof fn lemma_ids_strictly_increase(
    a: Registry,
    b: Registry,
    c: Registry,
    d: Registry,
    id1: u64,
    id2: u64,
)
    requires
        registered(a, b, id1),
        b.counter() <= c.counter(),
        registered(c, d, id2),
    ensures
        id2 > id1,
{
}

/// An id the counter never reached — in particular 0, or any id after every
/// issued one — has no live entry, so every operation on it reports that the
/// surface was not found.
pub proof fn lemma_unissued_id_absent(reg: Registry, id: u64)
    requires
        reg.wf(),
        id == 0 || id >= reg.counter(),
    ensures
        !reg.contains(id),
{
    if seq_has_id(reg.rows@, id) {
        let j = seq_idx_of(reg.rows@, id);
        assert(1 <= reg.rows@[j].0 < reg.counter());
        assert(false);
    }
}

/// Destroying twice is harmless: once a removal succeeded, the id is absent,
/// so a second removal — from any thread — succeeds as a no-op and changes
/// nothing.
pub proof fn lemma_destroy_idempotent(
    a: Registry,
    b: Registry,
    c: Registry,
    id: u64,
    t1: u64,
    t2: u64,
    r1: Result<Option<u64>, WebViewError>,
    r2: Result<Option<u64>, WebViewError>,
)
    requires
        unregister_post(a, b, id, t1, r1),
        r1 is Ok,
        unregister_post(b, c, id, t2, r2),
    ensures
        r2 == Ok::<Option<u64>, WebViewError>(None),
        c == b,
{
    if a.contains(id) && a.entry_of(id).thread_id != t1 {
        assert(false);
    }
}

/// A page-load "finished" event for url `u` on a live surface leaves the
/// registry reporting exactly `u` as the current url and no loading — the
/// values `get_url` and `is_loading` then return.
pub proof fn lemma_finished_load_observed(pre: Registry, post: Registry, id: u64, url: String)
    requires
        pre.contains(id),
        page_load_post(pre, post, id, PageLoadEvent::Finished, url),
    ensures
        post.contains(id),
        post.entry_of(id).state.current_url == url,
        !post.entry_of(id).state.is_loading,
{
}

} // verus!
