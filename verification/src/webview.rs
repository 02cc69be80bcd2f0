//! The session controller: the top-level state machine that receives
//! commands, drives the engine, keeps the view registry consistent with it,
//! schedules repaints, and computes which notifications the host receives.
//!
//! Commands naming a view that is no longer live are silent no-ops: a view
//! can legitimately be closed between the time a command was queued and the
//! time it is processed. Closing the current view leaves no view current.
use vstd::prelude::*;

use crate::engines::{BackendView, CursorKind, Engine, PageType, ViewportSize};
use crate::input::{
    translate_key, translate_mouse, EngineMouseButton, EngineMouseEvent, KeyEvent, MouseEvent,
    MouseEventType, PointerOutcome, ScrollDelta, scroll_pixels, spec_translate_key,
    spec_translate_mouse, text_view,
};
use crate::registry::{
    contains_id, index_of_id, registry_wf, with_cursor, with_frame, with_repaint, EntryData,
    RegistryData, ViewId, ViewRegistry,
};
use crate::{placeholder_pixels, ImageData, ImageInfo};

verus! {

/// The command vocabulary the host drives a session with.
#[derive(Debug, PartialEq)]
pub enum Action {
    /// Create a view, optionally loading content into it right away.
    CreateView(Option<PageType>),
    /// Close the view; the second close of an id is a no-op.
    CloseView(ViewId),
    /// Select which view commands on "the current view" address.
    ChangeCurrentView(ViewId),
    /// Begin loading new content in the view.
    Navigate(ViewId, PageType),
    /// Reload the view's current content.
    Reload(ViewId),
    /// Move back in the view's history.
    GoBack(ViewId),
    /// Move forward in the view's history.
    GoForward(ViewId),
    /// Deliver a host keyboard event to the view.
    KeyInput(ViewId, KeyEvent),
    /// Deliver a host pointer event to the view.
    PointerInput(ViewId, MouseEvent),
    /// Deliver a host scroll to the view.
    ScrollInput(ViewId, ScrollDelta),
    /// Apply a new global rendering size.
    Resize(ViewportSize),
    /// Advance the engine, refresh every view's frame and metadata, and
    /// emit change notifications.
    Tick,
    /// Repaint the view now, bypassing the loading and dirty gates.
    ForceRepaint(ViewId),
}

/// A host-visible notification; the session emits only the classes the host
/// subscribed to at construction time.
#[derive(Debug, PartialEq)]
pub enum Notification {
    ViewCreated(ViewId),
    ViewClosed(ViewId),
    UrlChanged(ViewId, String),
    TitleChanged(ViewId, String),
}

/// Abstract value of a [`Notification`].
#[verifier::ext_equal]
pub ghost enum NoteData {
    Created(ViewId),
    Closed(ViewId),
    Url(ViewId, Seq<char>),
    Title(ViewId, Seq<char>),
}

impl View for Notification {
    type V = NoteData;

    open spec fn view(&self) -> NoteData {
        match self {
            Notification::ViewCreated(id) => NoteData::Created(*id),
            Notification::ViewClosed(id) => NoteData::Closed(*id),
            Notification::UrlChanged(id, u) => NoteData::Url(*id, u@),
            Notification::TitleChanged(id, t) => NoteData::Title(*id, t@),
        }
    }
}

/// The abstract values of a batch of notifications, in order.
pub open spec fn note_views(s: Seq<Notification>) -> Seq<NoteData> {
    s.map_values(|n: Notification| n@)
}

/// Failure of a command; only view creation can fail.
#[derive(Clone, Copy, Debug, Eq, PartialEq, Structural)]
pub enum UpdateError {
    /// The backend refused to allocate the view, or the id space is
    /// exhausted.
    CreateFailed,
}

/// Abstract value of a whole session: the registry part, the global
/// viewport, the engine's views, and which notification classes the host
/// subscribed to.
#[verifier::ext_equal]
pub ghost struct SessionData {
    pub views: Seq<EntryData>,
    pub next_id: u64,
    pub current: Option<ViewId>,
    pub viewport: ViewportSize,
    pub eng: Map<u64, BackendView>,
    pub notify_create: bool,
    pub notify_close: bool,
    pub notify_url: bool,
    pub notify_title: bool,
}

/// The registry part of a session's abstract value.
pub open spec fn reg_of(d: SessionData) -> RegistryData {
    RegistryData { entries: d.views, next_id: d.next_id, current: d.current }
}

/// The session invariant: the registry is well-formed, every registered
/// handle is live in the engine, and no two views share a handle — so the
/// session never hands the engine a stale handle.
pub open spec fn session_wf(d: SessionData) -> bool {
    &&& registry_wf(reg_of(d))
    &&& forall|i: int|
        0 <= i < d.views.len() ==> d.eng.dom().contains((#[trigger] d.views[i]).handle)
    &&& forall|i: int, j: int|
        0 <= i < j < d.views.len() ==> (#[trigger] d.views[i]).handle != (
        #[trigger] d.views[j]).handle
}

/// Handle discipline survives replacing records without touching their
/// handles, as long as the engine's handle set stays the same.
proof fn lemma_wf_same_handles(pre: SessionData, post: SessionData)
    requires
        session_wf(pre),
        registry_wf(reg_of(post)),
        post.views.len() == pre.views.len(),
        forall|k: int|
            0 <= k < pre.views.len() ==> (#[trigger] post.views[k]).handle == (
            #[trigger] pre.views[k]).handle,
        post.eng.dom() == pre.eng.dom(),
    ensures
        session_wf(post),
{
    assert forall|i: int| 0 <= i < post.views.len() implies post.eng.dom().contains(
        (#[trigger] post.views[i]).handle,
    ) by {
        assert(post.views[i].handle == pre.views[i].handle);
    }
    assert forall|i: int, j: int| 0 <= i < j < post.views.len() implies (
    #[trigger] post.views[i]).handle != (#[trigger] post.views[j]).handle by {
        assert(post.views[i].handle == pre.views[i].handle);
        assert(post.views[j].handle == pre.views[j].handle);
    }
}

/// Handle discipline survives appending a record with a handle the engine
/// just created fresh.
proof fn lemma_wf_push(pre: SessionData, post: SessionData, h: u64)
    requires
        session_wf(pre),
        registry_wf(reg_of(post)),
        !pre.eng.dom().contains(h),
        post.views.len() == pre.views.len() + 1,
        forall|k: int| 0 <= k < pre.views.len() ==> #[trigger] post.views[k] == pre.views[k],
        post.views[pre.views.len() as int].handle == h,
        post.eng.dom() == pre.eng.dom().insert(h),
    ensures
        session_wf(post),
{
    assert forall|i: int| 0 <= i < post.views.len() implies post.eng.dom().contains(
        (#[trigger] post.views[i]).handle,
    ) by {
        if i < pre.views.len() {
            assert(post.views[i] == pre.views[i]);
        }
    }
    assert forall|i: int, j: int| 0 <= i < j < post.views.len() implies (
    #[trigger] post.views[i]).handle != (#[trigger] post.views[j]).handle by {
        if j < pre.views.len() {
            assert(post.views[i] == pre.views[i]);
            assert(post.views[j] == pre.views[j]);
        } else {
            assert(post.views[i] == pre.views[i]);
            assert(pre.eng.dom().contains(pre.views[i].handle));
        }
    }
}

/// Handle discipline survives removing one record together with its engine
/// view.
proof fn lemma_wf_remove(pre: SessionData, post: SessionData, idx: int)
    requires
        session_wf(pre),
        registry_wf(reg_of(post)),
        0 <= idx < pre.views.len(),
        post.views == pre.views.remove(idx),
        post.eng.dom() == pre.eng.dom().remove(pre.views[idx].handle),
    ensures
        session_wf(post),
{
    let h = pre.views[idx].handle;
    pre.views.remove_ensures(idx);
    assert forall|i: int| 0 <= i < post.views.len() implies post.eng.dom().contains(
        (#[trigger] post.views[i]).handle,
    ) by {
        let i0 = if i < idx {
            i
        } else {
            i + 1
        };
        assert(post.views[i] == pre.views[i0]);
        assert(pre.eng.dom().contains(pre.views[i0].handle));
        assert(pre.views[i0].handle != h);
    }
    assert forall|i: int, j: int| 0 <= i < j < post.views.len() implies (
    #[trigger] post.views[i]).handle != (#[trigger] post.views[j]).handle by {
        let i0 = if i < idx {
            i
        } else {
            i + 1
        };
        let j0 = if j < idx {
            j
        } else {
            j + 1
        };
        assert(post.views[i] == pre.views[i0]);
        assert(post.views[j] == pre.views[j0]);
        assert(pre.views[i0].handle != pre.views[j0].handle);
    }
}

/// The host-facing configuration a command never changes.
pub open spec fn same_host_config(pre: SessionData, post: SessionData) -> bool {
    &&& post.viewport == pre.viewport
    &&& post.notify_create == pre.notify_create
    &&& post.notify_close == pre.notify_close
    &&& post.notify_url == pre.notify_url
    &&& post.notify_title == pre.notify_title
}

/// The record a freshly created view starts with: a placeholder frame sized
/// to the viewport, empty cached metadata, and the repaint flag set.
pub open spec fn fresh_entry(id: ViewId, handle: u64, viewport: ViewportSize) -> EntryData {
    EntryData {
        id,
        handle,
        frame: placeholder_data(viewport),
        url: Seq::empty(),
        title: Seq::empty(),
        loading: false,
        needs_repaint: true,
        cursor_x: 0,
        cursor_y: 0,
    }
}

/// The placeholder frame for the given viewport, as an abstract value.
pub open spec fn placeholder_data(viewport: ViewportSize) -> ImageData {
    ImageData {
        pixels: placeholder_pixels(viewport.spec_width(), viewport.spec_height()),
        width: viewport.spec_width(),
        height: viewport.spec_height(),
    }
}

/// The shape of a successful view creation with handle `h` and id `id`.
pub open spec fn create_shape(
    pre: SessionData,
    post: SessionData,
    notes: Seq<NoteData>,
    h: u64,
    id: ViewId,
) -> bool {
    &&& !pre.eng.dom().contains(h)
    &&& post.eng.dom() == pre.eng.dom().insert(h)
    &&& forall|h2: u64|
        pre.eng.dom().contains(h2) && h2 != h ==> post.eng[h2] == #[trigger] pre.eng[h2]
    &&& id.num() == pre.next_id
    &&& !contains_id(pre.views, id)
    &&& post.views == pre.views.push(fresh_entry(id, h, pre.viewport))
    &&& post.next_id == pre.next_id + 1
    &&& post.current == pre.current
    &&& same_host_config(pre, post)
    &&& notes == if pre.notify_create {
        seq![NoteData::Created(id)]
    } else {
        Seq::<NoteData>::empty()
    }
}

/// A successful view creation: some fresh handle and fresh id, a new record
/// with a placeholder frame, and a creation notification exactly when the
/// host subscribed to it.
pub open spec fn create_effect(pre: SessionData, post: SessionData, notes: Seq<NoteData>) -> bool {
    exists|h: u64, id: ViewId| create_shape(pre, post, notes, h, id)
}

/// Closing a view: the record leaves the registry first, then the engine
/// view is destroyed; the id never answers again; closing the current view
/// leaves none current; the notification carries the identity. A stale id
/// changes nothing and emits nothing.
pub open spec fn close_effect(
    pre: SessionData,
    post: SessionData,
    notes: Seq<NoteData>,
    id: ViewId,
) -> bool {
    if contains_id(pre.views, id) {
        let idx = index_of_id(pre.views, id);
        let h = pre.views[idx].handle;
        &&& post.views == pre.views.remove(idx)
        &&& !contains_id(post.views, id)
        &&& post.eng == pre.eng.remove(h)
        &&& post.next_id == pre.next_id
        &&& post.current == (if pre.current == Some(id) {
            None::<ViewId>
        } else {
            pre.current
        })
        &&& same_host_config(pre, post)
        &&& notes == if pre.notify_close {
            seq![NoteData::Closed(id)]
        } else {
            Seq::<NoteData>::empty()
        }
    } else {
        post == pre && notes == Seq::<NoteData>::empty()
    }
}

/// Selecting the current view; a stale id changes nothing.
pub open spec fn change_current_effect(pre: SessionData, post: SessionData, id: ViewId) -> bool {
    if contains_id(pre.views, id) {
        post == (SessionData { current: Some(id), ..pre })
    } else {
        post == pre
    }
}

/// A command that only marks the view dirty and leaves the engine's
/// abstract state unchanged.
pub open spec fn marks_repaint(pre: SessionData, post: SessionData, id: ViewId) -> bool {
    &&& post == (SessionData {
        views: pre.views.update(
            index_of_id(pre.views, id),
            with_repaint(pre.views[index_of_id(pre.views, id)], true),
        ),
        ..pre
    })
}

/// Navigation: the engine begins loading and reports the view as loading;
/// the view is marked dirty. A stale id changes nothing.
pub open spec fn navigate_effect(pre: SessionData, post: SessionData, id: ViewId) -> bool {
    if contains_id(pre.views, id) {
        let idx = index_of_id(pre.views, id);
        let h = pre.views[idx].handle;
        &&& post.views == pre.views.update(idx, with_repaint(pre.views[idx], true))
        &&& post.eng.dom() == pre.eng.dom()
        &&& forall|h2: u64|
            pre.eng.dom().contains(h2) && h2 != h ==> post.eng[h2] == #[trigger] pre.eng[h2]
        &&& post.eng[h].loading
        &&& post.next_id == pre.next_id
        &&& post.current == pre.current
        &&& same_host_config(pre, post)
    } else {
        post == pre
    }
}

/// History moves and reloads: the engine queues the work (its abstract
/// state is unchanged until it is pumped) and the view is marked dirty. A
/// stale id changes nothing.
pub open spec fn history_effect(pre: SessionData, post: SessionData, id: ViewId) -> bool {
    if contains_id(pre.views, id) {
        marks_repaint(pre, post, id)
    } else {
        post == pre
    }
}

/// Keyboard input: a key with a table entry is delivered and marks the view
/// dirty; an unmapped key is dropped without error. A stale id changes
/// nothing.
pub open spec fn key_input_effect(
    pre: SessionData,
    post: SessionData,
    id: ViewId,
    ev: KeyEvent,
) -> bool {
    if contains_id(pre.views, id) {
        if spec_translate_key(ev.press, ev.key, ev.modifiers, text_view(ev.text)) is Some {
            marks_repaint(pre, post, id)
        } else {
            post == pre
        }
    } else {
        post == pre
    }
}

/// Pointer input, by the translated outcome: delivered events, history
/// moves and scrolls mark the view dirty; motion only updates the tracked
/// position; focus changes and unmapped events change nothing. A stale id
/// changes nothing.
pub open spec fn pointer_input_effect(
    pre: SessionData,
    post: SessionData,
    id: ViewId,
    ev: MouseEvent,
) -> bool {
    if contains_id(pre.views, id) {
        match spec_translate_mouse(ev) {
            PointerOutcome::Deliver(_) => marks_repaint(pre, post, id),
            PointerOutcome::HistoryForward => marks_repaint(pre, post, id),
            PointerOutcome::HistoryBack => marks_repaint(pre, post, id),
            PointerOutcome::ScrollBy(_, _) => marks_repaint(pre, post, id),
            PointerOutcome::TrackPosition(x, y) => post == (SessionData {
                views: pre.views.update(
                    index_of_id(pre.views, id),
                    with_cursor(pre.views[index_of_id(pre.views, id)], x, y),
                ),
                ..pre
            }),
            PointerOutcome::Focus => post == pre,
            PointerOutcome::Unfocus => post == pre,
            PointerOutcome::Ignore => post == pre,
        }
    } else {
        post == pre
    }
}

/// Scroll input: delivered after scaling, marking the view dirty. A stale
/// id changes nothing.
pub open spec fn scroll_input_effect(pre: SessionData, post: SessionData, id: ViewId) -> bool {
    if contains_id(pre.views, id) {
        marks_repaint(pre, post, id)
    } else {
        post == pre
    }
}

/// A global resize: the viewport changes, every view is marked dirty, and
/// the engine's abstract state is unchanged until repaints happen.
pub open spec fn resize_effect(pre: SessionData, post: SessionData, viewport: ViewportSize) -> bool {
    &&& post.viewport == viewport
    &&& post.eng == pre.eng
    &&& post.views.len() == pre.views.len()
    &&& forall|k: int|
        0 <= k < pre.views.len() ==> post.views[k] == with_repaint(#[trigger] pre.views[k], true)
    &&& post.next_id == pre.next_id
    &&& post.current == pre.current
    &&& post.notify_create == pre.notify_create
    &&& post.notify_close == pre.notify_close
    &&& post.notify_url == pre.notify_url
    &&& post.notify_title == pre.notify_title
}

/// A forced repaint bypasses the loading and dirty gates: the engine is
/// asked to paint unconditionally. Either it had nothing to offer and the
/// view is untouched, or its pixels replace the view's frame and the dirty
/// flag clears. A stale id changes nothing.
pub open spec fn force_repaint_effect(pre: SessionData, post: SessionData, id: ViewId) -> bool {
    if contains_id(pre.views, id) {
        let idx = index_of_id(pre.views, id);
        let h = pre.views[idx].handle;
        &&& post.eng.dom() == pre.eng.dom()
        &&& forall|h2: u64|
            pre.eng.dom().contains(h2) && h2 != h ==> post.eng[h2] == #[trigger] pre.eng[h2]
        &&& post.eng[h] == (BackendView { frame_ready: post.eng[h].frame_ready, ..pre.eng[h] })
        &&& (post.views == pre.views || post.views == pre.views.update(
            idx,
            with_repaint(with_frame(pre.views[idx], pre.eng[h].frame), false),
        ))
        &&& post.next_id == pre.next_id
        &&& post.current == pre.current
        &&& same_host_config(pre, post)
    } else {
        post == pre
    }
}

/// What one tick does to one view, judged against the engine state after
/// the tick: the cached metadata equals the engine's; a loading view shows
/// the placeholder, never a stale frame; a view that is not loading either
/// keeps its previous frame and dirty flag untouched, or takes the engine's
/// pixels and comes out clean.
pub open spec fn tick_view_effect(
    e: EntryData,
    e2: EntryData,
    eng: Map<u64, BackendView>,
    viewport: ViewportSize,
) -> bool {
    let b = eng[e.handle];
    &&& e2.id == e.id
    &&& e2.handle == e.handle
    &&& e2.cursor_x == e.cursor_x
    &&& e2.cursor_y == e.cursor_y
    &&& e2.url == b.url
    &&& e2.title == b.title
    &&& e2.loading == b.loading
    &&& if b.loading {
        e2.frame == placeholder_data(viewport) && e2.needs_repaint == e.needs_repaint
    } else {
        (e2.frame == e.frame && e2.needs_repaint == e.needs_repaint) || (e2.frame == b.frame
            && !e2.needs_repaint)
    }
}

/// The notifications of one view's metadata diff: a url notification
/// exactly when the host subscribed and the engine's url differs from the
/// cache, then likewise for the title, each carrying the new value.
pub open spec fn view_notes(
    e: EntryData,
    eng: Map<u64, BackendView>,
    url_mask: bool,
    title_mask: bool,
) -> Seq<NoteData> {
    let b = eng[e.handle];
    let u: Seq<NoteData> = if url_mask && b.url != e.url {
        seq![NoteData::Url(e.id, b.url)]
    } else {
        Seq::<NoteData>::empty()
    };
    let t: Seq<NoteData> = if title_mask && b.title != e.title {
        seq![NoteData::Title(e.id, b.title)]
    } else {
        Seq::<NoteData>::empty()
    };
    u + t
}

/// The notifications of one tick over the first `i` views, in registration
/// order.
pub open spec fn tick_notes_prefix(
    entries: Seq<EntryData>,
    eng: Map<u64, BackendView>,
    url_mask: bool,
    title_mask: bool,
    i: int,
) -> Seq<NoteData>
    decreases i,
{
    if i <= 0 {
        Seq::<NoteData>::empty()
    } else {
        tick_notes_prefix(entries, eng, url_mask, title_mask, i - 1) + view_notes(
            entries[i - 1],
            eng,
            url_mask,
            title_mask,
        )
    }
}

/// The notifications of one tick: per view in order, a url and then a title
/// notification for each cached value the engine's differs from, in the
/// subscribed classes only.
pub open spec fn tick_notes(
    entries: Seq<EntryData>,
    eng: Map<u64, BackendView>,
    url_mask: bool,
    title_mask: bool,
) -> Seq<NoteData> {
    tick_notes_prefix(entries, eng, url_mask, title_mask, entries.len() as int)
}

/// One tick: the engine is pumped once (no view appears or disappears),
/// each view is refreshed as [`tick_view_effect`] says, and the
/// notifications are exactly the metadata diffs of [`tick_notes`].
pub open spec fn tick_effect(pre: SessionData, post: SessionData, notes: Seq<NoteData>) -> bool {
    &&& post.eng.dom() == pre.eng.dom()
    &&& post.views.len() == pre.views.len()
    &&& forall|k: int|
        0 <= k < pre.views.len() ==> tick_view_effect(
            #[trigger] pre.views[k],
            post.views[k],
            post.eng,
            pre.viewport,
        )
    &&& post.next_id == pre.next_id
    &&& post.current == pre.current
    &&& same_host_config(pre, post)
    &&& notes == tick_notes(pre.views, post.eng, pre.notify_url, pre.notify_title)
}

/// The multi-view session controller. It owns the engine and the registry;
/// nothing else ever mutates a view.
pub struct WebView<E: Engine> {
    engine: E,
    registry: ViewRegistry,
    viewport: ViewportSize,
    notify_create: bool,
    notify_close: bool,
    notify_url: bool,
    notify_title: bool,
}

impl<E: Engine> WebView<E> {
    /// The abstract value of the session.
    pub closed spec fn model(&self) -> SessionData {
        SessionData {
            views: self.registry@.entries,
            next_id: self.registry@.next_id,
            current: self.registry@.current,
            viewport: self.viewport,
            eng: self.engine.views(),
            notify_create: self.notify_create,
            notify_close: self.notify_close,
            notify_url: self.notify_url,
            notify_title: self.notify_title,
        }
    }

    /// The session invariant; see [`session_wf`].
    pub open spec fn wf(&self) -> bool {
        session_wf(self.model())
    }

    /// A session around `engine`, rendering at `viewport`, with no views
    /// and no subscriptions.
    pub fn new(engine: E, viewport: ViewportSize) -> (r: WebView<E>)
        ensures
            r.wf(),
            r.model() == (SessionData {
                views: Seq::<EntryData>::empty(),
                next_id: 0,
                current: None::<ViewId>,
                viewport,
                eng: engine.views(),
                notify_create: false,
                notify_close: false,
                notify_url: false,
                notify_title: false,
            }),
    {
        let r = WebView {
            engine,
            registry: ViewRegistry::new(),
            viewport,
            notify_create: false,
            notify_close: false,
            notify_url: false,
            notify_title: false,
        };
        proof {
            assert(r.model() =~= (SessionData {
                views: Seq::<EntryData>::empty(),
                next_id: 0,
                current: None::<ViewId>,
                viewport,
                eng: engine.views(),
                notify_create: false,
                notify_close: false,
                notify_url: false,
                notify_title: false,
            }));
        }
        r
    }

    /// Subscribes to view-created notifications.
    pub fn on_create_view(self) -> (r: WebView<E>)
        ensures
            r.model() == (SessionData { notify_create: true, ..self.model() }),
            self.wf() ==> r.wf(),
    {
        let ghost pre = self.model();
        let mut s = self;
        s.notify_create = true;
        proof {
            assert(s.model() =~= (SessionData { notify_create: true, ..pre }));
        }
        s
    }

    /// Subscribes to view-closed notifications.
    pub fn on_close_view(self) -> (r: WebView<E>)
        ensures
            r.model() == (SessionData { notify_close: true, ..self.model() }),
            self.wf() ==> r.wf(),
    {
        let ghost pre = self.model();
        let mut s = self;
        s.notify_close = true;
        proof {
            assert(s.model() =~= (SessionData { notify_close: true, ..pre }));
        }
        s
    }

    /// Subscribes to url-changed notifications.
    pub fn on_url_change(self) -> (r: WebView<E>)
        ensures
            r.model() == (SessionData { notify_url: true, ..self.model() }),
            self.wf() ==> r.wf(),
    {
        let ghost pre = self.model();
        let mut s = self;
        s.notify_url = true;
        proof {
            assert(s.model() =~= (SessionData { notify_url: true, ..pre }));
        }
        s
    }

    /// Subscribes to title-changed notifications.
    pub fn on_title_change(self) -> (r: WebView<E>)
        ensures
            r.model() == (SessionData { notify_title: true, ..self.model() }),
            self.wf() ==> r.wf(),
    {
        let ghost pre = self.model();
        let mut s = self;
        s.notify_title = true;
        proof {
            assert(s.model() =~= (SessionData { notify_title: true, ..pre }));
        }
        s
    }

    /// The currently selected view, if any.
    pub fn current_view(&self) -> (r: Option<ViewId>)
        ensures
            r == self.model().current,
    {
        self.registry.current()
    }

    /// The number of live views.
    pub fn view_count(&self) -> (r: usize)
        ensures
            r == self.model().views.len(),
    {
        self.registry.len()
    }

    /// The current global rendering size.
    pub fn viewport(&self) -> (r: ViewportSize)
        ensures
            r == self.model().viewport,
    {
        self.viewport
    }

    /// The read-only snapshot the host paints from: the view's current
    /// frame and the pointer-icon hint. A stale id answers nothing.
    pub fn snapshot(&self, id: ViewId) -> (r: Option<(&ImageInfo, CursorKind)>)
        requires
            self.wf(),
        ensures
            match r {
                Some((f, c)) => {
                    &&& contains_id(self.model().views, id)
                    &&& f@ == self.model().views[index_of_id(self.model().views, id)].frame
                    &&& c == self.model().eng[self.model().views[index_of_id(
                        self.model().views,
                        id,
                    )].handle].cursor
                },
                None => !contains_id(self.model().views, id),
            },
    {
        let entry = match self.registry.get(id) {
            Some(e) => e,
            None => {
                return None;
            },
        };
        let ghost idx = index_of_id(self.model().views, id);
        proof {
            assert(self.model().views[idx].handle == entry@.handle);
        }
        let cursor = self.engine.get_cursor_hint(entry.handle());
        Some((entry.frame(), cursor))
    }
}

/// Equality of two backend view states on everything but the frame-ready
/// bit — the only part of a view's abstract state a paint may change.
pub open spec fn eng_eq_mod_ready(a: BackendView, b: BackendView) -> bool {
    &&& a.url == b.url
    &&& a.title == b.title
    &&& a.loading == b.loading
    &&& a.frame == b.frame
    &&& a.cursor == b.cursor
}

/// The tick notifications do not depend on the frame-ready bits: two engine
/// states that agree on everything else yield the same notifications.
proof fn lemma_tick_notes_mod_ready(
    entries: Seq<EntryData>,
    eng1: Map<u64, BackendView>,
    eng2: Map<u64, BackendView>,
    url_mask: bool,
    title_mask: bool,
    i: int,
)
    requires
        0 <= i <= entries.len(),
        forall|k: int|
            0 <= k < entries.len() ==> eng_eq_mod_ready(
                eng2[(#[trigger] entries[k]).handle],
                eng1[entries[k].handle],
            ),
    ensures
        tick_notes_prefix(entries, eng2, url_mask, title_mask, i) == tick_notes_prefix(
            entries,
            eng1,
            url_mask,
            title_mask,
            i,
        ),
    decreases i,
{
    if i > 0 {
        lemma_tick_notes_mod_ready(entries, eng1, eng2, url_mask, title_mask, i - 1);
        assert(view_notes(entries[i - 1], eng2, url_mask, title_mask) == view_notes(
            entries[i - 1],
            eng1,
            url_mask,
            title_mask,
        ));
    }
}

/// Rebuilding a registry value from its fields gives the same value.
proof fn lemma_reg_roundtrip(d: RegistryData)
    ensures
        (RegistryData { entries: d.entries, next_id: d.next_id, current: d.current }) == d,
{
    assert((RegistryData { entries: d.entries, next_id: d.next_id, current: d.current }) =~= d);
}

impl<E: Engine> WebView<E> {
    /// The backend handle of the view carrying `id`, if it is live.
    fn handle_of(&self, id: ViewId) -> (r: Option<u64>)
        requires
            self.wf(),
        ensures
            match r {
                Some(h) => {
                    &&& contains_id(self.model().views, id)
                    &&& h == self.model().views[index_of_id(self.model().views, id)].handle
                    &&& self.model().eng.dom().contains(h)
                },
                None => !contains_id(self.model().views, id),
            },
    {
        proof {
            lemma_reg_roundtrip(self.registry@);
        }
        match self.registry.get(id) {
            Some(e) => {
                proof {
                    let idx = index_of_id(self.model().views, id);
                    assert(self.model().eng.dom().contains(self.model().views[idx].handle));
                }
                Some(e.handle())
            },
            None => None,
        }
    }

    /// Creates a view, loading `content` into it when given. Failure of the
    /// backend, or an exhausted id space, surfaces as a failed command and
    /// leaves the session unchanged.
    fn do_create(&mut self, content: Option<PageType>) -> (r: Result<Vec<Notification>, UpdateError>)
        requires
            old(self).wf(),
        ensures
            final(self).wf(),
            match r {
                Ok(notes) => create_effect(
                    old(self).model(),
                    final(self).model(),
                    note_views(notes@),
                ),
                Err(e) => final(self).model() == old(self).model() && e
                    == UpdateError::CreateFailed,
            },
    {
        let vp = self.viewport;
        let h = match self.engine.create_view(vp, content) {
            Ok(h) => h,
            Err(_) => {
                proof {
                    assert(self.model() =~= old(self).model());
                }
                return Err(UpdateError::CreateFailed);
            },
        };
        proof {
            lemma_reg_roundtrip(self.registry@);
        }
        let id = match self.registry.insert(h, vp) {
            Some(id) => id,
            None => {
                self.engine.destroy_view(h);
                proof {
                    assert(self.model().eng =~= old(self).model().eng);
                    assert(self.model() =~= old(self).model());
                }
                return Err(UpdateError::CreateFailed);
            },
        };
        let mut notes: Vec<Notification> = Vec::new();
        if self.notify_create {
            notes.push(Notification::ViewCreated(id));
        }
        proof {
            let pre = old(self).model();
            let post = self.model();
            assert(post.views =~= pre.views.push(fresh_entry(id, h, vp)));
            assert(note_views(notes@) =~= if pre.notify_create {
                seq![NoteData::Created(id)]
            } else {
                Seq::<NoteData>::empty()
            });
            assert(create_shape(pre, post, note_views(notes@), h, id));
            lemma_reg_roundtrip(self.registry@);
            lemma_wf_push(pre, post, h);
        }
        Ok(notes)
    }

    /// Closes the view: the record leaves the registry, then the engine
    /// view is destroyed, in that order. A second close of the same id is a
    /// no-op.
    fn do_close(&mut self, id: ViewId) -> (notes: Vec<Notification>)
        requires
            old(self).wf(),
        ensures
            final(self).wf(),
            close_effect(old(self).model(), final(self).model(), note_views(notes@), id),
    {
        proof {
            lemma_reg_roundtrip(self.registry@);
        }
        let ghost pre = old(self).model();
        let h = match self.registry.remove(id) {
            Some(h) => h,
            None => {
                let notes: Vec<Notification> = Vec::new();
                proof {
                    assert(self.model() =~= old(self).model());
                    assert(note_views(notes@) =~= Seq::<NoteData>::empty());
                }
                return notes;
            },
        };
        proof {
            let idx = index_of_id(pre.views, id);
            assert(pre.eng.dom().contains(pre.views[idx].handle));
        }
        self.engine.destroy_view(h);
        let mut notes: Vec<Notification> = Vec::new();
        if self.notify_close {
            notes.push(Notification::ViewClosed(id));
        }
        proof {
            let post = self.model();
            assert(note_views(notes@) =~= if pre.notify_close {
                seq![NoteData::Closed(id)]
            } else {
                Seq::<NoteData>::empty()
            });
            lemma_reg_roundtrip(self.registry@);
            lemma_wf_remove(pre, post, index_of_id(pre.views, id));
        }
        notes
    }

    /// Selects the current view; a stale id is a no-op.
    fn do_change_current(&mut self, id: ViewId)
        requires
            old(self).wf(),
        ensures
            final(self).wf(),
            change_current_effect(old(self).model(), final(self).model(), id),
    {
        proof {
            lemma_reg_roundtrip(self.registry@);
        }
        let selected = self.registry.set_current(id);
        proof {
            if selected {
                assert(self.model() =~= (SessionData { current: Some(id), ..old(self).model() }));
            } else {
                assert(self.model() =~= old(self).model());
            }
            lemma_reg_roundtrip(self.registry@);
            lemma_wf_same_handles(old(self).model(), self.model());
        }
    }

    /// Marks the view carrying `id` as needing a repaint.
    fn mark_dirty(&mut self, id: ViewId)
        requires
            old(self).wf(),
            contains_id(old(self).model().views, id),
        ensures
            final(self).wf(),
            final(self).model() == (SessionData {
                views: old(self).model().views.update(
                    index_of_id(old(self).model().views, id),
                    with_repaint(
                        old(self).model().views[index_of_id(old(self).model().views, id)],
                        true,
                    ),
                ),
                ..old(self).model()
            }),
    {
        proof {
            lemma_reg_roundtrip(self.registry@);
        }
        let marked = self.registry.mark_needs_repaint(id, true);
        proof {
            assert(marked);
            let pre = old(self).model();
            let post = self.model();
            assert(post =~= (SessionData {
                views: pre.views.update(
                    index_of_id(pre.views, id),
                    with_repaint(pre.views[index_of_id(pre.views, id)], true),
                ),
                ..pre
            }));
            lemma_reg_roundtrip(self.registry@);
            lemma_wf_same_handles(pre, post);
        }
    }

    /// Begins loading `target` in the view; a stale id is a no-op.
    fn do_navigate(&mut self, id: ViewId, target: PageType)
        requires
            old(self).wf(),
        ensures
            final(self).wf(),
            navigate_effect(old(self).model(), final(self).model(), id),
    {
        let h = match self.handle_of(id) {
            Some(h) => h,
            None => {
                return ;
            },
        };
        self.engine.navigate(h, target);
        proof {
            lemma_reg_roundtrip(self.registry@);
            lemma_wf_same_handles(old(self).model(), self.model());
        }
        self.mark_dirty(id);
        proof {
            let pre = old(self).model();
            let post = self.model();
            assert(navigate_effect(pre, post, id));
        }
    }

    /// Reloads the view's content; a stale id is a no-op.
    fn do_reload(&mut self, id: ViewId)
        requires
            old(self).wf(),
        ensures
            final(self).wf(),
            history_effect(old(self).model(), final(self).model(), id),
    {
        let h = match self.handle_of(id) {
            Some(h) => h,
            None => {
                return ;
            },
        };
        self.engine.reload(h);
        proof {
            assert(self.model() =~= old(self).model());
        }
        self.mark_dirty(id);
    }

    /// Moves back in the view's history; a stale id is a no-op.
    fn do_go_back(&mut self, id: ViewId)
        requires
            old(self).wf(),
        ensures
            final(self).wf(),
            history_effect(old(self).model(), final(self).model(), id),
    {
        let h = match self.handle_of(id) {
            Some(h) => h,
            None => {
                return ;
            },
        };
        self.engine.go_back(h);
        proof {
            assert(self.model() =~= old(self).model());
        }
        self.mark_dirty(id);
    }

    /// Moves forward in the view's history; a stale id is a no-op.
    fn do_go_forward(&mut self, id: ViewId)
        requires
            old(self).wf(),
        ensures
            final(self).wf(),
            history_effect(old(self).model(), final(self).model(), id),
    {
        let h = match self.handle_of(id) {
            Some(h) => h,
            None => {
                return ;
            },
        };
        self.engine.go_forward(h);
        proof {
            assert(self.model() =~= old(self).model());
        }
        self.mark_dirty(id);
    }

    /// Translates and delivers a keyboard event; an unmapped key is dropped
    /// silently, and a stale id is a no-op.
    fn do_key_input(&mut self, id: ViewId, event: KeyEvent)
        requires
            old(self).wf(),
        ensures
            final(self).wf(),
            key_input_effect(old(self).model(), final(self).model(), id, event),
    {
        let h = match self.handle_of(id) {
            Some(h) => h,
            None => {
                return ;
            },
        };
        match translate_key(&event) {
            Some(e) => {
                self.engine.deliver_key_event(h, e);
                proof {
                    assert(self.model() =~= old(self).model());
                }
                self.mark_dirty(id);
            },
            None => {},
        }
    }

    /// Translates and acts on a pointer event; a stale id is a no-op.
    fn do_pointer_input(&mut self, id: ViewId, event: MouseEvent)
        requires
            old(self).wf(),
        ensures
            final(self).wf(),
            pointer_input_effect(old(self).model(), final(self).model(), id, event),
    {
        let h = match self.handle_of(id) {
            Some(h) => h,
            None => {
                return ;
            },
        };
        match translate_mouse(&event) {
            PointerOutcome::Deliver(e) => {
                self.engine.deliver_pointer_event(h, e);
                proof {
                    assert(self.model() =~= old(self).model());
                }
                self.mark_dirty(id);
            },
            PointerOutcome::HistoryForward => {
                self.engine.go_forward(h);
                proof {
                    assert(self.model() =~= old(self).model());
                }
                self.mark_dirty(id);
            },
            PointerOutcome::HistoryBack => {
                self.engine.go_back(h);
                proof {
                    assert(self.model() =~= old(self).model());
                }
                self.mark_dirty(id);
            },
            PointerOutcome::ScrollBy(dx, dy) => {
                self.engine.deliver_scroll_event(h, dx, dy);
                proof {
                    assert(self.model() =~= old(self).model());
                }
                self.mark_dirty(id);
            },
            PointerOutcome::TrackPosition(x, y) => {
                proof {
                    lemma_reg_roundtrip(self.registry@);
                }
                let did_track = self.registry.set_cursor_pos(id, x, y);
                proof {
                    assert(did_track);
                    let pre = old(self).model();
                    let post = self.model();
                    assert(post =~= (SessionData {
                        views: pre.views.update(
                            index_of_id(pre.views, id),
                            with_cursor(pre.views[index_of_id(pre.views, id)], x, y),
                        ),
                        ..pre
                    }));
                    lemma_reg_roundtrip(self.registry@);
                    lemma_wf_same_handles(pre, post);
                }
            },
            PointerOutcome::Focus => {
                self.engine.focus();
                proof {
                    assert(self.model() =~= old(self).model());
                }
            },
            PointerOutcome::Unfocus => {
                self.engine.unfocus();
                proof {
                    assert(self.model() =~= old(self).model());
                }
            },
            PointerOutcome::Ignore => {},
        }
    }

    /// Scales and delivers a scroll; a stale id is a no-op.
    fn do_scroll_input(&mut self, id: ViewId, delta: ScrollDelta)
        requires
            old(self).wf(),
        ensures
            final(self).wf(),
            scroll_input_effect(old(self).model(), final(self).model(), id),
    {
        let h = match self.handle_of(id) {
            Some(h) => h,
            None => {
                return ;
            },
        };
        let px = scroll_pixels(&delta);
        self.engine.deliver_scroll_event(h, px.0, px.1);
        proof {
            assert(self.model() =~= old(self).model());
        }
        self.mark_dirty(id);
    }

    /// Applies a new global rendering size and marks every view dirty.
    fn do_resize(&mut self, viewport: ViewportSize)
        requires
            old(self).wf(),
        ensures
            final(self).wf(),
            resize_effect(old(self).model(), final(self).model(), viewport),
    {
        self.viewport = viewport;
        self.engine.resize(viewport);
        proof {
            lemma_reg_roundtrip(self.registry@);
        }
        self.registry.mark_all_needs_repaint();
        proof {
            let pre = old(self).model();
            let post = self.model();
            lemma_reg_roundtrip(self.registry@);
            lemma_wf_same_handles(pre, post);
        }
    }

    /// Paints the view unconditionally, bypassing the loading and dirty
    /// gates; a stale id is a no-op.
    #[verifier::rlimit(50)]
    fn do_force_repaint(&mut self, id: ViewId)
        requires
            old(self).wf(),
        ensures
            final(self).wf(),
            force_repaint_effect(old(self).model(), final(self).model(), id),
    {
        let h = match self.handle_of(id) {
            Some(h) => h,
            None => {
                return ;
            },
        };
        let ghost pre = old(self).model();
        let ghost idx = index_of_id(pre.views, id);
        match self.engine.paint(h) {
            Some(f) => {
                proof {
                    lemma_reg_roundtrip(self.registry@);
                }
                let stored = self.registry.store_frame(id, f);
                let ghost mid = self.model();
                proof {
                    assert(stored);
                    lemma_reg_roundtrip(self.registry@);
                }
                let ghost mid = self.model();
                proof {
                    assert(0 <= idx < mid.views.len() && mid.views[idx].id == id);
                    assert(contains_id(mid.views, id));
                }
                let cleared = self.registry.mark_needs_repaint(id, false);
                proof {
                    assert(cleared);
                    let post = self.model();
                    assert(index_of_id(mid.views, id) == idx) by {
                        crate::registry::lemma_index_unique(mid.views, id, idx);
                    }
                    assert(post.views =~= pre.views.update(
                        idx,
                        with_repaint(with_frame(pre.views[idx], pre.eng[h].frame), false),
                    ));
                    lemma_reg_roundtrip(self.registry@);
                    lemma_wf_same_handles(pre, post);
                }
            },
            None => {
                proof {
                    assert(self.model().views =~= pre.views);
                }
            },
        }
    }

    /// One render tick: pump the engine once, then, per view in order,
    /// replay the tracked pointer position, refresh the frame through the
    /// loading and dirty gates, and diff the cached url and title against
    /// the engine's, emitting one notification per changed field in the
    /// subscribed classes.
    #[verifier::rlimit(100)]
    fn do_tick(&mut self) -> (notes: Vec<Notification>)
        requires
            old(self).wf(),
        ensures
            final(self).wf(),
            tick_effect(old(self).model(), final(self).model(), note_views(notes@)),
    {
        let ghost pre = old(self).model();
        self.engine.advance();
        let ghost base = self.model();
        proof {
            lemma_reg_roundtrip(self.registry@);
            lemma_wf_same_handles(pre, base);
        }
        let mut notes: Vec<Notification> = Vec::new();
        let n = self.registry.len();
        let mut k: usize = 0;
        while k < n
            invariant
                k <= n,
                self.wf(),
                n == self.model().views.len(),
                pre.views.len() == n,
                base.views == pre.views,
                base.eng.dom() == pre.eng.dom(),
                self.model().viewport == pre.viewport,
                self.model().current == pre.current,
                self.model().next_id == pre.next_id,
                self.model().notify_create == pre.notify_create,
                self.model().notify_close == pre.notify_close,
                self.model().notify_url == pre.notify_url,
                self.model().notify_title == pre.notify_title,
                self.model().eng.dom() == base.eng.dom(),
                forall|h: u64|
                    base.eng.dom().contains(h) ==> eng_eq_mod_ready(
                        #[trigger] self.model().eng[h],
                        base.eng[h],
                    ),
                forall|i: int|
                    0 <= i < n ==> {
                        &&& (#[trigger] self.model().views[i]).id == pre.views[i].id
                        &&& self.model().views[i].handle == pre.views[i].handle
                        &&& self.model().views[i].cursor_x == pre.views[i].cursor_x
                        &&& self.model().views[i].cursor_y == pre.views[i].cursor_y
                    },
                forall|i: int| k <= i < n ==> #[trigger] self.model().views[i] == pre.views[i],
                forall|i: int|
                    0 <= i < k ==> tick_view_effect(
                        #[trigger] pre.views[i],
                        self.model().views[i],
                        base.eng,
                        pre.viewport,
                    ),
                note_views(notes@) == tick_notes_prefix(
                    pre.views,
                    base.eng,
                    pre.notify_url,
                    pre.notify_title,
                    k as int,
                ),
            decreases n - k,
        {
            let ghost it0 = self.model();
            let (id, handle, px, py, was_dirty) = {
                let e = self.registry.entry_at(k);
                (e.id(), e.handle(), e.cursor_pos().0, e.cursor_pos().1, e.needs_repaint())
            };
            proof {
                assert(it0.eng.dom().contains(it0.views[k as int].handle));
            }
            // replay the tracked pointer position before any paint
            self.engine.deliver_pointer_event(
                handle,
                EngineMouseEvent {
                    ty: MouseEventType::MouseMoved,
                    x: px,
                    y: py,
                    button: EngineMouseButton::NoButton,
                },
            );
            proof {
                assert(self.model() =~= it0);
            }
            // the loading gate, the dirty gate, and the paint
            if self.engine.is_loading(handle) {
                let vp = self.viewport;
                proof {
                    use_type_invariant(&vp);
                }
                let ph = ImageInfo::blank(vp.width(), vp.height());
                proof {
                    lemma_reg_roundtrip(self.registry@);
                }
                let stored = self.registry.store_frame(id, ph);
                proof {
                    assert(stored);
                    crate::registry::lemma_index_unique(it0.views, id, k as int);
                    assert(self.model().views =~= it0.views.update(
                        k as int,
                        with_frame(it0.views[k as int], placeholder_data(pre.viewport)),
                    ));
                    lemma_reg_roundtrip(self.registry@);
                    lemma_wf_same_handles(it0, self.model());
                }
            } else {
                let want = was_dirty || self.engine.has_new_frame(handle);
                if want {
                    let ghost before_paint = self.model();
                    let painted = self.engine.paint(handle);
                    proof {
                        assert forall|h: u64|
                            base.eng.dom().contains(h) implies eng_eq_mod_ready(
                            #[trigger] self.model().eng[h],
                            base.eng[h],
                        ) by {
                            if h != handle {
                                assert(self.model().eng[h] == before_paint.eng[h]);
                            }
                        }
                        assert(self.model().views == before_paint.views);
                    }
                    match painted {
                        Some(f) => {
                            proof {
                                lemma_reg_roundtrip(self.registry@);
                            }
                            let stored = self.registry.store_frame(id, f);
                            let ghost mid1 = self.model();
                            proof {
                                assert(stored);
                                crate::registry::lemma_index_unique(it0.views, id, k as int);
                                lemma_reg_roundtrip(self.registry@);
                                assert(0 <= k < mid1.views.len() && mid1.views[k as int].id == id);
                                assert(contains_id(mid1.views, id));
                            }
                            let cleared = self.registry.mark_needs_repaint(id, false);
                            proof {
                                assert(cleared);
                                crate::registry::lemma_index_unique(mid1.views, id, k as int);
                                assert(self.model().views =~= it0.views.update(
                                    k as int,
                                    with_repaint(
                                        with_frame(it0.views[k as int], base.eng[handle].frame),
                                        false,
                                    ),
                                ));
                                lemma_reg_roundtrip(self.registry@);
                                lemma_wf_same_handles(it0, self.model());
                            }
                        },
                        None => {},
                    }
                }
            }
            // diff the cached metadata against the engine's live values
            let ghost mid = self.model();
            let url = self.engine.get_url(handle);
            let title = self.engine.get_title(handle);
            let loading_now = self.engine.is_loading(handle);
            let (url_changed, title_changed) = {
                let e = self.registry.entry_at(k);
                (!string_eq(e.url(), &url), !string_eq(e.title(), &title))
            };
            let ghost notes0 = notes@;
            if self.notify_url && url_changed {
                notes.push(Notification::UrlChanged(id, url.clone()));
            }
            if self.notify_title && title_changed {
                notes.push(Notification::TitleChanged(id, title.clone()));
            }
            proof {
                lemma_reg_roundtrip(self.registry@);
            }
            let updated = self.registry.store_status(id, url, title, loading_now);
            proof {
                assert(updated);
                crate::registry::lemma_index_unique(mid.views, id, k as int);
                assert(self.model().views =~= mid.views.update(
                    k as int,
                    crate::registry::with_status(
                        mid.views[k as int],
                        base.eng[handle].url,
                        base.eng[handle].title,
                        base.eng[handle].loading,
                    ),
                ));
                lemma_reg_roundtrip(self.registry@);
                lemma_wf_same_handles(mid, self.model());
                // the cached values diffed against are still the pre-tick ones
                assert(mid.views[k as int].url == pre.views[k as int].url);
                assert(mid.views[k as int].title == pre.views[k as int].title);
                // this view now satisfies the per-view tick contract
                assert(tick_view_effect(
                    pre.views[k as int],
                    self.model().views[k as int],
                    base.eng,
                    pre.viewport,
                ));
                // and the emitted notifications are exactly its diff
                assert(note_views(notes@) =~= tick_notes_prefix(
                    pre.views,
                    base.eng,
                    pre.notify_url,
                    pre.notify_title,
                    k as int + 1,
                )) by {
                    assert(note_views(notes0) == tick_notes_prefix(
                        pre.views,
                        base.eng,
                        pre.notify_url,
                        pre.notify_title,
                        k as int,
                    ));
                    assert(view_notes(
                        pre.views[k as int],
                        base.eng,
                        pre.notify_url,
                        pre.notify_title,
                    ) == {
                        let b = base.eng[handle];
                        let u: Seq<NoteData> = if pre.notify_url && b.url != pre.views[k as int].url {
                            seq![NoteData::Url(id, b.url)]
                        } else {
                            Seq::<NoteData>::empty()
                        };
                        let t: Seq<NoteData> = if pre.notify_title && b.title != pre.views[
                            k as int
                        ].title {
                            seq![NoteData::Title(id, b.title)]
                        } else {
                            Seq::<NoteData>::empty()
                        };
                        u + t
                    });
                }
            }
            k = k + 1;
        }
        proof {
            let post = self.model();
            assert forall|i: int| 0 <= i < pre.views.len() implies tick_view_effect(
                #[trigger] pre.views[i],
                post.views[i],
                post.eng,
                pre.viewport,
            ) by {
                assert(tick_view_effect(pre.views[i], post.views[i], base.eng, pre.viewport));
                assert(base.eng.dom().contains(pre.views[i].handle));
                assert(eng_eq_mod_ready(post.eng[pre.views[i].handle], base.eng[pre.views[i].handle]));
            }
            assert forall|kk: int|
                0 <= kk < pre.views.len() implies eng_eq_mod_ready(
                post.eng[(#[trigger] pre.views[kk]).handle],
                base.eng[pre.views[kk].handle],
            ) by {
                assert(base.eng.dom().contains(pre.views[kk].handle));
            }
            lemma_tick_notes_mod_ready(
                pre.views,
                base.eng,
                post.eng,
                pre.notify_url,
                pre.notify_title,
                pre.views.len() as int,
            );
        }
        notes
    }
}

impl<E: Engine> WebView<E> {
    /// Processes one command. Every command names its effect exactly: see
    /// the per-command effect predicates. Only `CreateView` can fail, and a
    /// failed creation leaves the session unchanged; a command naming a
    /// stale id is a silent no-op.
    pub fn update(&mut self, action: Action) -> (r: Result<Vec<Notification>, UpdateError>)
        requires
            old(self).wf(),
        ensures
            final(self).wf(),
            match action {
                Action::CreateView(_) => match r {
                    Ok(notes) => create_effect(
                        old(self).model(),
                        final(self).model(),
                        note_views(notes@),
                    ),
                    Err(e) => final(self).model() == old(self).model() && e
                        == UpdateError::CreateFailed,
                },
                Action::CloseView(id) => r matches Ok(notes) && close_effect(
                    old(self).model(),
                    final(self).model(),
                    note_views(notes@),
                    id,
                ),
                Action::ChangeCurrentView(id) => r matches Ok(notes) && notes@.len() == 0
                    && change_current_effect(old(self).model(), final(self).model(), id),
                Action::Navigate(id, _) => r matches Ok(notes) && notes@.len() == 0
                    && navigate_effect(old(self).model(), final(self).model(), id),
                Action::Reload(id) => r matches Ok(notes) && notes@.len() == 0 && history_effect(
                    old(self).model(),
                    final(self).model(),
                    id,
                ),
                Action::GoBack(id) => r matches Ok(notes) && notes@.len() == 0 && history_effect(
                    old(self).model(),
                    final(self).model(),
                    id,
                ),
                Action::GoForward(id) => r matches Ok(notes) && notes@.len() == 0
                    && history_effect(old(self).model(), final(self).model(), id),
                Action::KeyInput(id, ev) => r matches Ok(notes) && notes@.len() == 0
                    && key_input_effect(old(self).model(), final(self).model(), id, ev),
                Action::PointerInput(id, ev) => r matches Ok(notes) && notes@.len() == 0
                    && pointer_input_effect(old(self).model(), final(self).model(), id, ev),
                Action::ScrollInput(id, _) => r matches Ok(notes) && notes@.len() == 0
                    && scroll_input_effect(old(self).model(), final(self).model(), id),
                Action::Resize(viewport) => r matches Ok(notes) && notes@.len() == 0
                    && resize_effect(old(self).model(), final(self).model(), viewport),
                Action::Tick => r matches Ok(notes) && tick_effect(
                    old(self).model(),
                    final(self).model(),
                    note_views(notes@),
                ),
                Action::ForceRepaint(id) => r matches Ok(notes) && notes@.len() == 0
                    && force_repaint_effect(old(self).model(), final(self).model(), id),
            },
    {
        match action {
            Action::CreateView(content) => self.do_create(content),
            Action::CloseView(id) => Ok(self.do_close(id)),
            Action::ChangeCurrentView(id) => {
                self.do_change_current(id);
                Ok(Vec::new())
            },
            Action::Navigate(id, target) => {
                self.do_navigate(id, target);
                Ok(Vec::new())
            },
            Action::Reload(id) => {
                self.do_reload(id);
                Ok(Vec::new())
            },
            Action::GoBack(id) => {
                self.do_go_back(id);
                Ok(Vec::new())
            },
            Action::GoForward(id) => {
                self.do_go_forward(id);
                Ok(Vec::new())
            },
            Action::KeyInput(id, event) => {
                self.do_key_input(id, event);
                Ok(Vec::new())
            },
            Action::PointerInput(id, event) => {
                self.do_pointer_input(id, event);
                Ok(Vec::new())
            },
            Action::ScrollInput(id, delta) => {
                self.do_scroll_input(id, delta);
                Ok(Vec::new())
            },
            Action::Resize(viewport) => {
                self.do_resize(viewport);
                Ok(Vec::new())
            },
            Action::Tick => Ok(self.do_tick()),
            Action::ForceRepaint(id) => {
                self.do_force_repaint(id);
                Ok(Vec::new())
            },
        }
    }
}

/// Whether two strings hold the same characters.
fn string_eq(a: &String, b: &String) -> (r: bool)
    ensures
        r == (a@ == b@),
{
    a.eq(b)
}

/// Identities are never reused across a session's lifetime. Every id live
/// in some earlier session state sits below that state's high-water mark
/// ([`session_wf`]); no command lowers the mark; and creation issues
/// exactly the mark. So an id created later differs from every id that was
/// live — and possibly closed since — at any earlier point.
pub proof fn lemma_session_no_reuse(
    earlier: SessionData,
    pre: SessionData,
    post: SessionData,
    notes: Seq<NoteData>,
    h: u64,
    id: ViewId,
    stale: ViewId,
)
    requires
        session_wf(earlier),
        stale.num() < earlier.next_id,
        earlier.next_id <= pre.next_id,
        create_shape(pre, post, notes, h, id),
    ensures
        id != stale,
{
}

/// Idempotent close: after closing a view, closing the same id again
/// changes nothing and emits no notification — whether or not the first
/// close found the view live.
pub proof fn lemma_close_idempotent(
    pre: SessionData,
    mid: SessionData,
    post: SessionData,
    first_notes: Seq<NoteData>,
    second_notes: Seq<NoteData>,
    id: ViewId,
)
    requires
        close_effect(pre, mid, first_notes, id),
        close_effect(mid, post, second_notes, id),
    ensures
        post == mid,
        second_notes == Seq::<NoteData>::empty(),
{
}

/// The dirty-gate, per view and tick: a view the engine reports loading
/// shows the placeholder — never a stale or garbage frame — for as long as
/// the loading state lasts; a view that is not loading either keeps its
/// previous frame with its dirty flag intact, or takes exactly the engine's
/// pixels and comes out clean.
pub proof fn lemma_loading_gate(pre: SessionData, post: SessionData, notes: Seq<NoteData>, i: int)
    requires
        tick_effect(pre, post, notes),
        0 <= i < pre.views.len(),
    ensures
        post.eng[pre.views[i].handle].loading ==> post.views[i].frame == placeholder_data(
            pre.viewport,
        ),
        !post.eng[pre.views[i].handle].loading ==> (post.views[i].frame == pre.views[i].frame
            && post.views[i].needs_repaint == pre.views[i].needs_repaint) || (post.views[i].frame
            == post.eng[pre.views[i].handle].frame && !post.views[i].needs_repaint),
{
    assert(tick_view_effect(pre.views[i], post.views[i], post.eng, pre.viewport));
}

/// How many url-changed notifications in `notes` name the view `id`.
pub open spec fn url_note_count(notes: Seq<NoteData>, id: ViewId) -> int
    decreases notes.len(),
{
    if notes.len() == 0 {
        0
    } else {
        (match notes[0] {
            NoteData::Url(i, _) => if i == id {
                1int
            } else {
                0int
            },
            _ => 0int,
        }) + url_note_count(notes.drop_first(), id)
    }
}

/// Counting url notifications distributes over concatenation.
proof fn lemma_url_count_concat(a: Seq<NoteData>, b: Seq<NoteData>, id: ViewId)
    ensures
        url_note_count(a + b, id) == url_note_count(a, id) + url_note_count(b, id),
    decreases a.len(),
{
    if a.len() == 0 {
        assert(a + b =~= b);
    } else {
        assert((a + b).drop_first() =~= a.drop_first() + b);
        assert((a + b)[0] == a[0]);
        lemma_url_count_concat(a.drop_first(), b, id);
    }
}

/// The url notifications of one view's diff, counted for any id.
proof fn lemma_view_notes_url_count(
    e: EntryData,
    eng: Map<u64, BackendView>,
    um: bool,
    tm: bool,
    id: ViewId,
)
    ensures
        url_note_count(view_notes(e, eng, um, tm), id) == if e.id == id && um && eng[e.handle].url
            != e.url {
            1int
        } else {
            0int
        },
{
    let b = eng[e.handle];
    let u: Seq<NoteData> = if um && b.url != e.url {
        seq![NoteData::Url(e.id, b.url)]
    } else {
        Seq::<NoteData>::empty()
    };
    let t: Seq<NoteData> = if tm && b.title != e.title {
        seq![NoteData::Title(e.id, b.title)]
    } else {
        Seq::<NoteData>::empty()
    };
    lemma_url_count_concat(u, t, id);
    assert(url_note_count(Seq::<NoteData>::empty(), id) == 0);
    if um && b.url != e.url {
        assert(u.len() == 1);
        assert(u[0] == NoteData::Url(e.id, b.url));
        assert(u.drop_first() =~= Seq::<NoteData>::empty());
        assert(url_note_count(u, id) == (if e.id == id {
            1int
        } else {
            0int
        }) + url_note_count(u.drop_first(), id));
    } else {
        assert(url_note_count(u, id) == 0);
    }
    if tm && b.title != e.title {
        assert(t.len() == 1);
        assert(t[0] == NoteData::Title(e.id, b.title));
        assert(t.drop_first() =~= Seq::<NoteData>::empty());
        assert(url_note_count(t, id) == 0 + url_note_count(t.drop_first(), id));
    } else {
        assert(url_note_count(t, id) == 0);
    }
    assert(view_notes(e, eng, um, tm) == u + t);
}

/// The debounce argument over a prefix of the views.
proof fn lemma_url_debounce_prefix(
    entries: Seq<EntryData>,
    eng: Map<u64, BackendView>,
    um: bool,
    tm: bool,
    i: int,
    j: int,
)
    requires
        forall|p: int, q: int|
            0 <= p < q < entries.len() ==> (#[trigger] entries[p]).id != (
            #[trigger] entries[q]).id,
        0 <= i < entries.len(),
        0 <= j <= entries.len(),
    ensures
        url_note_count(tick_notes_prefix(entries, eng, um, tm, j), entries[i].id) == if i < j && um
            && eng[entries[i].handle].url != entries[i].url {
            1int
        } else {
            0int
        },
        (i < j && um && eng[entries[i].handle].url != entries[i].url)
            ==> tick_notes_prefix(entries, eng, um, tm, j).contains(
            NoteData::Url(entries[i].id, eng[entries[i].handle].url),
        ),
    decreases j,
{
    if j > 0 {
        lemma_url_debounce_prefix(entries, eng, um, tm, i, j - 1);
        let a = tick_notes_prefix(entries, eng, um, tm, j - 1);
        let v = view_notes(entries[j - 1], eng, um, tm);
        lemma_url_count_concat(a, v, entries[i].id);
        lemma_view_notes_url_count(entries[j - 1], eng, um, tm, entries[i].id);
        if i == j - 1 && um && eng[entries[i].handle].url != entries[i].url {
            assert((a + v)[a.len() as int] == NoteData::Url(
                entries[i].id,
                eng[entries[i].handle].url,
            ));
            assert((a + v).contains(NoteData::Url(entries[i].id, eng[entries[i].handle].url)));
        }
        if i < j - 1 && um && eng[entries[i].handle].url != entries[i].url {
            let note = NoteData::Url(entries[i].id, eng[entries[i].handle].url);
            let w = choose|w: int| 0 <= w < a.len() && a[w] == note;
            assert((a + v)[w] == note);
            assert((a + v).contains(note));
        }
    }
}

/// Notification debounce: over one tick, the url-changed notification for a
/// view fires zero times when the engine's url equals the cached one, and
/// exactly once — carrying the new value — when it differs and the host
/// subscribed.
pub proof fn lemma_url_debounce(
    entries: Seq<EntryData>,
    eng: Map<u64, BackendView>,
    um: bool,
    tm: bool,
    i: int,
)
    requires
        forall|p: int, q: int|
            0 <= p < q < entries.len() ==> (#[trigger] entries[p]).id != (
            #[trigger] entries[q]).id,
        0 <= i < entries.len(),
    ensures
        url_note_count(tick_notes(entries, eng, um, tm), entries[i].id) == if um
            && eng[entries[i].handle].url != entries[i].url {
            1int
        } else {
            0int
        },
        (um && eng[entries[i].handle].url != entries[i].url) ==> tick_notes(
            entries,
            eng,
            um,
            tm,
        ).contains(NoteData::Url(entries[i].id, eng[entries[i].handle].url)),
{
    lemma_url_debounce_prefix(entries, eng, um, tm, i, entries.len() as int);
}

/// Notification debounce, at the session level: over one tick, a view's
/// url-changed notification fires zero times when its url did not change,
/// and exactly once — with the new value — when it did and the host
/// subscribed.
pub proof fn lemma_session_url_debounce(
    pre: SessionData,
    post: SessionData,
    notes: Seq<NoteData>,
    i: int,
)
    requires
        session_wf(pre),
        tick_effect(pre, post, notes),
        0 <= i < pre.views.len(),
    ensures
        url_note_count(notes, pre.views[i].id) == if pre.notify_url
            && post.eng[pre.views[i].handle].url != pre.views[i].url {
            1int
        } else {
            0int
        },
        (pre.notify_url && post.eng[pre.views[i].handle].url != pre.views[i].url)
            ==> notes.contains(
            NoteData::Url(pre.views[i].id, post.eng[pre.views[i].handle].url),
        ),
{
    assert forall|p: int, q: int| 0 <= p < q < pre.views.len() implies (
    #[trigger] pre.views[p]).id != (#[trigger] pre.views[q]).id by {
        let d = reg_of(pre);
        assert(d.entries[p].id != d.entries[q].id);
    }
    lemma_url_debounce(pre.views, post.eng, pre.notify_url, pre.notify_title, i);
}

} // verus!
