//! The registry of live views: it owns every per-view record, issues the
//! identifiers the host refers to views by, and tracks which view is
//! current.
//!
//! Identifiers come from a monotonically increasing counter, so an id is
//! never reused within a registry's lifetime: a stale id held by the host
//! after a close can only answer "not found", never name a newer view.
use vstd::prelude::*;

use crate::engines::ViewportSize;
use crate::{placeholder_pixels, ImageData, ImageInfo};

verus! {

/// Identifier of one live view, stable for the view's lifetime and never
/// reused while the registry lives.
#[derive(Clone, Copy, Debug, Eq, Hash, PartialEq, Structural)]
pub struct ViewId(u64);

impl ViewId {
    /// The position of this id in the issue order.
    pub closed spec fn num(self) -> u64 {
        self.0
    }
}

/// Abstract value of one view record.
#[verifier::ext_equal]
pub ghost struct EntryData {
    pub id: ViewId,
    pub handle: u64,
    pub frame: ImageData,
    pub url: Seq<char>,
    pub title: Seq<char>,
    pub loading: bool,
    pub needs_repaint: bool,
    pub cursor_x: i32,
    pub cursor_y: i32,
}

/// Abstract value of the whole registry: the records in order, the id
/// high-water mark, and the current view.
#[verifier::ext_equal]
pub ghost struct RegistryData {
    pub entries: Seq<EntryData>,
    pub next_id: u64,
    pub current: Option<ViewId>,
}

/// One live view: its identity, the backend handle that names it inside the
/// engine, the last frame shown for it, and the cached metadata the session
/// diffs against on every tick.
pub struct ViewEntry {
    pub(crate) id: ViewId,
    pub(crate) handle: u64,
    pub(crate) last_frame: ImageInfo,
    pub(crate) url: String,
    pub(crate) title: String,
    pub(crate) loading: bool,
    pub(crate) needs_repaint: bool,
    pub(crate) cursor_x: i32,
    pub(crate) cursor_y: i32,
}

impl View for ViewEntry {
    type V = EntryData;

    closed spec fn view(&self) -> EntryData {
        EntryData {
            id: self.id,
            handle: self.handle,
            frame: self.last_frame@,
            url: self.url@,
            title: self.title@,
            loading: self.loading,
            needs_repaint: self.needs_repaint,
            cursor_x: self.cursor_x,
            cursor_y: self.cursor_y,
        }
    }
}

impl ViewEntry {
    pub fn id(&self) -> (r: ViewId)
        ensures
            r == self@.id,
    {
        self.id
    }

    /// The backend handle naming this view inside the engine.
    pub(crate) fn handle(&self) -> (r: u64)
        ensures
            r == self@.handle,
    {
        self.handle
    }

    /// The frame last shown for this view.
    pub fn frame(&self) -> (r: &ImageInfo)
        ensures
            r@ == self@.frame,
    {
        &self.last_frame
    }

    pub fn url(&self) -> (r: &String)
        ensures
            r@ == self@.url,
    {
        &self.url
    }

    pub fn title(&self) -> (r: &String)
        ensures
            r@ == self@.title,
    {
        &self.title
    }

    pub fn is_loading(&self) -> (r: bool)
        ensures
            r == self@.loading,
    {
        self.loading
    }

    pub fn needs_repaint(&self) -> (r: bool)
        ensures
            r == self@.needs_repaint,
    {
        self.needs_repaint
    }

    pub fn cursor_pos(&self) -> (r: (i32, i32))
        ensures
            r.0 == self@.cursor_x && r.1 == self@.cursor_y,
    {
        (self.cursor_x, self.cursor_y)
    }
}

/// Whether some record in `s` carries the id.
pub open spec fn contains_id(s: Seq<EntryData>, id: ViewId) -> bool {
    exists|i: int| 0 <= i < s.len() && s[i].id == id
}

/// The index of the record carrying `id`; meaningful when `contains_id`
/// holds and the ids in `s` are distinct.
pub open spec fn index_of_id(s: Seq<EntryData>, id: ViewId) -> int {
    choose|i: int| 0 <= i < s.len() && s[i].id == id
}

/// The registry invariant: live ids are pairwise distinct, every live id
/// sits below the high-water mark, and the current view, if any, is live.
pub open spec fn registry_wf(d: RegistryData) -> bool {
    &&& forall|i: int, j: int|
        0 <= i < j < d.entries.len() ==> #[trigger] d.entries[i].id != #[trigger] d.entries[j].id
    &&& forall|i: int| 0 <= i < d.entries.len() ==> (#[trigger] d.entries[i].id).num() < d.next_id
    &&& match d.current {
        Some(c) => contains_id(d.entries, c),
        None => true,
    }
}

/// Owns the set of live views. All mutation of a view record goes through
/// this type.
pub struct ViewRegistry {
    entries: Vec<ViewEntry>,
    next_id: u64,
    current: Option<ViewId>,
}

impl View for ViewRegistry {
    type V = RegistryData;

    closed spec fn view(&self) -> RegistryData {
        RegistryData {
            entries: Seq::new(self.entries@.len(), |i: int| self.entries@[i]@),
            next_id: self.next_id,
            current: self.current,
        }
    }
}

impl ViewRegistry {
    /// The registry invariant; see [`registry_wf`].
    pub open spec fn wf(&self) -> bool {
        registry_wf(self@)
    }

    /// An empty registry, with the id counter at zero.
    pub fn new() -> (r: ViewRegistry)
        ensures
            r.wf(),
            r@.entries == Seq::<EntryData>::empty(),
            r@.next_id == 0,
            r@.current is None,
    {
        let r = ViewRegistry { entries: Vec::new(), next_id: 0, current: None };
        proof {
            assert(r@.entries =~= Seq::<EntryData>::empty());
        }
        r
    }

    pub fn len(&self) -> (r: usize)
        ensures
            r == self@.entries.len(),
    {
        self.entries.len()
    }

    /// The record at position `i` in registration order.
    pub fn entry_at(&self, i: usize) -> (r: &ViewEntry)
        requires
            i < self@.entries.len(),
        ensures
            r@ == self@.entries[i as int],
    {
        &self.entries[i]
    }

    /// The currently selected view, if any.
    pub fn current(&self) -> (r: Option<ViewId>)
        ensures
            r == self@.current,
    {
        self.current
    }

    /// Finds the position of the record carrying `id`.
    fn find_index(&self, id: ViewId) -> (r: Option<usize>)
        ensures
            match r {
                Some(i) => i < self@.entries.len() && self@.entries[i as int].id == id,
                None => !contains_id(self@.entries, id),
            },
    {
        let n = self.entries.len();
        let mut i: usize = 0;
        while i < n
            invariant
                i <= n,
                n == self@.entries.len(),
                forall|j: int| 0 <= j < i ==> self@.entries[j].id != id,
            decreases n - i,
        {
            if self.entries[i].id == id {
                return Some(i);
            }
            i = i + 1;
        }
        None
    }

    /// Allocates a fresh id and stores a new record for `handle`, with a
    /// placeholder frame sized to the viewport, empty cached metadata, and
    /// the repaint flag set. Fails only when the id space is exhausted.
    pub fn insert(&mut self, handle: u64, viewport: ViewportSize) -> (r: Option<ViewId>)
        requires
            old(self).wf(),
        ensures
            final(self).wf(),
            match r {
                Some(id) => {
                    &&& id.num() == old(self)@.next_id
                    &&& !contains_id(old(self)@.entries, id)
                    &&& final(self)@.entries == old(self)@.entries.push(
                        EntryData {
                            id,
                            handle,
                            frame: ImageData {
                                pixels: placeholder_pixels(
                                    viewport.spec_width(),
                                    viewport.spec_height(),
                                ),
                                width: viewport.spec_width(),
                                height: viewport.spec_height(),
                            },
                            url: Seq::empty(),
                            title: Seq::empty(),
                            loading: false,
                            needs_repaint: true,
                            cursor_x: 0,
                            cursor_y: 0,
                        },
                    )
                    &&& final(self)@.next_id == old(self)@.next_id + 1
                    &&& final(self)@.current == old(self)@.current
                },
                None => old(self)@.next_id == u64::MAX && final(self)@ == old(self)@,
            },
    {
        if self.next_id == u64::MAX {
            return None;
        }
        let id = ViewId(self.next_id);
        self.next_id = self.next_id + 1;
        let entry = ViewEntry {
            id,
            handle,
            last_frame: blank_for(viewport),
            url: String::new(),
            title: String::new(),
            loading: false,
            needs_repaint: true,
            cursor_x: 0,
            cursor_y: 0,
        };
        let ghost pushed = entry@;
        self.entries.push(entry);
        proof {
            assert(self@.entries =~= old(self)@.entries.push(pushed));
            let pre = old(self)@.entries;
            let post = self@.entries;
            assert forall|p: int, q: int| 0 <= p < q < post.len() implies #[trigger] post[p].id
                != #[trigger] post[q].id by {
                assert(post[p] == pre[p]);
                if q == post.len() - 1 {
                    assert(pre[p].id.num() < old(self)@.next_id);
                } else {
                    assert(post[q] == pre[q]);
                }
            }
            assert forall|k: int| 0 <= k < post.len() implies (#[trigger] post[k].id).num()
                < self@.next_id by {
                if k < post.len() - 1 {
                    assert(post[k] == pre[k]);
                }
            }
            match self@.current {
                Some(c) => {
                    let j = choose|j: int| 0 <= j < pre.len() && pre[j].id == c;
                    assert(post[j] == pre[j]);
                    assert(contains_id(post, c));
                },
                None => {},
            }
            assert(pushed =~= (EntryData {
                id,
                handle,
                frame: ImageData {
                    pixels: placeholder_pixels(viewport.spec_width(), viewport.spec_height()),
                    width: viewport.spec_width(),
                    height: viewport.spec_height(),
                },
                url: Seq::empty(),
                title: Seq::empty(),
                loading: false,
                needs_repaint: true,
                cursor_x: 0,
                cursor_y: 0,
            }));
        }
        Some(id)
    }

    /// Detaches the record carrying `id` and hands back its backend handle,
    /// so the caller can tell the engine to destroy it afterwards — the
    /// registry never exposes the view again once removal begins. Closing
    /// the current view leaves no view current. A stale id is a no-op.
    pub fn remove(&mut self, id: ViewId) -> (r: Option<u64>)
        requires
            old(self).wf(),
        ensures
            final(self).wf(),
            match r {
                Some(h) => {
                    &&& contains_id(old(self)@.entries, id)
                    &&& h == old(self)@.entries[index_of_id(old(self)@.entries, id)].handle
                    &&& final(self)@.entries == old(self)@.entries.remove(
                        index_of_id(old(self)@.entries, id),
                    )
                    &&& !contains_id(final(self)@.entries, id)
                    &&& final(self)@.next_id == old(self)@.next_id
                    &&& final(self)@.current == (if old(self)@.current == Some(id) {
                        None::<ViewId>
                    } else {
                        old(self)@.current
                    })
                },
                None => !contains_id(old(self)@.entries, id) && final(self)@ == old(self)@,
            },
    {
        let i = match self.find_index(id) {
            Some(i) => i,
            None => {
                return None;
            },
        };
        proof {
            lemma_index_unique(self@.entries, id, i as int);
        }
        let entry = self.entries.remove(i);
        let was_current = match self.current {
            Some(c) => c == id,
            None => false,
        };
        if was_current {
            self.current = None;
        }
        proof {
            let pre = old(self)@.entries;
            let post = self@.entries;
            pre.remove_ensures(i as int);
            assert(post =~= pre.remove(i as int));
            assert forall|k: int| 0 <= k < post.len() implies #[trigger] post[k].id != id by {
                if k < i {
                    assert(post[k] == pre[k]);
                } else {
                    assert(post[k] == pre[k + 1]);
                }
            }
            assert forall|p: int, q: int| 0 <= p < q < post.len() implies #[trigger] post[p].id
                != #[trigger] post[q].id by {
                let p0 = if p < i {
                    p
                } else {
                    p + 1
                };
                let q0 = if q < i {
                    q
                } else {
                    q + 1
                };
                assert(post[p] == pre[p0]);
                assert(post[q] == pre[q0]);
                assert(pre[p0].id != pre[q0].id);
            }
            assert forall|k: int| 0 <= k < post.len() implies (#[trigger] post[k].id).num()
                < self@.next_id by {
                if k < i {
                    assert(post[k] == pre[k]);
                } else {
                    assert(post[k] == pre[k + 1]);
                }
            }
            match self@.current {
                Some(c) => {
                    let j = choose|j: int| 0 <= j < pre.len() && pre[j].id == c;
                    if j < i {
                        assert(post[j] == pre[j]);
                        assert(contains_id(post, c));
                    } else {
                        assert(post[j - 1] == pre[j]);
                        assert(contains_id(post, c));
                    }
                },
                None => {},
            }
        }
        Some(entry.handle)
    }

    /// Selects the view the session treats as current; refused for a stale
    /// id.
    pub fn set_current(&mut self, id: ViewId) -> (r: bool)
        requires
            old(self).wf(),
        ensures
            final(self).wf(),
            r == contains_id(old(self)@.entries, id),
            r ==> final(self)@ == (RegistryData { current: Some(id), ..old(self)@ }),
            !r ==> final(self)@ == old(self)@,
    {
        match self.find_index(id) {
            Some(_) => {
                self.current = Some(id);
                proof {
                    assert(self@ =~= (RegistryData { current: Some(id), ..old(self)@ }));
                }
                true
            },
            None => false,
        }
    }

    /// Looks up the record carrying `id`; absence is an expected answer, not
    /// an error.
    pub fn get(&self, id: ViewId) -> (r: Option<&ViewEntry>)
        requires
            self.wf(),
        ensures
            match r {
                Some(e) => contains_id(self@.entries, id) && e@ == self@.entries[index_of_id(
                    self@.entries,
                    id,
                )],
                None => !contains_id(self@.entries, id),
            },
    {
        match self.find_index(id) {
            Some(i) => {
                proof {
                    lemma_index_unique(self@.entries, id, i as int);
                }
                Some(&self.entries[i])
            },
            None => None,
        }
    }
}

/// `e` with its repaint flag replaced.
pub open spec fn with_repaint(e: EntryData, value: bool) -> EntryData {
    EntryData { needs_repaint: value, ..e }
}

/// `e` with its frame replaced.
pub open spec fn with_frame(e: EntryData, frame: ImageData) -> EntryData {
    EntryData { frame, ..e }
}

/// `e` with its cached metadata replaced.
pub open spec fn with_status(e: EntryData, url: Seq<char>, title: Seq<char>, loading: bool) -> EntryData {
    EntryData { url, title, loading, ..e }
}

/// `e` with its tracked pointer position replaced.
pub open spec fn with_cursor(e: EntryData, x: i32, y: i32) -> EntryData {
    EntryData { cursor_x: x, cursor_y: y, ..e }
}

impl ViewRegistry {
    /// Sets the repaint flag of the view carrying `id`; a stale id is a
    /// no-op.
    pub fn mark_needs_repaint(&mut self, id: ViewId, value: bool) -> (r: bool)
        requires
            old(self).wf(),
        ensures
            final(self).wf(),
            r == contains_id(old(self)@.entries, id),
            r ==> final(self)@ == (RegistryData {
                entries: old(self)@.entries.update(
                    index_of_id(old(self)@.entries, id),
                    with_repaint(
                        old(self)@.entries[index_of_id(old(self)@.entries, id)],
                        value,
                    ),
                ),
                ..old(self)@
            }),
            !r ==> final(self)@ == old(self)@,
    {
        let i = match self.find_index(id) {
            Some(i) => i,
            None => {
                return false;
            },
        };
        proof {
            lemma_index_unique(self@.entries, id, i as int);
        }
        let mut e = self.entries.remove(i);
        e.needs_repaint = value;
        let ghost updated = e@;
        let ghost ve = e;
        self.entries.insert(i, e);
        proof {
            let vpre = old(self).entries@;
            vpre.remove_ensures(i as int);
            vpre.remove(i as int).insert_ensures(i as int, ve);
            assert(self@.entries =~= old(self)@.entries.update(i as int, updated));
            lemma_entry_replaced(old(self)@, self@, i as int, updated);
        }
        true
    }

    /// Replaces the stored frame of the view carrying `id`; a stale id is a
    /// no-op.
    pub fn store_frame(&mut self, id: ViewId, frame: ImageInfo) -> (r: bool)
        requires
            old(self).wf(),
        ensures
            final(self).wf(),
            r == contains_id(old(self)@.entries, id),
            r ==> final(self)@ == (RegistryData {
                entries: old(self)@.entries.update(
                    index_of_id(old(self)@.entries, id),
                    with_frame(old(self)@.entries[index_of_id(old(self)@.entries, id)], frame@),
                ),
                ..old(self)@
            }),
            !r ==> final(self)@ == old(self)@,
    {
        let i = match self.find_index(id) {
            Some(i) => i,
            None => {
                return false;
            },
        };
        proof {
            lemma_index_unique(self@.entries, id, i as int);
        }
        let mut e = self.entries.remove(i);
        e.last_frame = frame;
        let ghost updated = e@;
        let ghost ve = e;
        self.entries.insert(i, e);
        proof {
            let vpre = old(self).entries@;
            vpre.remove_ensures(i as int);
            vpre.remove(i as int).insert_ensures(i as int, ve);
            assert(self@.entries =~= old(self)@.entries.update(i as int, updated));
            lemma_entry_replaced(old(self)@, self@, i as int, updated);
        }
        true
    }

    /// Replaces the cached url, title and loading flag of the view carrying
    /// `id`; a stale id is a no-op.
    pub fn store_status(&mut self, id: ViewId, url: String, title: String, loading: bool) -> (r:
        bool)
        requires
            old(self).wf(),
        ensures
            final(self).wf(),
            r == contains_id(old(self)@.entries, id),
            r ==> final(self)@ == (RegistryData {
                entries: old(self)@.entries.update(
                    index_of_id(old(self)@.entries, id),
                    with_status(
                        old(self)@.entries[index_of_id(old(self)@.entries, id)],
                        url@,
                        title@,
                        loading,
                    ),
                ),
                ..old(self)@
            }),
            !r ==> final(self)@ == old(self)@,
    {
        let i = match self.find_index(id) {
            Some(i) => i,
            None => {
                return false;
            },
        };
        proof {
            lemma_index_unique(self@.entries, id, i as int);
        }
        let mut e = self.entries.remove(i);
        e.url = url;
        e.title = title;
        e.loading = loading;
        let ghost updated = e@;
        let ghost ve = e;
        self.entries.insert(i, e);
        proof {
            let vpre = old(self).entries@;
            vpre.remove_ensures(i as int);
            vpre.remove(i as int).insert_ensures(i as int, ve);
            assert(self@.entries =~= old(self)@.entries.update(i as int, updated));
            lemma_entry_replaced(old(self)@, self@, i as int, updated);
        }
        true
    }

    /// Replaces the tracked pointer position of the view carrying `id`; a
    /// stale id is a no-op.
    pub fn set_cursor_pos(&mut self, id: ViewId, x: i32, y: i32) -> (r: bool)
        requires
            old(self).wf(),
        ensures
            final(self).wf(),
            r == contains_id(old(self)@.entries, id),
            r ==> final(self)@ == (RegistryData {
                entries: old(self)@.entries.update(
                    index_of_id(old(self)@.entries, id),
                    with_cursor(old(self)@.entries[index_of_id(old(self)@.entries, id)], x, y),
                ),
                ..old(self)@
            }),
            !r ==> final(self)@ == old(self)@,
    {
        let i = match self.find_index(id) {
            Some(i) => i,
            None => {
                return false;
            },
        };
        proof {
            lemma_index_unique(self@.entries, id, i as int);
        }
        let mut e = self.entries.remove(i);
        e.cursor_x = x;
        e.cursor_y = y;
        let ghost updated = e@;
        let ghost ve = e;
        self.entries.insert(i, e);
        proof {
            let vpre = old(self).entries@;
            vpre.remove_ensures(i as int);
            vpre.remove(i as int).insert_ensures(i as int, ve);
            assert(self@.entries =~= old(self)@.entries.update(i as int, updated));
            lemma_entry_replaced(old(self)@, self@, i as int, updated);
        }
        true
    }

    /// Sets the repaint flag of every live view, as a global resize demands.
    pub fn mark_all_needs_repaint(&mut self)
        requires
            old(self).wf(),
        ensures
            final(self).wf(),
            final(self)@.entries.len() == old(self)@.entries.len(),
            forall|k: int|
                0 <= k < old(self)@.entries.len() ==> final(self)@.entries[k] == with_repaint(
                    #[trigger] old(self)@.entries[k],
                    true,
                ),
            final(self)@.next_id == old(self)@.next_id,
            final(self)@.current == old(self)@.current,
    {
        let n = self.entries.len();
        let mut i: usize = 0;
        while i < n
            invariant
                i <= n,
                n == self@.entries.len(),
                self@.entries.len() == old(self)@.entries.len(),
                forall|k: int|
                    0 <= k < i ==> self@.entries[k] == with_repaint(
                        #[trigger] old(self)@.entries[k],
                        true,
                    ),
                forall|k: int|
                    i <= k < n ==> self@.entries[k] == #[trigger] old(self)@.entries[k],
                self@.next_id == old(self)@.next_id,
                self@.current == old(self)@.current,
            decreases n - i,
        {
            let ghost mid = self@;
            let ghost vmid = self.entries@;
            let mut e = self.entries.remove(i);
            e.needs_repaint = true;
            let ghost updated = e@;
            let ghost ve = e;
            self.entries.insert(i, e);
            proof {
                vmid.remove_ensures(i as int);
                vmid.remove(i as int).insert_ensures(i as int, ve);
                assert(self@.entries =~= mid.entries.update(i as int, updated));
                assert(updated == with_repaint(old(self)@.entries[i as int], true));
            }
            i = i + 1;
        }
        proof {
            lemma_wf_same_ids(old(self)@, self@);
        }
    }
}

/// Replacing one record with one carrying the same id preserves the
/// registry invariant.
proof fn lemma_wf_same_ids(pre: RegistryData, post: RegistryData)
    requires
        registry_wf(pre),
        post.entries.len() == pre.entries.len(),
        forall|k: int|
            0 <= k < pre.entries.len() ==> (#[trigger] post.entries[k]).id == (
            #[trigger] pre.entries[k]).id,
        post.next_id == pre.next_id,
        post.current == pre.current,
    ensures
        registry_wf(post),
{
    assert forall|p: int, q: int| 0 <= p < q < post.entries.len() implies #[trigger] post.entries[p].id
        != #[trigger] post.entries[q].id by {
        assert(post.entries[p].id == pre.entries[p].id);
        assert(post.entries[q].id == pre.entries[q].id);
        assert(pre.entries[p].id != pre.entries[q].id);
    }
    assert forall|k: int| 0 <= k < post.entries.len() implies (#[trigger] post.entries[k].id).num()
        < post.next_id by {
        assert(post.entries[k].id == pre.entries[k].id);
    }
    match post.current {
        Some(c) => {
            let j = choose|j: int| 0 <= j < pre.entries.len() && pre.entries[j].id == c;
            assert(post.entries[j].id == c);
            assert(contains_id(post.entries, c));
        },
        None => {},
    }
}

/// The combined fact the field mutators need: preservation of the invariant
/// and the whole-registry shape of a one-record replacement.
proof fn lemma_entry_replaced(pre: RegistryData, post: RegistryData, i: int, e: EntryData)
    requires
        registry_wf(pre),
        0 <= i < pre.entries.len(),
        post.entries == pre.entries.update(i, e),
        e.id == pre.entries[i].id,
        post.next_id == pre.next_id,
        post.current == pre.current,
    ensures
        registry_wf(post),
        post == (RegistryData { entries: pre.entries.update(i, e), ..pre }),
{
    lemma_wf_same_ids(pre, post);
    assert(post =~= (RegistryData { entries: pre.entries.update(i, e), ..pre }));
}

/// A placeholder frame sized to the viewport.
fn blank_for(viewport: ViewportSize) -> (r: ImageInfo)
    ensures
        r@ == (ImageData {
            pixels: placeholder_pixels(viewport.spec_width(), viewport.spec_height()),
            width: viewport.spec_width(),
            height: viewport.spec_height(),
        }),
{
    proof {
        use_type_invariant(&viewport);
    }
    ImageInfo::blank(viewport.width(), viewport.height())
}

/// When the ids in `s` are distinct, an index holding `id` is the index
/// `index_of_id` names.
pub proof fn lemma_index_unique(s: Seq<EntryData>, id: ViewId, i: int)
    requires
        forall|p: int, q: int| 0 <= p < q < s.len() ==> #[trigger] s[p].id != #[trigger] s[q].id,
        0 <= i < s.len(),
        s[i].id == id,
    ensures
        contains_id(s, id),
        index_of_id(s, id) == i,
{
    assert(contains_id(s, id));
    let j = index_of_id(s, id);
    assert(0 <= j < s.len() && s[j].id == id);
    if i < j {
        assert(s[i].id != s[j].id);
    } else if j < i {
        assert(s[j].id != s[i].id);
    }
}

/// Uniqueness of identities: in a well-formed registry, no two live views
/// share an id.
pub proof fn lemma_ids_unique(d: RegistryData, i: int, j: int)
    requires
        registry_wf(d),
        0 <= i < d.entries.len(),
        0 <= j < d.entries.len(),
        i != j,
    ensures
        d.entries[i].id != d.entries[j].id,
{
}

/// No reuse of identities: every id issued while the high-water mark was at
/// most `mark` sits below `mark`, and [`ViewRegistry::insert`] issues exactly
/// the current mark and raises it, while no operation ever lowers it. So an
/// id seen earlier — live or since removed — can never equal an id issued
/// later.
pub proof fn lemma_no_reuse(mark: u64, stale: ViewId, fresh: ViewId)
    requires
        stale.num() < mark,
        fresh.num() >= mark,
    ensures
        stale != fresh,
{
}

} // verus!
