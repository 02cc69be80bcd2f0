//! A deterministic in-process backend for exercising the session core
//! without a real browser engine: loads complete after a configurable
//! number of `advance` calls, painted frames are solid surfaces a test can
//! tell apart from the placeholder, and delivered input is counted.
use vstd::pervasive::VecAdditionalExecFns;
use vstd::prelude::*;

use super::{BackendView, CursorKind, Engine, EngineError, PageType, ViewportSize};
use crate::input::{EngineKeyEvent, EngineMouseEvent};
use crate::ImageInfo;

verus! {

/// The byte every painted test frame is filled with. It differs from the
/// placeholder's fill, so a painted frame is distinguishable from the
/// placeholder.
pub const TEST_PAINT_FILL: u8 = 7;

struct TestView {
    url: String,
    title: String,
    pending: Option<PageType>,
    loading: bool,
    load_ticks: u32,
    frame_ready: bool,
    frame: ImageInfo,
    cursor: CursorKind,
}

/// What one live slot contributes to the engine's abstract state.
spec fn slot_view(tv: TestView) -> BackendView {
    BackendView {
        url: tv.url@,
        title: tv.title@,
        loading: tv.loading,
        frame_ready: tv.frame_ready,
        frame: tv.frame@,
        cursor: tv.cursor,
    }
}

/// The deterministic test backend. Handles are slot indices; a destroyed
/// view leaves its slot empty, so handles are never reused.
pub struct Test {
    slots: Vec<Option<TestView>>,
    viewport: ViewportSize,
    fail_next_create: bool,
    load_delay: u32,
    events: u64,
    focused: bool,
}

impl Test {
    /// A backend with no views, completing each load after one `advance`.
    pub fn new(viewport: ViewportSize) -> (r: Test)
        ensures
            r.views() == Map::<u64, BackendView>::empty(),
    {
        let r = Test {
            slots: Vec::new(),
            viewport,
            fail_next_create: false,
            load_delay: 1,
            events: 0,
            focused: false,
        };
        proof {
            assert(r.views() =~= Map::<u64, BackendView>::empty());
        }
        r
    }

    /// Makes the next `create_view` fail, as an exhausted backend would.
    pub fn set_fail_next_create(&mut self, value: bool)
        ensures
            final(self).views() == old(self).views(),
    {
        self.fail_next_create = value;
        proof {
            assert(self.views() =~= old(self).views());
        }
    }

    /// Sets how many `advance` calls a load stays in progress for.
    pub fn set_load_delay(&mut self, ticks: u32)
        ensures
            final(self).views() == old(self).views(),
    {
        self.load_delay = ticks;
        proof {
            assert(self.views() =~= old(self).views());
        }
    }

    pub closed spec fn spec_events(&self) -> u64 {
        self.events
    }

    /// How many input events have been delivered to this backend.
    pub fn events_delivered(&self) -> (r: u64)
        ensures
            r == self.spec_events(),
    {
        self.events
    }

    pub closed spec fn spec_focused(&self) -> bool {
        self.focused
    }

    /// Whether the backend currently holds the focus hint.
    pub fn is_focused(&self) -> (r: bool)
        ensures
            r == self.spec_focused(),
    {
        self.focused
    }

    /// The url a load of `target` settles on.
    fn target_url(target: &Option<PageType>) -> (r: String)
    {
        match target {
            Some(PageType::Url(u)) => u.clone(),
            Some(PageType::Html(_)) => "about:blank".to_owned(),
            None => "about:blank".to_owned(),
        }
    }
}

/// Replacing one slot, live or empty staying as it was, leaves the abstract
/// state of every other handle unchanged.
proof fn lemma_slot_replaced(pre: Test, post: Test, i: int)
    requires
        0 <= i < pre.slots@.len(),
        post.slots@.len() == pre.slots@.len(),
        forall|k: int| 0 <= k < pre.slots@.len() && k != i ==> post.slots@[k] == pre.slots@[k],
        (post.slots@[i] is Some) == (pre.slots@[i] is Some),
    ensures
        post.views().dom() == pre.views().dom(),
        forall|h2: u64|
            pre.views().dom().contains(h2) && h2 as int != i ==> #[trigger] post.views()[h2]
                == pre.views()[h2],
{
    assert(post.views().dom() =~= pre.views().dom());
    assert forall|h2: u64|
        pre.views().dom().contains(h2) && h2 as int != i implies #[trigger] post.views()[h2]
        == pre.views()[h2] by {
        assert(post.slots@[h2 as int] == pre.slots@[h2 as int]);
    }
}

impl Engine for Test {
    closed spec fn views(&self) -> Map<u64, BackendView> {
        Map::new(
            |h: u64| (h as int) < self.slots@.len() && self.slots@[h as int] is Some,
            |h: u64| slot_view(self.slots@[h as int]->0),
        )
    }

    fn create_view(&mut self, viewport: ViewportSize, content: Option<PageType>) -> (r: Result<
        u64,
        EngineError,
    >) {
        if self.fail_next_create {
            self.fail_next_create = false;
            proof {
                assert(self.views() =~= old(self).views());
            }
            return Err(EngineError::CreateFailed);
        }
        self.viewport = viewport;
        let h = self.slots.len();
        let loading = content.is_some();
        proof {
            use_type_invariant(&viewport);
        }
        let tv = TestView {
            url: String::new(),
            title: String::new(),
            pending: content,
            loading,
            load_ticks: self.load_delay,
            frame_ready: false,
            frame: ImageInfo::blank(viewport.width(), viewport.height()),
            cursor: CursorKind::Idle,
        };
        self.slots.push(Some(tv));
        let hh = h as u64;
        proof {
            assert(!old(self).views().dom().contains(hh));
            assert(self.views().dom() =~= old(self).views().dom().insert(hh));
            assert forall|h2: u64|
                old(self).views().dom().contains(h2) && h2 != hh implies #[trigger] self.views()[h2]
                == old(self).views()[h2] by {
                assert(self.slots@[h2 as int] == old(self).slots@[h2 as int]);
            }
        }
        Ok(hh)
    }

    fn destroy_view(&mut self, handle: u64) {
        let n = self.slots.len();
        proof {
            assert(self.views().dom().contains(handle));
            assert(self.slots@[handle as int] is Some);
            assert((handle as int) < (n as int));
        }
        let i = handle as usize;
        proof {
            assert(i as int == handle as int);
        }
        self.slots.set(i, None);
        proof {
            assert(self.views() =~= old(self).views().remove(handle));
        }
    }

    fn navigate(&mut self, handle: u64, target: PageType) {
        let n = self.slots.len();
        proof {
            assert(self.views().dom().contains(handle));
            assert(self.slots@[handle as int] is Some);
            assert((handle as int) < (n as int));
        }
        let i = handle as usize;
        proof {
            assert(i as int == handle as int);
        }
        let delay = self.load_delay;
        let new_tv = match &self.slots[i] {
            Some(tv) => TestView {
                url: tv.url.clone(),
                title: tv.title.clone(),
                pending: Some(target),
                loading: true,
                load_ticks: delay,
                frame_ready: tv.frame_ready,
                frame: tv.frame.clone(),
                cursor: tv.cursor,
            },
            None => unreached(),
        };
        self.slots.set(i, Some(new_tv));
        proof {
            lemma_slot_replaced(*old(self), *self, i as int);
            assert(self.views()[handle].loading);
        }
    }

    fn resize(&mut self, viewport: ViewportSize) {
        self.viewport = viewport;
        proof {
            assert(self.views() =~= old(self).views());
        }
    }

    fn advance(&mut self) {
        let n = self.slots.len();
        let mut i: usize = 0;
        while i < n
            invariant
                i <= n,
                n == self.slots@.len(),
                self.slots@.len() == old(self).slots@.len(),
                forall|k: int|
                    0 <= k < n ==> (#[trigger] self.slots@[k] is Some) == (old(self).slots@[k]
                        is Some),
                self.viewport == old(self).viewport,
            decreases n - i,
        {
            let ghost mid = *self;
            let viewport = self.viewport;
            let update: Option<TestView> = match &self.slots[i] {
                Some(tv) => if tv.loading {
                    if tv.load_ticks == 0 {
                        let url = Test::target_url(&tv.pending);
                        let title = url.clone();
                        proof {
                            use_type_invariant(&viewport);
                        }
                        Some(
                            TestView {
                                url,
                                title,
                                pending: None,
                                loading: false,
                                load_ticks: 0,
                                frame_ready: true,
                                frame: ImageInfo::solid(
                                    viewport.width(),
                                    viewport.height(),
                                    TEST_PAINT_FILL,
                                ),
                                cursor: CursorKind::Idle,
                            },
                        )
                    } else {
                        Some(
                            TestView {
                                url: tv.url.clone(),
                                title: tv.title.clone(),
                                pending: match &tv.pending {
                                    Some(p) => Some(p.clone()),
                                    None => None,
                                },
                                loading: true,
                                load_ticks: tv.load_ticks - 1,
                                frame_ready: tv.frame_ready,
                                frame: tv.frame.clone(),
                                cursor: tv.cursor,
                            },
                        )
                    }
                } else {
                    None
                },
                None => None,
            };
            match update {
                Some(tv) => {
                    self.slots.set(i, Some(tv));
                },
                None => {},
            }
            i = i + 1;
        }
        proof {
            assert(self.views().dom() =~= old(self).views().dom());
        }
    }

    fn paint(&mut self, handle: u64) -> (r: Option<ImageInfo>) {
        let n = self.slots.len();
        proof {
            assert(self.views().dom().contains(handle));
            assert(self.slots@[handle as int] is Some);
            assert((handle as int) < (n as int));
        }
        let i = handle as usize;
        proof {
            assert(i as int == handle as int);
        }
        let produced: Option<(ImageInfo, TestView)> = match &self.slots[i] {
            Some(tv) => if !tv.loading && tv.frame_ready {
                Some(
                    (
                        tv.frame.clone(),
                        TestView {
                            url: tv.url.clone(),
                            title: tv.title.clone(),
                            pending: None,
                            loading: tv.loading,
                            load_ticks: tv.load_ticks,
                            frame_ready: false,
                            frame: tv.frame.clone(),
                            cursor: tv.cursor,
                        },
                    ),
                )
            } else {
                None
            },
            None => unreached(),
        };
        match produced {
            Some((out, tv)) => {
                self.slots.set(i, Some(tv));
                proof {
                    lemma_slot_replaced(*old(self), *self, i as int);
                    assert(self.views()[handle] == (BackendView {
                        frame_ready: self.views()[handle].frame_ready,
                        ..old(self).views()[handle]
                    }));
                    assert(out@ == old(self).views()[handle].frame);
                }
                Some(out)
            },
            None => None,
        }
    }

    fn is_loading(&self, handle: u64) -> (r: bool) {
        let n = self.slots.len();
        proof {
            assert(self.views().dom().contains(handle));
            assert(self.slots@[handle as int] is Some);
            assert((handle as int) < (n as int));
        }
        let i = handle as usize;
        proof {
            assert(i as int == handle as int);
        }
        match &self.slots[i] {
            Some(tv) => tv.loading,
            None => unreached(),
        }
    }

    fn has_new_frame(&self, handle: u64) -> (r: bool) {
        let n = self.slots.len();
        proof {
            assert(self.views().dom().contains(handle));
            assert(self.slots@[handle as int] is Some);
            assert((handle as int) < (n as int));
        }
        let i = handle as usize;
        proof {
            assert(i as int == handle as int);
        }
        match &self.slots[i] {
            Some(tv) => tv.frame_ready,
            None => unreached(),
        }
    }

    fn get_url(&self, handle: u64) -> (r: String) {
        let n = self.slots.len();
        proof {
            assert(self.views().dom().contains(handle));
            assert(self.slots@[handle as int] is Some);
            assert((handle as int) < (n as int));
        }
        let i = handle as usize;
        proof {
            assert(i as int == handle as int);
        }
        match &self.slots[i] {
            Some(tv) => tv.url.clone(),
            None => unreached(),
        }
    }

    fn get_title(&self, handle: u64) -> (r: String) {
        let n = self.slots.len();
        proof {
            assert(self.views().dom().contains(handle));
            assert(self.slots@[handle as int] is Some);
            assert((handle as int) < (n as int));
        }
        let i = handle as usize;
        proof {
            assert(i as int == handle as int);
        }
        match &self.slots[i] {
            Some(tv) => tv.title.clone(),
            None => unreached(),
        }
    }

    fn get_cursor_hint(&self, handle: u64) -> (r: CursorKind) {
        let n = self.slots.len();
        proof {
            assert(self.views().dom().contains(handle));
            assert(self.slots@[handle as int] is Some);
            assert((handle as int) < (n as int));
        }
        let i = handle as usize;
        proof {
            assert(i as int == handle as int);
        }
        match &self.slots[i] {
            Some(tv) => tv.cursor,
            None => unreached(),
        }
    }

    fn deliver_key_event(&mut self, handle: u64, event: EngineKeyEvent) {
        self.events = self.events.saturating_add(1);
        proof {
            assert(self.views() =~= old(self).views());
        }
    }

    fn deliver_pointer_event(&mut self, handle: u64, event: EngineMouseEvent) {
        self.events = self.events.saturating_add(1);
        proof {
            assert(self.views() =~= old(self).views());
        }
    }

    fn deliver_scroll_event(&mut self, handle: u64, dx: i32, dy: i32) {
        self.events = self.events.saturating_add(1);
        proof {
            assert(self.views() =~= old(self).views());
        }
    }

    fn go_back(&mut self, handle: u64) {
        self.events = self.events.saturating_add(1);
        proof {
            assert(self.views() =~= old(self).views());
        }
    }

    fn go_forward(&mut self, handle: u64) {
        self.events = self.events.saturating_add(1);
        proof {
            assert(self.views() =~= old(self).views());
        }
    }

    fn reload(&mut self, handle: u64) {
        self.events = self.events.saturating_add(1);
        proof {
            assert(self.views() =~= old(self).views());
        }
    }

    fn focus(&mut self) {
        self.focused = true;
        proof {
            assert(self.views() =~= old(self).views());
        }
    }

    fn unfocus(&mut self) {
        self.focused = false;
        proof {
            assert(self.views() =~= old(self).views());
        }
    }
}

} // verus!
