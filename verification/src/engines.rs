//! The capability boundary between the session core and a rendering backend:
//! the value types that cross it, and the `Engine` contract every backend
//! must satisfy.
use vstd::prelude::*;

use crate::input::{EngineKeyEvent, EngineMouseEvent};
use crate::{ImageData, ImageInfo};

pub mod test;

verus! {

/// The two ways to populate a view's content: a URL to fetch, or literal
/// markup handed to the backend directly.
#[derive(Clone, Debug, Eq, PartialEq)]
pub enum PageType {
    /// A web address for the backend to load.
    Url(String),
    /// Literal markup for the backend to display.
    Html(String),
}

/// Pixel layouts a backend may hand back; frames are canonicalized to RGBA.
#[derive(Clone, Copy, Debug, Eq, PartialEq, Structural)]
pub enum PixelFormat {
    /// Red, green, blue, alpha byte order.
    Rgba,
    /// Blue, green, red, alpha byte order.
    Bgra,
}

/// The process-wide rendering size. One session renders all views at one
/// size; per-view sizing is not supported.
///
/// Construction goes through [`ViewportSize::new`], which rejects sizes whose
/// pixel buffers could not be addressed on this machine, so every value of
/// this type can have a frame allocated for it.
#[derive(Clone, Copy, Debug, Eq, PartialEq, Structural)]
pub struct ViewportSize {
    width: u32,
    height: u32,
}

impl ViewportSize {
    /// The byte length of one RGBA frame at this size.
    pub open spec fn byte_len(self) -> int {
        self.spec_width() as int * self.spec_height() as int * 4
    }

    /// Invariant of every viewport value: its frame fits in a
    /// `usize`-addressed buffer.
    #[verifier::type_invariant]
    pub open spec fn wf(self) -> bool {
        self.byte_len() <= usize::MAX
    }

    /// Accepts a size exactly when a `width * height * 4`-byte frame fits in
    /// a `usize`-addressed buffer.
    pub fn new(width: u32, height: u32) -> (r: Option<ViewportSize>)
        ensures
            match r {
                Some(v) => v.spec_width() == width && v.spec_height() == height,
                None => width as int * height as int * 4 > usize::MAX,
            },
    {
        proof {
            assert(width as int * height as int <= 0xffff_ffff * 0xffff_ffff)
                by (nonlinear_arith)
                requires
                    width as int <= 0xffff_ffff,
                    height as int <= 0xffff_ffff,
            ;
        }
        let bytes: u128 = width as u128 * height as u128 * 4;
        if bytes <= usize::MAX as u128 {
            Some(ViewportSize { width, height })
        } else {
            None
        }
    }

    pub closed spec fn spec_width(self) -> u32 {
        self.width
    }

    pub closed spec fn spec_height(self) -> u32 {
        self.height
    }

    pub fn width(&self) -> (r: u32)
        ensures
            r == self.spec_width(),
    {
        self.width
    }

    pub fn height(&self) -> (r: u32)
        ensures
            r == self.spec_height(),
    {
        self.height
    }

    /// The byte length of one RGBA frame at this size, which the type's
    /// construction guarantees to fit in a `usize`.
    pub fn frame_bytes(&self) -> (r: usize)
        ensures
            r == self.byte_len(),
    {
        proof {
            use_type_invariant(self);
        }
        (self.width as usize) * (self.height as usize) * 4
    }
}

/// The pointer-icon hint a backend reports for a view.
#[derive(Clone, Copy, Debug, Eq, PartialEq, Structural)]
pub enum CursorKind {
    Idle,
    Pointer,
    Text,
    Grab,
    Crosshair,
    Working,
    ResizeVertical,
    ResizeHorizontal,
    NotAllowed,
    ZoomIn,
}

/// A backend's answer when it cannot create a view.
#[derive(Clone, Copy, Debug, Eq, PartialEq, Structural)]
pub enum EngineError {
    /// The backend could not allocate resources for the view.
    CreateFailed,
}

/// Abstract state of one backend view, as the `Engine` contract speaks of
/// it: the live metadata, whether a fresh frame is on offer, and the pixels
/// a paint would return.
#[verifier::ext_equal]
pub ghost struct BackendView {
    pub url: Seq<char>,
    pub title: Seq<char>,
    pub loading: bool,
    pub frame_ready: bool,
    pub frame: ImageData,
    pub cursor: CursorKind,
}

/// The capability contract every rendering backend must satisfy. The session
/// core drives backends only through this seam, so backends are
/// interchangeable.
///
/// Handles obey one discipline, enforced a layer up by the registry: every
/// per-view call takes a handle from a still-live `create_view` on the same
/// engine, so each such method may require its handle to be live. Loading
/// and rendering are asynchronous: `advance` pumps the backend and may
/// change any view's metadata, while the delivery calls only queue work,
/// whose effects surface at a later `advance` or `paint`.
pub trait Engine: Sized {
    /// The backend's views, by handle.
    spec fn views(&self) -> Map<u64, BackendView>;

    /// Allocates backend state for a new view sized to `viewport`; when
    /// `content` is given, begins loading it. On success the handle is
    /// fresh and other views are untouched; on failure the backend is
    /// unchanged.
    fn create_view(&mut self, viewport: ViewportSize, content: Option<PageType>) -> (r: Result<
        u64,
        EngineError,
    >)
        ensures
            match r {
                Ok(h) => {
                    &&& !old(self).views().dom().contains(h)
                    &&& final(self).views().dom() == old(self).views().dom().insert(h)
                    &&& forall|h2: u64|
                        old(self).views().dom().contains(h2) && h2 != h ==> #[trigger] final(self).views()[h2] == old(self).views()[h2]
                },
                Err(_) => final(self).views() == old(self).views(),
            },
    ;

    /// Releases all backend resources of the view; the handle is dead
    /// afterwards.
    fn destroy_view(&mut self, handle: u64)
        requires
            old(self).views().dom().contains(handle),
        ensures
            final(self).views() == old(self).views().remove(handle),
    ;

    /// Begins loading `target`, replacing the view's content, and sets its
    /// loading state; the new url and title surface asynchronously.
    fn navigate(&mut self, handle: u64, target: PageType)
        requires
            old(self).views().dom().contains(handle),
        ensures
            final(self).views().dom() == old(self).views().dom(),
            forall|h2: u64|
                old(self).views().dom().contains(h2) && h2 != handle ==> #[trigger] final(self).views()[h2] == old(self).views()[h2],
            final(self).views()[handle].loading,
    ;

    /// Applies a new rendering size to all live views; the resized frames
    /// surface at later paints.
    fn resize(&mut self, viewport: ViewportSize)
        ensures
            final(self).views() == old(self).views(),
    ;

    /// Pumps the backend's internal processing one step. Cheap to call every
    /// tick; any view's metadata and frame may change, but no view appears
    /// or disappears.
    fn advance(&mut self)
        ensures
            final(self).views().dom() == old(self).views().dom(),
    ;

    /// Produces the view's current pixels if the backend has a frame to
    /// offer, and nothing otherwise — the caller keeps its previous frame
    /// then. Only the view's own frame-ready state may change.
    fn paint(&mut self, handle: u64) -> (r: Option<ImageInfo>)
        requires
            old(self).views().dom().contains(handle),
        ensures
            final(self).views().dom() == old(self).views().dom(),
            forall|h2: u64|
                old(self).views().dom().contains(h2) && h2 != handle ==> #[trigger] final(self).views()[h2] == old(self).views()[h2],
            final(self).views()[handle] == (BackendView {
                frame_ready: final(self).views()[handle].frame_ready,
                ..old(self).views()[handle]
            }),
            r matches Some(f) ==> f@ == old(self).views()[handle].frame,
    ;

    /// Whether the view is still loading content.
    fn is_loading(&self, handle: u64) -> (r: bool)
        requires
            self.views().dom().contains(handle),
        ensures
            r == self.views()[handle].loading,
    ;

    /// Whether the backend has a new frame on offer for the view.
    fn has_new_frame(&self, handle: u64) -> (r: bool)
        requires
            self.views().dom().contains(handle),
        ensures
            r == self.views()[handle].frame_ready,
    ;

    /// The view's current url; empty before anything has loaded.
    fn get_url(&self, handle: u64) -> (r: String)
        requires
            self.views().dom().contains(handle),
        ensures
            r@ == self.views()[handle].url,
    ;

    /// The view's current title; empty before anything has loaded.
    fn get_title(&self, handle: u64) -> (r: String)
        requires
            self.views().dom().contains(handle),
        ensures
            r@ == self.views()[handle].title,
    ;

    /// The pointer-icon hint for the view.
    fn get_cursor_hint(&self, handle: u64) -> (r: CursorKind)
        requires
            self.views().dom().contains(handle),
        ensures
            r == self.views()[handle].cursor,
    ;

    /// Queues a translated keyboard event; its effects surface at a later
    /// `advance` or `paint`.
    fn deliver_key_event(&mut self, handle: u64, event: EngineKeyEvent)
        requires
            old(self).views().dom().contains(handle),
        ensures
            final(self).views() == old(self).views(),
    ;

    /// Queues a translated pointer event; its effects surface at a later
    /// `advance` or `paint`.
    fn deliver_pointer_event(&mut self, handle: u64, event: EngineMouseEvent)
        requires
            old(self).views().dom().contains(handle),
        ensures
            final(self).views() == old(self).views(),
    ;

    /// Queues a scroll by pixel deltas; its effects surface at a later
    /// `advance` or `paint`.
    fn deliver_scroll_event(&mut self, handle: u64, dx: i32, dy: i32)
        requires
            old(self).views().dom().contains(handle),
        ensures
            final(self).views() == old(self).views(),
    ;

    /// Moves back in the view's history; a no-op when the history is empty
    /// in that direction. The moved-to page surfaces asynchronously.
    fn go_back(&mut self, handle: u64)
        requires
            old(self).views().dom().contains(handle),
        ensures
            final(self).views() == old(self).views(),
    ;

    /// Moves forward in the view's history; a no-op when the history is
    /// empty in that direction. The moved-to page surfaces asynchronously.
    fn go_forward(&mut self, handle: u64)
        requires
            old(self).views().dom().contains(handle),
        ensures
            final(self).views() == old(self).views(),
    ;

    /// Reloads the view's current content; the effects surface
    /// asynchronously.
    fn reload(&mut self, handle: u64)
        requires
            old(self).views().dom().contains(handle),
        ensures
            final(self).views() == old(self).views(),
    ;

    /// Hints that the session's views have keyboard focus.
    fn focus(&mut self)
        ensures
            final(self).views() == old(self).views(),
    ;

    /// Hints that the session's views lost keyboard focus.
    fn unfocus(&mut self)
        ensures
            final(self).views() == old(self).views(),
    ;
}

} // verus!
