//! A verified multi-view browser session core.
//!
//! The library manages the lifecycle of browser-rendered views for a host
//! application: it owns the set of live views, translates host input into a
//! backend's native event vocabulary, schedules repaints, and computes the
//! notifications the host should receive. Concrete rendering backends sit
//! behind the [`engines::Engine`] capability trait; the host's widget toolkit
//! sits outside and exchanges plain values with this crate.
use vstd::prelude::*;

pub mod engines;
pub mod input;
pub mod registry;
pub mod webview;

pub use engines::{Engine, PageType, PixelFormat, ViewportSize};
pub use registry::ViewId;
pub use webview::{Action, Notification, UpdateError, WebView};

verus! {

/// Canonical byte index that position `i` of an RGBA frame reads from in the
/// corresponding BGRA frame: the red and blue channels trade places inside
/// each four-byte pixel, green and alpha stay put.
pub open spec fn swapped_pixel_index(i: int) -> int {
    if i % 4 == 0 {
        i + 2
    } else if i % 4 == 2 {
        i - 2
    } else {
        i
    }
}

/// The RGBA byte sequence equivalent to the BGRA byte sequence `s`.
pub open spec fn bgra_to_rgba(s: Seq<u8>) -> Seq<u8> {
    Seq::new(s.len(), |i: int| s[swapped_pixel_index(i)])
}

/// What a frame's bytes are after canonicalization from `format` to RGBA.
pub open spec fn canonical_pixels(format: PixelFormat, s: Seq<u8>) -> Seq<u8> {
    match format {
        PixelFormat::Rgba => s,
        PixelFormat::Bgra => bgra_to_rgba(s),
    }
}

/// Default frame width used when no viewport has been given yet.
pub const DEFAULT_WIDTH: u32 = 800;

/// Default frame height used when no viewport has been given yet.
pub const DEFAULT_HEIGHT: u32 = 800;

/// The bytes of a `width` by `height` frame with every byte set to `value`.
pub open spec fn solid_pixels(width: u32, height: u32, value: u8) -> Seq<u8> {
    Seq::new((width as int * height as int * 4) as nat, |i: int| value)
}

/// The solid placeholder bytes for a `width` by `height` frame: every channel
/// of every pixel saturated, an opaque white surface.
pub open spec fn placeholder_pixels(width: u32, height: u32) -> Seq<u8> {
    solid_pixels(width, height, 255)
}

/// Abstract value of an [`ImageInfo`]: its canonical RGBA bytes and its size.
#[verifier::ext_equal]
pub ghost struct ImageData {
    pub pixels: Seq<u8>,
    pub width: u32,
    pub height: u32,
}

/// A normalized pixel snapshot of a view: RGBA bytes plus dimensions.
///
/// Every value of this type satisfies the frame invariant
/// `pixels.len() == width * height * 4`; constructors reject inputs that
/// violate it rather than truncating or padding.
#[derive(Debug, PartialEq)]
pub struct ImageInfo {
    pixels: Vec<u8>,
    width: u32,
    height: u32,
}

impl View for ImageInfo {
    type V = ImageData;

    closed spec fn view(&self) -> ImageData {
        ImageData { pixels: self.pixels@, width: self.width, height: self.height }
    }
}

/// A vector of `len` copies of `value`.
fn solid_bytes(len: usize, value: u8) -> (r: Vec<u8>)
    ensures
        r@ == Seq::new(len as nat, |i: int| value),
{
    let mut r: Vec<u8> = Vec::new();
    let mut i: usize = 0;
    while i < len
        invariant
            i <= len,
            r@.len() == i,
            forall|j: int| 0 <= j < i ==> r@[j] == value,
        decreases len - i,
    {
        r.push(value);
        i = i + 1;
    }
    assert(r@ =~= Seq::new(len as nat, |j: int| value));
    r
}

impl ImageInfo {
    /// Invariant of every frame value: the byte length matches the
    /// dimensions.
    #[verifier::type_invariant]
    pub open spec fn wf(self) -> bool {
        self@.pixels.len() == self@.width as int * self@.height as int * 4
    }

    /// The byte length of this frame. Its contract carries the frame
    /// invariant: for every frame in existence, the byte length equals
    /// `width * height * 4`.
    pub fn byte_len(&self) -> (r: usize)
        ensures
            r == self@.pixels.len(),
            r == self@.width as int * self@.height as int * 4,
    {
        proof {
            use_type_invariant(self);
        }
        self.pixels.len()
    }

    /// Builds a frame from backend-native bytes, canonicalizing the pixel
    /// layout to RGBA. Accepts the bytes exactly when their length matches
    /// `width * height * 4`; anything else is rejected, never padded or cut.
    pub fn new(pixels: Vec<u8>, format: PixelFormat, width: u32, height: u32) -> (r: Option<
        ImageInfo,
    >)
        ensures
            r is Some <==> pixels@.len() == width as int * height as int * 4,
            r matches Some(img) ==> img@ == (ImageData {
                pixels: canonical_pixels(format, pixels@),
                width,
                height,
            }),
    {
        proof {
            assert(width as int * height as int <= 0xffff_ffff * 0xffff_ffff)
                by (nonlinear_arith)
                requires
                    width as int <= 0xffff_ffff,
                    height as int <= 0xffff_ffff,
            ;
        }
        let expected: u128 = width as u128 * height as u128 * 4;
        if pixels.len() as u128 != expected {
            return None;
        }
        let canonical: Vec<u8> = match format {
            PixelFormat::Rgba => pixels,
            PixelFormat::Bgra => swap_red_blue(&pixels),
        };
        Some(ImageInfo { pixels: canonical, width, height })
    }

    /// A frame of the given size with every byte set to `value`.
    pub fn solid(width: u32, height: u32, value: u8) -> (r: ImageInfo)
        requires
            width as int * height as int * 4 <= usize::MAX,
        ensures
            r@ == (ImageData { pixels: solid_pixels(width, height, value), width, height }),
    {
        let len: usize = (width as usize) * (height as usize) * 4;
        let pixels = solid_bytes(len, value);
        assert(pixels@ =~= solid_pixels(width, height, value));
        ImageInfo { pixels, width, height }
    }

    /// The solid placeholder frame for the given size: a well-formed,
    /// non-garbage surface shown before a backend has produced pixels.
    pub fn blank(width: u32, height: u32) -> (r: ImageInfo)
        requires
            width as int * height as int * 4 <= usize::MAX,
        ensures
            r@ == (ImageData { pixels: placeholder_pixels(width, height), width, height }),
    {
        ImageInfo::solid(width, height, 255)
    }

    /// The canonical RGBA bytes of this frame.
    pub fn pixels(&self) -> (r: &Vec<u8>)
        ensures
            r@ == self@.pixels,
    {
        &self.pixels
    }

    pub fn width(&self) -> (r: u32)
        ensures
            r == self@.width,
    {
        self.width
    }

    pub fn height(&self) -> (r: u32)
        ensures
            r == self@.height,
    {
        self.height
    }
}

impl Default for ImageInfo {
    /// The placeholder frame at the default dimensions.
    fn default() -> (r: Self)
        ensures
            r@ == (ImageData {
                pixels: placeholder_pixels(DEFAULT_WIDTH, DEFAULT_HEIGHT),
                width: DEFAULT_WIDTH,
                height: DEFAULT_HEIGHT,
            }),
    {
        ImageInfo::blank(DEFAULT_WIDTH, DEFAULT_HEIGHT)
    }
}

impl Clone for ImageInfo {
    /// A clone carries the same bytes and dimensions.
    fn clone(&self) -> (r: Self)
        ensures
            r@ == self@,
    {
        proof {
            use_type_invariant(self);
        }
        let pixels = self.pixels.clone();
        proof {
            assert forall|i: int| 0 <= i < pixels@.len() implies pixels@[i] == self.pixels@[i] by {
                assert(cloned::<u8>(self.pixels@[i], pixels@[i]));
            }
            assert(pixels@ =~= self.pixels@);
        }
        ImageInfo { pixels, width: self.width, height: self.height }
    }
}

/// The BGRA-to-RGBA byte shuffle: within each four-byte pixel the first and
/// third bytes trade places.
fn swap_red_blue(pixels: &Vec<u8>) -> (r: Vec<u8>)
    requires
        pixels@.len() % 4 == 0,
    ensures
        r@ == bgra_to_rgba(pixels@),
{
    let len = pixels.len();
    let mut out: Vec<u8> = Vec::new();
    let mut j: usize = 0;
    while j < len
        invariant
            j % 4 == 0,
            j <= len,
            len == pixels@.len(),
            len % 4 == 0,
            out@.len() == j,
            forall|k: int| 0 <= k < j ==> out@[k] == pixels@[swapped_pixel_index(k)],
        decreases len - j,
    {
        assert(j + 4 <= len) by {
            let d = len - j;
            assert(d % 4 == 0);
            if d < 4 {
                assert(d % 4 == d);
            }
        }
        out.push(pixels[j + 2]);
        out.push(pixels[j + 1]);
        out.push(pixels[j]);
        out.push(pixels[j + 3]);
        assert(forall|k: int| j <= k < j + 4 ==> out@[k] == pixels@[swapped_pixel_index(k)]) by {
            assert((j as int) % 4 == 0);
            assert((j + 1) % 4 == 1);
            assert((j + 2) % 4 == 2);
            assert((j + 3) % 4 == 3);
        }
        j = j + 4;
    }
    assert(j == len);
    assert(out@ =~= bgra_to_rgba(pixels@));
    out
}

/// Canonicalizing a BGRA frame is an involution on the bytes: swapping the
/// red and blue channels twice restores the original sequence.
pub proof fn lemma_bgra_round_trip(s: Seq<u8>)
    requires
        s.len() % 4 == 0,
    ensures
        bgra_to_rgba(bgra_to_rgba(s)) == s,
{
    assert forall|i: int| 0 <= i < s.len() implies bgra_to_rgba(bgra_to_rgba(s))[i] == s[i] by {
        assert(swapped_pixel_index(swapped_pixel_index(i)) == i);
        assert(0 <= swapped_pixel_index(i) < s.len());
    }
    assert(bgra_to_rgba(bgra_to_rgba(s)) =~= s);
}

/// Per pixel, canonicalization from BGRA is exactly a byte swap of the red
/// and blue channels: green and alpha are untouched.
pub proof fn lemma_bgra_pixel_swap(s: Seq<u8>, p: int)
    requires
        0 <= p,
        4 * p + 3 < s.len(),
    ensures
        bgra_to_rgba(s)[4 * p] == s[4 * p + 2],
        bgra_to_rgba(s)[4 * p + 1] == s[4 * p + 1],
        bgra_to_rgba(s)[4 * p + 2] == s[4 * p],
        bgra_to_rgba(s)[4 * p + 3] == s[4 * p + 3],
{
    assert((4 * p) % 4 == 0);
    assert((4 * p + 1) % 4 == 1);
    assert((4 * p + 2) % 4 == 2);
    assert((4 * p + 3) % 4 == 3);
}

} // verus!
