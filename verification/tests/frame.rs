use webview_core::{ImageInfo, PixelFormat, ViewportSize};

#[test]
fn new_rgba_passes_bytes_through() {
    let bytes = vec![1u8, 2, 3, 4, 5, 6, 7, 8];
    let img = ImageInfo::new(bytes.clone(), PixelFormat::Rgba, 2, 1).expect("valid frame");
    assert_eq!(img.pixels(), &bytes);
    assert_eq!(img.width(), 2);
    assert_eq!(img.height(), 1);
}

#[test]
fn new_bgra_swaps_red_and_blue_per_pixel() {
    let bytes = vec![1u8, 2, 3, 4, 5, 6, 7, 8];
    let img = ImageInfo::new(bytes, PixelFormat::Bgra, 2, 1).expect("valid frame");
    assert_eq!(img.pixels(), &vec![3u8, 2, 1, 4, 7, 6, 5, 8]);
}

#[test]
fn new_rejects_wrong_byte_length() {
    assert!(ImageInfo::new(vec![0u8; 5], PixelFormat::Rgba, 1, 1).is_none());
    assert!(ImageInfo::new(vec![0u8; 4], PixelFormat::Rgba, 2, 1).is_none());
    assert!(ImageInfo::new(Vec::new(), PixelFormat::Bgra, 1, 1).is_none());
}

#[test]
fn bgra_canonicalization_round_trips() {
    let bytes = vec![10u8, 20, 30, 40, 50, 60, 70, 80, 90, 100, 110, 120];
    let once = ImageInfo::new(bytes.clone(), PixelFormat::Bgra, 3, 1).expect("valid frame");
    let twice =
        ImageInfo::new(once.pixels().clone(), PixelFormat::Bgra, 3, 1).expect("valid frame");
    assert_eq!(twice.pixels(), &bytes);
}

#[test]
fn blank_is_a_solid_placeholder_of_the_right_size() {
    let img = ImageInfo::blank(2, 3);
    assert_eq!(img.byte_len(), 2 * 3 * 4);
    assert!(img.pixels().iter().all(|&b| b == 255));
}

#[test]
fn solid_fills_every_byte() {
    let img = ImageInfo::solid(1, 1, 9);
    assert_eq!(img.pixels(), &vec![9u8, 9, 9, 9]);
}

#[test]
fn frame_byte_length_matches_dimensions() {
    let img = ImageInfo::new(vec![0u8; 24], PixelFormat::Rgba, 2, 3).expect("valid frame");
    assert_eq!(img.byte_len(), img.width() as usize * img.height() as usize * 4);
}

#[test]
fn default_frame_has_default_dimensions() {
    let img = ImageInfo::default();
    assert_eq!(img.width(), 800);
    assert_eq!(img.height(), 800);
    assert_eq!(img.byte_len(), 800 * 800 * 4);
}

#[test]
fn clone_preserves_bytes_and_size() {
    let img = ImageInfo::new(vec![1u8, 2, 3, 4], PixelFormat::Rgba, 1, 1).expect("valid frame");
    let copy = img.clone();
    assert_eq!(copy, img);
}

#[test]
fn viewport_rejects_unaddressable_sizes() {
    assert!(ViewportSize::new(4, 4).is_some());
    assert!(ViewportSize::new(u32::MAX, u32::MAX).is_none());
}

#[test]
fn viewport_reports_its_frame_bytes() {
    let vp = ViewportSize::new(10, 20).expect("small viewport");
    assert_eq!(vp.width(), 10);
    assert_eq!(vp.height(), 20);
    assert_eq!(vp.frame_bytes(), 10 * 20 * 4);
}
