use frame_bucket::phash::{ahash_of_pixels, compute_ahash, hamming, FrameFilter, PHashFilter};

fn encode_jpeg(w: u32, h: u32, f: impl Fn(u32, u32) -> u8) -> Vec<u8> {
    let img = image::GrayImage::from_fn(w, h, |x, y| image::Luma([f(x, y)]));
    let mut out = std::io::Cursor::new(Vec::new());
    image::DynamicImage::ImageLuma8(img)
        .write_to(&mut out, image::ImageFormat::Jpeg)
        .unwrap();
    out.into_inner()
}

#[test]
fn hamming_counts_over_common_length() {
    assert_eq!(hamming(&[true, false, true], &[false, false, false, true]), 2);
    assert_eq!(hamming(&[], &[true]), 0);
    assert_eq!(PHashFilter::hamming_distance(&[true, true], &[false, false]), 2);
}

#[test]
fn ahash_bits_above_mean() {
    assert_eq!(ahash_of_pixels(&[0, 10, 20, 30]), vec![false, false, true, true]);
    assert_eq!(ahash_of_pixels(&[5, 5, 5]), vec![false, false, false]);
}

#[test]
fn ahash_of_a_real_jpeg() {
    let jpeg = encode_jpeg(64, 64, |x, _| if x < 32 { 0 } else { 255 });
    let h = compute_ahash(&jpeg, 16).unwrap();
    assert_eq!(h.len(), 256);
    assert!(!h[0]);
    assert!(h[15]);
    assert!(compute_ahash(&[1, 2, 3], 16).is_none());
}

#[test]
fn phash_filter_stores_changes_only() {
    let grey = encode_jpeg(320, 240, |_, _| 128);
    let split = encode_jpeg(320, 240, |x, _| if x < 160 { 0 } else { 255 });
    let mut f = PHashFilter::new(16, 26);
    assert_eq!(f.name(), "phash");
    assert!(f.should_store(&grey));
    assert!(!f.should_store(&grey));
    assert!(f.should_store(&split));
    assert!(!f.should_store(&[0, 1, 2]));
}

#[test]
fn oversized_hash_is_refused() {
    let jpeg = encode_jpeg(8, 8, |_, _| 10);
    assert!(compute_ahash(&jpeg, 5000).is_none());
    assert_eq!(compute_ahash(&jpeg, 4).unwrap().len(), 16);
}
