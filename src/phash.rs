//! Average-hash (aHash) scene descriptor and the perceptual-hash frame filter.

use vstd::prelude::*;

verus! {

/// What the image crate gives for `jpeg` decoded, scaled to `size`×`size` by
/// nearest neighbour and turned to 8-bit grey, row by row (`None` if it cannot decode).
pub uninterp spec fn grey_thumbnail_of(jpeg: Seq<u8>, size: u32) -> Option<Seq<u8>>;

/// Largest hash side for which a thumbnail is made. The image crate allocates
/// the `side`×`side` thumbnail in one piece and aborts the process when that
/// allocation fails, so the side is bounded: 1024 gives a one-mebibyte
/// thumbnail and a hash of a million bits, far above the 16 a scene detector
/// uses. A configuration asking for more is refused at startup.
pub const MAX_HASH_SIZE: u32 = 1024;

/// Relies on the image crate: `ImageReader::with_guessed_format`, `decode`,
/// `DynamicImage::resize_exact` with `FilterType::Nearest` and `to_luma8`, whose
/// result has exactly `size`×`size` one-byte pixels.
#[verifier::external_body]
fn grey_thumbnail(jpeg: &[u8], size: u32) -> (r: Option<Vec<u8>>)
    requires
        size <= MAX_HASH_SIZE,
    ensures
        match grey_thumbnail_of(jpeg@, size) {
            Some(p) => r matches Some(v) && v@ == p && p.len() == size as int * size as int,
            None => r is None,
        },
{
    let img = image::ImageReader::new(std::io::Cursor::new(jpeg)).with_guessed_format().ok()?.decode().ok()?;
    Some(img.resize_exact(size, size, image::imageops::FilterType::Nearest).to_luma8().into_raw())
}

/// Sum of the first `n` pixels.
pub open spec fn pixel_sum(px: Seq<u8>, n: int) -> int
    decreases n,
{
    if n <= 0 {
        0
    } else {
        pixel_sum(px, n - 1) + px[n - 1]
    }
}

/// The aHash of grey pixels: bit `i` is set when pixel `i` is above the mean,
/// that is when `px[i] * len > sum`.
pub open spec fn ahash_bits(px: Seq<u8>) -> Seq<bool> {
    Seq::new(px.len(), |i: int| px[i] * px.len() > pixel_sum(px, px.len() as int))
}

proof fn lemma_pixel_sum_bound(px: Seq<u8>, n: int)
    requires
        0 <= n <= px.len(),
    ensures
        0 <= pixel_sum(px, n) <= 255 * n,
    decreases n,
{
    if n > 0 {
        lemma_pixel_sum_bound(px, n - 1);
    }
}

/// The aHash of a grey image given as its pixels.
pub fn ahash_of_pixels(px: &[u8]) -> (r: Vec<bool>)
    ensures
        r@ == ahash_bits(px@),
{
    let n = px.len();
    let mut sum: u128 = 0;
    let mut i: usize = 0;
    while i < n
        invariant
            n == px@.len(),
            i <= n,
            sum == pixel_sum(px@, i as int),
        decreases n - i,
    {
        proof {
            lemma_pixel_sum_bound(px@, i as int);
            assert(i < 0x1_0000_0000_0000_0000);
        }
        sum = sum + px[i] as u128;
        i = i + 1;
    }
    let mut out: Vec<bool> = Vec::new();
    let mut k: usize = 0;
    while k < n
        invariant
            n == px@.len(),
            k <= n,
            sum == pixel_sum(px@, n as int),
            out@ =~= ahash_bits(px@).subrange(0, k as int),
        decreases n - k,
    {
        proof {
            assert((px[k as int] as int) * (n as int) <= 255 * (n as int)) by (nonlinear_arith)
                requires
                    px[k as int] <= 255,
                    n >= 0,
            ;
        }
        let above = (px[k] as u128) * (n as u128) > sum;
        out.push(above);
        k = k + 1;
    }
    out
}

/// The aHash of a JPEG at `hash_size`×`hash_size`, or `None` when it does not
/// decode or the size is above [`MAX_HASH_SIZE`].
pub fn compute_ahash(jpeg_data: &[u8], hash_size: u32) -> (r: Option<Vec<bool>>)
    ensures
        hash_size > MAX_HASH_SIZE ==> r is None,
        hash_size <= MAX_HASH_SIZE ==> match grey_thumbnail_of(jpeg_data@, hash_size) {
            Some(p) => r matches Some(h) && h@ == ahash_bits(p),
            None => r is None,
        },
{
    if hash_size > MAX_HASH_SIZE {
        return None;
    }
    match grey_thumbnail(jpeg_data, hash_size) {
        Some(px) => Some(ahash_of_pixels(px.as_slice())),
        None => None,
    }
}

/// Number of positions, among the first `n`, where `a` and `b` differ.
pub open spec fn diff_count(a: Seq<bool>, b: Seq<bool>, n: int) -> nat
    decreases n,
{
    if n <= 0 {
        0
    } else {
        diff_count(a, b, n - 1) + if a[n - 1] != b[n - 1] {
            1nat
        } else {
            0nat
        }
    }
}

/// Hamming distance over the common length of two hashes.
pub open spec fn hamming_distance(a: Seq<bool>, b: Seq<bool>) -> nat {
    diff_count(a, b, if a.len() <= b.len() { a.len() as int } else { b.len() as int })
}

proof fn lemma_diff_count_bound(a: Seq<bool>, b: Seq<bool>, n: int)
    requires
        0 <= n,
    ensures
        diff_count(a, b, n) <= n,
    decreases n,
{
    if n > 0 {
        lemma_diff_count_bound(a, b, n - 1);
    }
}

/// The number of positions, over the shorter hash, where two hashes differ
/// (modulo 2^32, as the count is returned in 32 bits).
pub fn hamming(a: &[bool], b: &[bool]) -> (r: u32)
    ensures
        r == hamming_distance(a@, b@) as u32,
{
    let n = if a.len() <= b.len() {
        a.len()
    } else {
        b.len()
    };
    let mut count: usize = 0;
    let mut i: usize = 0;
    while i < n
        invariant
            n <= a@.len(),
            n <= b@.len(),
            n == (if a@.len() <= b@.len() { a@.len() } else { b@.len() }),
            i <= n,
            count == diff_count(a@, b@, i as int),
        decreases n - i,
    {
        proof {
            lemma_diff_count_bound(a@, b@, i as int);
        }
        if a[i] != b[i] {
            count = count + 1;
        }
        i = i + 1;
    }
    count as u32
}

/// Decides, frame by frame, whether a JPEG shows a new scene.
pub trait FrameFilter: Sized {
    /// Whether the filter, in its current state, stores a frame with bytes `jpeg`.
    spec fn store_decision(&self, jpeg: Seq<u8>) -> bool;

    /// Whether `next` is the filter's state after it has seen `jpeg` in this state.
    spec fn next_state(&self, jpeg: Seq<u8>, next: Self) -> bool;

    /// Whether this frame should be stored because the scene changed.
    fn should_store(&mut self, jpeg_data: &[u8]) -> (r: bool)
        ensures
            r == old(self).store_decision(jpeg_data@),
            old(self).next_state(jpeg_data@, *final(self)),
    ;

    /// A short name for logs.
    fn name(&self) -> &str;
}

/// aHash filter: a frame is stored when its hash is farther than `threshold`
/// (in Hamming distance) from that of the last stored frame.
pub struct PHashFilter {
    pub hash_size: u32,
    pub last_hash: Option<Vec<bool>>,
    pub threshold: u32,
}

impl PHashFilter {
    pub fn new(hash_size: u32, threshold: u32) -> (r: Self)
        ensures
            r.hash_size == hash_size,
            r.threshold == threshold,
            r.last_hash is None,
    {
        PHashFilter { hash_size, last_hash: None, threshold }
    }

    /// Hamming distance between two hashes.
    pub fn hamming_distance(a: &[bool], b: &[bool]) -> (r: u32)
        ensures
            r == hamming_distance(a@, b@) as u32,
    {
        hamming(a, b)
    }

    /// The decision for a frame whose hash is `hash`: the first frame is stored,
    /// a later one when its distance to the last stored hash exceeds the threshold;
    /// a stored frame's hash becomes the reference.
    pub fn should_store_hash(&mut self, hash: Vec<bool>) -> (r: bool)
        ensures
            r == match old(self).last_hash {
                None => true,
                Some(prev) => hamming_distance(prev@, hash@) as u32 > old(self).threshold,
            },
            final(self).hash_size == old(self).hash_size,
            final(self).threshold == old(self).threshold,
            r ==> (final(self).last_hash matches Some(h) && h@ == hash@),
            !r ==> final(self).last_hash == old(self).last_hash,
    {
        let accepted = match &self.last_hash {
            None => true,
            Some(prev) => hamming(prev.as_slice(), hash.as_slice()) > self.threshold,
        };
        if accepted {
            self.last_hash = Some(hash);
        }
        accepted
    }
}

/// The aHash of `jpeg` at `size`, when it decodes and the size is allowed.
pub open spec fn frame_hash(jpeg: Seq<u8>, size: u32) -> Option<Seq<bool>> {
    if size > MAX_HASH_SIZE {
        None
    } else {
        match grey_thumbnail_of(jpeg, size) {
            Some(p) => Some(ahash_bits(p)),
            None => None,
        }
    }
}

impl FrameFilter for PHashFilter {
    /// A frame that does not decode is not stored. Otherwise the first frame is
    /// stored, and a later one when its hash lies farther than the threshold from
    /// the last stored hash.
    open spec fn store_decision(&self, jpeg: Seq<u8>) -> bool {
        match frame_hash(jpeg, self.hash_size) {
            None => false,
            Some(h) => match self.last_hash {
                None => true,
                Some(prev) => hamming_distance(prev@, h) as u32 > self.threshold,
            },
        }
    }

    /// A stored frame's hash becomes the reference; nothing else changes.
    open spec fn next_state(&self, jpeg: Seq<u8>, next: Self) -> bool {
        &&& next.hash_size == self.hash_size
        &&& next.threshold == self.threshold
        &&& if self.store_decision(jpeg) {
            next.last_hash matches Some(h) && frame_hash(jpeg, self.hash_size) == Some(h@)
        } else {
            next.last_hash == self.last_hash
        }
    }

    fn should_store(&mut self, jpeg_data: &[u8]) -> (r: bool) {
        match compute_ahash(jpeg_data, self.hash_size) {
            Some(h) => self.should_store_hash(h),
            None => false,
        }
    }

    fn name(&self) -> &str {
        "phash"
    }
}

} // verus!
