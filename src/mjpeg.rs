//! Incremental parser for a `multipart/x-mixed-replace; boundary=frame` MJPEG stream.
//!
//! The parser reads one byte at a time through three states: it seeks the
//! boundary `--frame\r\n`, then the end of the part headers `\r\n\r\n`, then
//! collects JPEG bytes up to the next boundary (less a trailing `\r\n`). Only the
//! last few bytes are kept while a marker is sought, so state stays bounded when
//! no boundary ever comes; and since the parser works byte by byte, how the
//! stream is cut into chunks does not change what it yields.

use vstd::prelude::*;

verus! {

/// Which marker the parser is looking for.
#[derive(Debug, Clone, Copy, PartialEq, Eq, Structural)]
pub enum ParseState {
    SeekingBoundary,
    SeekingHeaderEnd,
    CollectingJpeg,
}

/// `--frame\r\n`
pub open spec fn boundary() -> Seq<u8> {
    seq![45u8, 45u8, 102u8, 114u8, 97u8, 109u8, 101u8, 13u8, 10u8]
}

/// `\r\n\r\n`
pub open spec fn header_end() -> Seq<u8> {
    seq![13u8, 10u8, 13u8, 10u8]
}

pub open spec fn ends_with(b: Seq<u8>, suffix: Seq<u8>) -> bool {
    crate::bytes::ends_with(b, suffix)
}

/// The JPEG carried by a part body: the body less one trailing `\r\n`, if present.
pub open spec fn jpeg_of(body: Seq<u8>) -> Seq<u8> {
    if body.len() >= 2 && body[body.len() - 2] == 13 && body[body.len() - 1] == 10 {
        body.subrange(0, body.len() - 2)
    } else {
        body
    }
}

/// The last `n` bytes of `b` (all of `b` when it is shorter).
pub open spec fn keep_last(b: Seq<u8>, n: nat) -> Seq<u8> {
    if b.len() > n {
        b.subrange(b.len() - n, b.len() as int)
    } else {
        b
    }
}

/// Model of the parser: its state and the bytes it holds.
pub struct MjpegView {
    pub state: ParseState,
    pub buf: Seq<u8>,
}

/// One byte of input: the next parser state, and the JPEG it completes, if any.
pub open spec fn mjpeg_step(s: MjpegView, b: u8) -> (MjpegView, Option<Seq<u8>>) {
    let buf = s.buf.push(b);
    match s.state {
        ParseState::SeekingBoundary => {
            if ends_with(buf, boundary()) {
                (MjpegView { state: ParseState::SeekingHeaderEnd, buf: Seq::empty() }, None)
            } else {
                (MjpegView { state: ParseState::SeekingBoundary, buf: keep_last(buf, 9) }, None)
            }
        },
        ParseState::SeekingHeaderEnd => {
            if ends_with(buf, header_end()) {
                (MjpegView { state: ParseState::CollectingJpeg, buf: Seq::empty() }, None)
            } else {
                (MjpegView { state: ParseState::SeekingHeaderEnd, buf: keep_last(buf, 4) }, None)
            }
        },
        ParseState::CollectingJpeg => {
            if ends_with(buf, boundary()) {
                let jpeg = jpeg_of(buf.subrange(0, buf.len() - 9));
                (
                    MjpegView { state: ParseState::SeekingHeaderEnd, buf: Seq::empty() },
                    if jpeg.len() > 0 {
                        Some(jpeg)
                    } else {
                        None
                    },
                )
            } else {
                (MjpegView { state: ParseState::CollectingJpeg, buf }, None)
            }
        },
    }
}

pub open spec fn opt_to_seq(o: Option<Seq<u8>>) -> Seq<Seq<u8>> {
    match o {
        Some(j) => seq![j],
        None => Seq::empty(),
    }
}

/// The parser state after reading `bytes` from `s`, and the JPEGs completed on the way.
pub open spec fn mjpeg_run(s: MjpegView, bytes: Seq<u8>) -> (MjpegView, Seq<Seq<u8>>)
    decreases bytes.len(),
{
    if bytes.len() == 0 {
        (s, Seq::empty())
    } else {
        let (s1, o1) = mjpeg_run(s, bytes.drop_last());
        let (s2, o2) = mjpeg_step(s1, bytes.last());
        (s2, o1 + opt_to_seq(o2))
    }
}

/// Reading `chunks` one after the other from `s`.
pub open spec fn mjpeg_run_chunks(s: MjpegView, chunks: Seq<Seq<u8>>) -> (MjpegView, Seq<Seq<u8>>)
    decreases chunks.len(),
{
    if chunks.len() == 0 {
        (s, Seq::empty())
    } else {
        let (s1, o1) = mjpeg_run(s, chunks[0]);
        let (s2, o2) = mjpeg_run_chunks(s1, chunks.drop_first());
        (s2, o1 + o2)
    }
}

pub open spec fn initial_view() -> MjpegView {
    MjpegView { state: ParseState::SeekingBoundary, buf: Seq::empty() }
}

/// Reading `a` then `b` is reading `a + b`.
pub proof fn lemma_run_concat(s: MjpegView, a: Seq<u8>, b: Seq<u8>)
    ensures
        mjpeg_run(s, a + b) == ({
            let (s1, o1) = mjpeg_run(s, a);
            let (s2, o2) = mjpeg_run(s1, b);
            (s2, o1 + o2)
        }),
    decreases b.len(),
{
    if b.len() == 0 {
        assert(a + b =~= a);
        assert(mjpeg_run(s, a).1 + Seq::<Seq<u8>>::empty() =~= mjpeg_run(s, a).1);
    } else {
        assert((a + b).drop_last() =~= a + b.drop_last());
        assert((a + b).last() == b.last());
        lemma_run_concat(s, a, b.drop_last());
        let (s1, o1) = mjpeg_run(s, a);
        let (t1, p1) = mjpeg_run(s1, b.drop_last());
        let (t2, p2) = mjpeg_step(t1, b.last());
        assert(o1 + p1 + opt_to_seq(p2) =~= o1 + (p1 + opt_to_seq(p2)));
    }
}

/// However a stream is cut into chunks, the parser ends in the same state and
/// yields the same ordered list of JPEGs as when it reads the whole stream at once.
pub proof fn lemma_chunking_invariant(s: MjpegView, chunks: Seq<Seq<u8>>)
    ensures
        mjpeg_run_chunks(s, chunks) == mjpeg_run(s, chunks.flatten()),
    decreases chunks.len(),
{
    if chunks.len() == 0 {
    } else {
        lemma_chunking_invariant(mjpeg_run(s, chunks[0]).0, chunks.drop_first());
        lemma_run_concat(s, chunks[0], chunks.drop_first().flatten());
        assert(chunks.flatten() == chunks[0] + chunks.drop_first().flatten());
    }
}

/// Incremental MJPEG multipart parser.
pub struct MjpegParser {
    state: ParseState,
    buf: Vec<u8>,
}

impl View for MjpegParser {
    type V = MjpegView;

    closed spec fn view(&self) -> MjpegView {
        MjpegView { state: self.state, buf: self.buf@ }
    }
}

/// Whether `b` ends with `--frame\r\n`.
fn ends_with_boundary(b: &Vec<u8>) -> (r: bool)
    ensures
        r == ends_with(b@, boundary()),
{
    let n = b.len();
    if n < 9 {
        return false;
    }
    let r = b[n - 9] == 45 && b[n - 8] == 45 && b[n - 7] == 102 && b[n - 6] == 114 && b[n - 5]
        == 97 && b[n - 4] == 109 && b[n - 3] == 101 && b[n - 2] == 13 && b[n - 1] == 10;
    assert(r == (b@.subrange(n - 9, n as int) =~= boundary()));
    r
}

/// Whether `b` ends with `\r\n\r\n`.
fn ends_with_header_end(b: &Vec<u8>) -> (r: bool)
    ensures
        r == ends_with(b@, header_end()),
{
    let n = b.len();
    if n < 4 {
        return false;
    }
    let r = b[n - 4] == 13 && b[n - 3] == 10 && b[n - 2] == 13 && b[n - 1] == 10;
    assert(r == (b@.subrange(n - 4, n as int) =~= header_end()));
    r
}

impl MjpegParser {
    /// Bounded state: at most one marker's length is held while a marker is sought.
    pub closed spec fn wf(&self) -> bool {
        &&& self.state == ParseState::SeekingBoundary ==> self.buf@.len() <= 9
        &&& self.state == ParseState::SeekingHeaderEnd ==> self.buf@.len() <= 4
    }

    pub fn new() -> (r: Self)
        ensures
            r@ == initial_view(),
            r.wf(),
    {
        MjpegParser { state: ParseState::SeekingBoundary, buf: Vec::new() }
    }

    /// Reads one byte; returns the JPEG it completes, if any.
    pub fn push_byte(&mut self, b: u8) -> (r: Option<Vec<u8>>)
        requires
            old(self).wf(),
            old(self)@.state == ParseState::CollectingJpeg ==> old(self)@.buf.len() < usize::MAX,
        ensures
            final(self).wf(),
            (final(self)@, crate::bytes::opt_bytes(r)) == mjpeg_step(old(self)@, b),
    {
        self.buf.push(b);
        match self.state {
            ParseState::SeekingBoundary => {
                if ends_with_boundary(&self.buf) {
                    self.buf.clear();
                    self.state = ParseState::SeekingHeaderEnd;
                } else if self.buf.len() > 9 {
                    self.buf.remove(0);
                    assert(self.buf@ =~= keep_last(old(self)@.buf.push(b), 9));
                }
                None
            },
            ParseState::SeekingHeaderEnd => {
                if ends_with_header_end(&self.buf) {
                    self.buf.clear();
                    self.state = ParseState::CollectingJpeg;
                } else if self.buf.len() > 4 {
                    self.buf.remove(0);
                    assert(self.buf@ =~= keep_last(old(self)@.buf.push(b), 4));
                }
                None
            },
            ParseState::CollectingJpeg => {
                if ends_with_boundary(&self.buf) {
                    let ghost full = self.buf@;
                    let n = self.buf.len() - 9;
                    self.buf.truncate(n);
                    assert(self.buf@ =~= full.subrange(0, full.len() - 9));
                    let m = self.buf.len();
                    if m >= 2 && self.buf[m - 2] == 13 && self.buf[m - 1] == 10 {
                        self.buf.truncate(m - 2);
                    }
                    assert(self.buf@ =~= jpeg_of(full.subrange(0, full.len() - 9)));
                    let mut jpeg: Vec<u8> = Vec::new();
                    std::mem::swap(&mut jpeg, &mut self.buf);
                    self.state = ParseState::SeekingHeaderEnd;
                    if jpeg.len() > 0 {
                        Some(jpeg)
                    } else {
                        None
                    }
                } else {
                    None
                }
            },
        }
    }

    /// Reads a chunk of the stream; returns the JPEGs it completes, in order.
    pub fn push(&mut self, chunk: &[u8]) -> (r: Vec<Vec<u8>>)
        requires
            old(self).wf(),
            old(self)@.buf.len() + chunk@.len() < usize::MAX,
        ensures
            final(self).wf(),
            (final(self)@, r@.map_values(|j: Vec<u8>| j@)) == mjpeg_run(old(self)@, chunk@),
    {
        let mut out: Vec<Vec<u8>> = Vec::new();
        let mut i: usize = 0;
        while i < chunk.len()
            invariant
                self.wf(),
                i <= chunk@.len(),
                self@.buf.len() <= old(self)@.buf.len() + i,
                old(self)@.buf.len() + chunk@.len() < usize::MAX,
                (self@, out@.map_values(|j: Vec<u8>| j@)) == mjpeg_run(
                    old(self)@,
                    chunk@.subrange(0, i as int),
                ),
            decreases chunk@.len() - i,
        {
            let ghost before = out@.map_values(|j: Vec<u8>| j@);
            let ghost pre = chunk@.subrange(0, i as int);
            let got = self.push_byte(chunk[i]);
            match got {
                Some(j) => {
                    out.push(j);
                },
                None => {},
            }
            i = i + 1;
            proof {
                let cur = chunk@.subrange(0, i as int);
                assert(cur.drop_last() =~= pre);
                assert(cur.last() == chunk@[i - 1]);
                assert(out@.map_values(|j: Vec<u8>| j@) =~= before + opt_to_seq(
                    crate::bytes::opt_bytes(got),
                ));
            }
        }
        assert(chunk@.subrange(0, chunk@.len() as int) =~= chunk@);
        out
    }
}

} // verus!
