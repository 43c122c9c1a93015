//! Rules of the query surface and the producers that do not need I/O: result
//! limits, clip manifests' names, media URLs, bus message keys, the set of
//! segments a collection's clips refer to, and the reconnect backoff.

use vstd::prelude::*;
use vstd::string::{StrSliceExecFns, StringExecFns};

verus! {

/// Decimal text of an integer, with a leading `-` when negative.
pub open spec fn decimal_text(n: int) -> Seq<char>
    decreases (if n < 0 { -n + 1 } else { n }),
{
    if n < 0 {
        seq!['-'] + decimal_text(-n)
    } else if n < 10 {
        seq![digit_char(n)]
    } else {
        decimal_text(n / 10) + seq![digit_char(n % 10)]
    }
}

pub open spec fn digit_char(d: int) -> char {
    if d == 0 {
        '0'
    } else if d == 1 {
        '1'
    } else if d == 2 {
        '2'
    } else if d == 3 {
        '3'
    } else if d == 4 {
        '4'
    } else if d == 5 {
        '5'
    } else if d == 6 {
        '6'
    } else if d == 7 {
        '7'
    } else if d == 8 {
        '8'
    } else {
        '9'
    }
}

/// Relies on std's `Display` for `i64` (through `ToString`): decimal digits,
/// with a leading `-` for negative values.
#[verifier::external_body]
fn i64_text(n: i64) -> (r: String)
    ensures
        r@ == decimal_text(n as int),
{
    n.to_string()
}

/// `decimal_text(n)` with leading zeros up to `width` characters.
pub open spec fn padded_decimal(n: int, width: nat) -> Seq<char> {
    let d = decimal_text(n);
    if d.len() < width {
        Seq::new((width - d.len()) as nat, |i: int| '0') + d
    } else {
        d
    }
}

/// Relies on std's formatting of `u64` with `{:06}`: decimal digits, zero-padded
/// to at least six.
#[verifier::external_body]
pub(crate) fn u64_text_6(n: u64) -> (r: String)
    ensures
        r@ == padded_decimal(n as int, 6),
{
    format!("{:06}", n)
}

/// Number of rows a listing returns: the requested limit or `default`, at most 1000.
pub fn segment_limit(requested: Option<i64>, default: i64) -> (r: i64)
    ensures
        r == ({
            let l = match requested {
                Some(l) => l,
                None => default,
            };
            if l < 1000 {
                l
            } else {
                1000
            }
        }),
{
    let l = match requested {
        Some(l) => l,
        None => default,
    };
    if l < 1000 {
        l
    } else {
        1000
    }
}

/// A collection name made safe for a key: spaces become `_`, slashes `-`.
pub open spec fn safe_char(c: char) -> char {
    if c == ' ' {
        '_'
    } else if c == '/' {
        '-'
    } else {
        c
    }
}

/// The characters of `s`, made safe for a key.
pub open spec fn safe_text(s: Seq<char>) -> Seq<char> {
    Seq::new(s.len(), |i: int| safe_char(s[i]))
}

/// Relies on std's `String::push`: appends one character.
#[verifier::external_body]
fn push_char(s: &mut String, c: char)
    ensures
        final(s)@ == old(s)@.push(c),
{
    s.push(c)
}

/// `name` with spaces turned to `_` and slashes to `-`.
pub fn safe_collection_name(name: &str) -> (r: String)
    ensures
        r@ == safe_text(name@),
{
    let n = name.unicode_len();
    let mut out = String::new();
    let mut i: usize = 0;
    while i < n
        invariant
            n == name@.len(),
            i <= n,
            out@ == safe_text(name@).subrange(0, i as int),
        decreases n - i,
    {
        let c = name.get_char(i);
        let d = if c == ' ' {
            '_'
        } else if c == '/' {
            '-'
        } else {
            c
        };
        push_char(&mut out, d);
        i = i + 1;
        assert(out@ =~= safe_text(name@).subrange(0, i as int));
    }
    assert(safe_text(name@).subrange(0, n as int) =~= safe_text(name@));
    out
}

/// Key of a clip's manifest: `{robot_id}/{safe_name}/{start}_{end}.json`.
pub fn manifest_key(robot_id: &str, collection_name: &str, clip_start_ms: i64, clip_end_ms: i64) -> (r:
    String)
    ensures
        r@ == robot_id@ + seq!['/'] + safe_text(collection_name@) + seq!['/'] + decimal_text(
            clip_start_ms as int,
        ) + seq!['_'] + decimal_text(clip_end_ms as int) + seq!['.', 'j', 's', 'o', 'n'],
{
    let safe = safe_collection_name(collection_name);
    let start = i64_text(clip_start_ms);
    let end = i64_text(clip_end_ms);
    let mut k = String::from_str(robot_id);
    k.append("/");
    k.append(safe.as_str());
    k.append("/");
    k.append(start.as_str());
    k.append("_");
    k.append(end.as_str());
    k.append(".json");
    proof {
        reveal_strlit("/");
        reveal_strlit("_");
        reveal_strlit(".json");
        assert(k@ =~= robot_id@ + seq!['/'] + safe_text(collection_name@) + seq!['/']
            + decimal_text(clip_start_ms as int) + seq!['_'] + decimal_text(clip_end_ms as int)
            + seq!['.', 'j', 's', 'o', 'n']);
    }
    k
}

/// Where a segment's media is served: `{public_url}/{bucket}/{key}`.
pub fn media_url(public_url: &str, bucket: &str, key: &str) -> (r: String)
    ensures
        r@ == public_url@ + seq!['/'] + bucket@ + seq!['/'] + key@,
{
    let mut u = String::from_str(public_url);
    u.append("/");
    u.append(bucket);
    u.append("/");
    u.append(key);
    proof {
        reveal_strlit("/");
        assert(u@ =~= public_url@ + seq!['/'] + bucket@ + seq!['/'] + key@);
    }
    u
}

/// Key of a frame's bus message: `{robot_id}:{captured_at_ms}`.
pub fn bus_message_key(robot_id: &str, captured_at_ms: i64) -> (r: String)
    ensures
        r@ == robot_id@ + seq![':'] + decimal_text(captured_at_ms as int),
{
    let ts = i64_text(captured_at_ms);
    let mut k = String::from_str(robot_id);
    k.append(":");
    k.append(ts.as_str());
    proof {
        reveal_strlit(":");
        assert(k@ =~= robot_id@ + seq![':'] + decimal_text(captured_at_ms as int));
    }
    k
}

/// Synthetic key of an H.264 idle period, which stores no media: `idle:{start}/{end}`.
pub fn idle_marker_key(start_ms: i64, end_ms: i64) -> (r: String)
    ensures
        r@ == seq!['i', 'd', 'l', 'e', ':'] + decimal_text(start_ms as int) + seq!['/']
            + decimal_text(end_ms as int),
{
    let a = i64_text(start_ms);
    let b = i64_text(end_ms);
    let mut k = String::from_str("idle:");
    k.append(a.as_str());
    k.append("/");
    k.append(b.as_str());
    proof {
        reveal_strlit("idle:");
        reveal_strlit("/");
        assert(k@ =~= seq!['i', 'd', 'l', 'e', ':'] + decimal_text(start_ms as int) + seq!['/']
            + decimal_text(end_ms as int));
    }
    k
}

/// Why a clip cannot be created.
#[derive(Debug, Clone, Copy, PartialEq, Eq, Structural)]
pub enum ClipError {
    /// The request names no segment.
    NoSegmentIds,
    /// None of the named segments exists.
    NoValidSegments,
}

/// The segments a new clip refers to: those of `requested` that exist
/// (`exists[i]` for `requested[i]`), in the requested order. A request naming
/// none, or naming only missing segments, is refused.
pub fn clip_members(requested: &Vec<i64>, exists: &Vec<bool>) -> (r: Result<Vec<i64>, ClipError>)
    requires
        requested@.len() == exists@.len(),
    ensures
        requested@.len() == 0 ==> r == Err::<Vec<i64>, ClipError>(ClipError::NoSegmentIds),
        requested@.len() > 0 && kept_ids(requested@, exists@, requested@.len() as int).len() == 0
            ==> r == Err::<Vec<i64>, ClipError>(ClipError::NoValidSegments),
        r matches Ok(v) ==> v@ == kept_ids(requested@, exists@, requested@.len() as int) && v@.len()
            > 0,
        requested@.len() > 0 && kept_ids(requested@, exists@, requested@.len() as int).len() > 0
            ==> r is Ok,
{
    if requested.len() == 0 {
        return Err(ClipError::NoSegmentIds);
    }
    let mut out: Vec<i64> = Vec::new();
    let mut i: usize = 0;
    while i < requested.len()
        invariant
            requested@.len() == exists@.len(),
            i <= requested@.len(),
            out@ == kept_ids(requested@, exists@, i as int),
        decreases requested@.len() - i,
    {
        if exists[i] {
            out.push(requested[i]);
        }
        i = i + 1;
    }
    if out.len() == 0 {
        Err(ClipError::NoValidSegments)
    } else {
        Ok(out)
    }
}

/// The ids among the first `n` of `ids` whose flag is set, in order.
pub open spec fn kept_ids(ids: Seq<i64>, keep: Seq<bool>, n: int) -> Seq<i64>
    decreases n,
{
    if n <= 0 {
        Seq::empty()
    } else if keep[n - 1] {
        kept_ids(ids, keep, n - 1).push(ids[n - 1])
    } else {
        kept_ids(ids, keep, n - 1)
    }
}

fn contains_id(v: &Vec<i64>, id: i64) -> (r: bool)
    ensures
        r == v@.contains(id),
{
    let mut i: usize = 0;
    while i < v.len()
        invariant
            i <= v@.len(),
            forall|j: int| 0 <= j < i ==> v@[j] != id,
        decreases v@.len() - i,
    {
        if v[i] == id {
            return true;
        }
        i = i + 1;
    }
    false
}

/// Whether `id` occurs in one of the first `c` lists of `cs`.
pub open spec fn in_first_lists(cs: Seq<Seq<i64>>, c: int, id: i64) -> bool {
    exists|a: int, k: int| 0 <= a < c && 0 <= k < cs[a].len() && cs[a][k] == id
}

/// Whether `id` occurs among the first `j` items of `ids`.
pub open spec fn in_prefix(ids: Seq<i64>, j: int, id: i64) -> bool {
    exists|k: int| 0 <= k < j && ids[k] == id
}

proof fn lemma_prefix_step(ids: Seq<i64>, j: int, id: i64)
    requires
        0 <= j < ids.len(),
    ensures
        in_prefix(ids, j + 1, id) <==> (in_prefix(ids, j, id) || ids[j] == id),
{
    if in_prefix(ids, j + 1, id) {
        let k = choose|k: int| 0 <= k < j + 1 && ids[k] == id;
        if k < j {
            assert(in_prefix(ids, j, id));
        }
    }
    if in_prefix(ids, j, id) {
        let k = choose|k: int| 0 <= k < j && ids[k] == id;
        assert(0 <= k < j + 1 && ids[k] == id);
    }
    if ids[j] == id {
        assert(0 <= j < j + 1 && ids[j] == id);
    }
}

proof fn lemma_lists_step(cs: Seq<Seq<i64>>, c: int, id: i64)
    requires
        0 <= c < cs.len(),
    ensures
        in_first_lists(cs, c + 1, id) <==> (in_first_lists(cs, c, id) || in_prefix(
            cs[c],
            cs[c].len() as int,
            id,
        )),
{
    if in_first_lists(cs, c + 1, id) {
        let (a, k) = choose|a: int, k: int| 0 <= a < c + 1 && 0 <= k < cs[a].len() && cs[a][k] == id;
        if a < c {
            assert(in_first_lists(cs, c, id));
        } else {
            assert(in_prefix(cs[c], cs[c].len() as int, id));
        }
    }
    if in_first_lists(cs, c, id) {
        let (a, k) = choose|a: int, k: int| 0 <= a < c && 0 <= k < cs[a].len() && cs[a][k] == id;
        assert(0 <= a < c + 1 && 0 <= k < cs[a].len() && cs[a][k] == id);
    }
    if in_prefix(cs[c], cs[c].len() as int, id) {
        let k = choose|k: int| 0 <= k < cs[c].len() && cs[c][k] == id;
        assert(0 <= c < c + 1 && 0 <= k < cs[c].len() && cs[c][k] == id);
    }
}

/// Each segment referenced by some clip, exactly once (the order is left open:
/// callers sum over the set).
pub fn unique_segment_ids(clips: &Vec<Vec<i64>>) -> (r: Vec<i64>)
    ensures
        r@.no_duplicates(),
        forall|id: i64|
            r@.contains(id) <==> in_first_lists(
                clips@.map_values(|c: Vec<i64>| c@),
                clips@.len() as int,
                id,
            ),
{
    let ghost cs = clips@.map_values(|c: Vec<i64>| c@);
    let mut out: Vec<i64> = Vec::new();
    let mut c: usize = 0;
    while c < clips.len()
        invariant
            cs == clips@.map_values(|c: Vec<i64>| c@),
            c <= clips@.len(),
            out@.no_duplicates(),
            forall|id: i64| out@.contains(id) <==> in_first_lists(cs, c as int, id),
        decreases clips@.len() - c,
    {
        let ids = &clips[c];
        let mut j: usize = 0;
        while j < ids.len()
            invariant
                cs == clips@.map_values(|c: Vec<i64>| c@),
                c < clips@.len(),
                ids@ == cs[c as int],
                j <= ids@.len(),
                out@.no_duplicates(),
                forall|id: i64|
                    out@.contains(id) <==> (in_first_lists(cs, c as int, id) || in_prefix(
                        ids@,
                        j as int,
                        id,
                    )),
            decreases ids@.len() - j,
        {
            let id = ids[j];
            let ghost before = out@;
            let present = contains_id(&out, id);
            if !present {
                out.push(id);
            }
            proof {
                assert forall|x: i64|
                    out@.contains(x) <==> (in_first_lists(cs, c as int, x) || in_prefix(
                        ids@,
                        j + 1,
                        x,
                    )) by {
                    lemma_prefix_step(ids@, j as int, x);
                    assert(before.contains(x) <==> (in_first_lists(cs, c as int, x) || in_prefix(
                        ids@,
                        j as int,
                        x,
                    )));
                    if !present {
                        if out@.contains(x) {
                            let i = choose|i: int| 0 <= i < out@.len() && out@[i] == x;
                            if i < before.len() {
                                assert(before[i] == x);
                            }
                        }
                        if before.contains(x) {
                            let i = choose|i: int| 0 <= i < before.len() && before[i] == x;
                            assert(out@[i] == x);
                        }
                        if x == id {
                            assert(out@[before.len() as int] == x);
                        }
                    }
                }
                if !present {
                    assert forall|a: int, b: int|
                        0 <= a < out@.len() && 0 <= b < out@.len() && a != b implies out@[a]
                        != out@[b] by {
                        if a < before.len() && b < before.len() {
                        } else if a < before.len() {
                            assert(out@[a] == before[a]);
                        } else if b < before.len() {
                            assert(out@[b] == before[b]);
                        }
                    }
                }
            }
            j = j + 1;
        }
        proof {
            assert forall|x: i64| out@.contains(x) <==> in_first_lists(cs, c + 1, x) by {
                lemma_lists_step(cs, c as int, x);
            }
        }
        c = c + 1;
    }
    out
}

/// Delay before reconnecting to a camera stream: 2 s at first and after a clean
/// end of stream, doubling after each attempt, at most 30 s.
#[derive(Debug, Clone, Copy, PartialEq, Eq, Structural)]
pub struct ReconnectBackoff {
    pub delay_secs: u64,
}

impl ReconnectBackoff {
    pub fn new() -> (r: Self)
        ensures
            r.delay_secs == 2,
    {
        ReconnectBackoff { delay_secs: 2 }
    }

    /// After a connection ends (`clean` for an orderly end of stream): the
    /// seconds to wait now; the next wait is twice that, capped at 30.
    pub fn after_attempt(&mut self, clean: bool) -> (r: u64)
        requires
            old(self).delay_secs <= 30,
        ensures
            r == if clean {
                2
            } else {
                old(self).delay_secs
            },
            final(self).delay_secs == if 2 * r < 30 {
                2 * r
            } else {
                30
            },
    {
        if clean {
            self.delay_secs = 2;
        }
        let wait = self.delay_secs;
        self.delay_secs = if 2 * wait < 30 {
            2 * wait
        } else {
            30
        };
        wait
    }
}

} // verus!
