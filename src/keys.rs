//! Object keys of the local store:
//! `{prefix}{robot_id}/camera/{YYYY-MM-DD}/{start}_{end}.{jpg|mp4}`,
//! where `start` and `end` are UTC stamps `YYYYMMDDTHHMMSSsssZ`. Keys sort by start time.

use vstd::prelude::*;
use vstd::string::{StrSliceExecFns, StringExecFns};

use chrono::TimeZone;

verus! {

/// What chrono gives for `ms` formatted as `%Y%m%dT%H%M%S%3fZ` (`None` out of its range).
pub uninterp spec fn utc_stamp_of(ms: i64) -> Option<Seq<char>>;

/// What chrono gives for `ms` formatted as `%Y-%m-%d` (`None` out of its range).
pub uninterp spec fn utc_date_of(ms: i64) -> Option<Seq<char>>;

/// What chrono's parser gives for `s` read as a naive UTC `%Y%m%dT%H%M%S%3f`, in milliseconds.
pub uninterp spec fn parsed_stamp_of(s: Seq<char>) -> Option<i64>;

/// The shape of a `%Y%m%dT%H%M%S%3fZ` stamp: digits, sign, `T` and a final `Z`
/// after the three millisecond digits; at least four year digits.
pub open spec fn stamp_shape(t: Seq<char>) -> bool {
    &&& t.len() >= 19
    &&& t[t.len() - 1] == 'Z'
    &&& '0' <= t[t.len() - 2] <= '9'
    &&& forall|i: int| 0 <= i < t.len() ==> t[i] != '/' && t[i] != '_'
}

/// Relies on chrono's `TimeZone::timestamp_millis_opt` for `Utc` and `DateTime::format`
/// with `%Y%m%dT%H%M%S%3fZ`: the stamp of an instant chrono can represent.
#[verifier::external_body]
fn utc_stamp(ms: i64) -> (r: Option<String>)
    ensures
        match utc_stamp_of(ms) {
            Some(t) => r matches Some(s) && s@ == t && stamp_shape(s@),
            None => r is None,
        },
{
    chrono::Utc.timestamp_millis_opt(ms).single().map(
        |dt| dt.format("%Y%m%dT%H%M%S%3fZ").to_string(),
    )
}

/// Relies on chrono's `TimeZone::timestamp_millis_opt` for `Utc` and `DateTime::format`
/// with `%Y-%m-%d`: the calendar date of an instant chrono can represent.
#[verifier::external_body]
fn utc_date(ms: i64) -> (r: Option<String>)
    ensures
        match utc_date_of(ms) {
            Some(t) => r matches Some(s) && s@ == t,
            None => r is None,
        },
{
    chrono::Utc.timestamp_millis_opt(ms).single().map(|dt| dt.format("%Y-%m-%d").to_string())
}

/// Relies on chrono's `Utc::now`: the current time in milliseconds; nothing is known of it.
#[verifier::external_body]
fn now_ms() -> (r: i64) {
    chrono::Utc::now().timestamp_millis()
}

/// 0000-01-01T00:00:00.000Z in milliseconds.
pub const FOUR_DIGIT_YEAR_MIN_MS: i64 = -62167219200000;

/// 9999-12-31T23:59:59.999Z in milliseconds.
pub const FOUR_DIGIT_YEAR_MAX_MS: i64 = 253402300799999;

/// Whether the UTC year of `ms` has four digits (0000 to 9999).
pub open spec fn four_digit_year(ms: i64) -> bool {
    FOUR_DIGIT_YEAR_MIN_MS <= ms <= FOUR_DIGIT_YEAR_MAX_MS
}

/// Relies on chrono's `NaiveDateTime::parse_from_str` with `%Y%m%dT%H%M%S%3f`, read as
/// UTC, and `timestamp_millis`. For an instant whose year has four digits, the
/// parser reads back chrono's own `%Y%m%dT%H%M%S%3fZ` stamp of it, less the `Z`
/// (`%Y` then takes exactly four digits and `%3f` exactly three).
#[verifier::external_body]
fn parse_stamp(s: &str) -> (r: Option<i64>)
    ensures
        r == parsed_stamp_of(s@),
        forall|ms: i64|
            four_digit_year(ms) && #[trigger] utc_stamp_of(ms) == Some(s@.push('Z')) ==> r == Some(
                ms,
            ),
{
    chrono::NaiveDateTime::parse_from_str(s, "%Y%m%dT%H%M%S%3f").ok().map(
        |dt| dt.and_utc().timestamp_millis(),
    )
}

/// The stamp of `ms`; for an instant chrono cannot represent, that of the current time.
pub(crate) fn fmt_ts(ms: i64) -> (r: String)
    ensures
        utc_stamp_of(ms) matches Some(t) ==> r@ == t && stamp_shape(t),
{
    match utc_stamp(ms) {
        Some(s) => s,
        None => match utc_stamp(now_ms()) {
            Some(s) => s,
            None => String::new(),
        },
    }
}

/// The date of `ms`; for an instant chrono cannot represent, that of the current time.
pub(crate) fn date_str(ms: i64) -> (r: String)
    ensures
        utc_date_of(ms) matches Some(t) ==> r@ == t,
{
    match utc_date(ms) {
        Some(s) => s,
        None => match utc_date(now_ms()) {
            Some(s) => s,
            None => String::new(),
        },
    }
}

pub open spec fn camera_dir() -> Seq<char> {
    seq!['/', 'c', 'a', 'm', 'e', 'r', 'a', '/']
}

pub open spec fn jpg_ext() -> Seq<char> {
    seq!['.', 'j', 'p', 'g']
}

pub open spec fn mp4_ext() -> Seq<char> {
    seq!['.', 'm', 'p', '4']
}

/// `{prefix}{robot}/camera/{date}/{start}_{end}{ext}`
pub open spec fn key_text(
    prefix: Seq<char>,
    robot: Seq<char>,
    date: Seq<char>,
    start: Seq<char>,
    end: Seq<char>,
    ext: Seq<char>,
) -> Seq<char> {
    prefix + robot + camera_dir() + date + seq!['/'] + start + seq!['_'] + end + ext
}

/// The key of an interval whose two ends chrono can represent.
pub open spec fn interval_key(
    prefix: Seq<char>,
    robot: Seq<char>,
    start_ms: i64,
    end_ms: i64,
    ext: Seq<char>,
) -> Seq<char> {
    key_text(
        prefix,
        robot,
        utc_date_of(start_ms).unwrap(),
        utc_stamp_of(start_ms).unwrap(),
        utc_stamp_of(end_ms).unwrap(),
        ext,
    )
}

pub open spec fn representable(ms: i64) -> bool {
    utc_stamp_of(ms) is Some && utc_date_of(ms) is Some
}

fn build_key(prefix: &str, robot_id: &str, start_ms: i64, end_ms: i64, ext: &str) -> (r: String)
    ensures
        representable(start_ms) && representable(end_ms) ==> r@ == interval_key(
            prefix@,
            robot_id@,
            start_ms,
            end_ms,
            ext@,
        ),
        representable(start_ms) ==> stamp_shape(utc_stamp_of(start_ms).unwrap()),
        representable(end_ms) ==> stamp_shape(utc_stamp_of(end_ms).unwrap()),
{
    let date = date_str(start_ms);
    let start = fmt_ts(start_ms);
    let end = fmt_ts(end_ms);
    let mut k = String::from_str(prefix);
    k.append(robot_id);
    k.append("/camera/");
    k.append(date.as_str());
    k.append("/");
    k.append(start.as_str());
    k.append("_");
    k.append(end.as_str());
    k.append(ext);
    proof {
        reveal_strlit("/camera/");
        reveal_strlit("/");
        reveal_strlit("_");
        if representable(start_ms) && representable(end_ms) {
            assert(k@ =~= interval_key(prefix@, robot_id@, start_ms, end_ms, ext@));
        }
    }
    k
}

/// Key of the representative JPEG of an idle period.
pub fn idle_jpeg_key(prefix: &str, robot_id: &str, start_ms: i64, end_ms: i64) -> (r: String)
    ensures
        representable(start_ms) && representable(end_ms) ==> r@ == interval_key(
            prefix@,
            robot_id@,
            start_ms,
            end_ms,
            jpg_ext(),
        ),
        representable(start_ms) ==> stamp_shape(utc_stamp_of(start_ms).unwrap()),
        representable(end_ms) ==> stamp_shape(utc_stamp_of(end_ms).unwrap()),
{
    proof {
        reveal_strlit(".jpg");
    }
    build_key(prefix, robot_id, start_ms, end_ms, ".jpg")
}

/// Key of an active segment's MP4.
pub fn active_segment_key(prefix: &str, robot_id: &str, start_ms: i64, end_ms: i64) -> (r: String)
    ensures
        representable(start_ms) && representable(end_ms) ==> r@ == interval_key(
            prefix@,
            robot_id@,
            start_ms,
            end_ms,
            mp4_ext(),
        ),
        representable(start_ms) ==> stamp_shape(utc_stamp_of(start_ms).unwrap()),
        representable(end_ms) ==> stamp_shape(utc_stamp_of(end_ms).unwrap()),
{
    proof {
        reveal_strlit(".mp4");
    }
    build_key(prefix, robot_id, start_ms, end_ms, ".mp4")
}

/// Where the last `/`-separated segment of `k[..i]` starts.
pub open spec fn segment_start(k: Seq<char>, i: int) -> int
    decreases i,
{
    if i <= 0 {
        0
    } else if k[i - 1] == '/' {
        i
    } else {
        segment_start(k, i - 1)
    }
}

/// Index of the first `c` in `k` at or after `i`, else `k.len()`.
pub open spec fn first_index_of(k: Seq<char>, c: char, i: int) -> int
    decreases k.len() - i,
{
    if i < 0 || i >= k.len() {
        k.len() as int
    } else if k[i] == c {
        i
    } else {
        first_index_of(k, c, i + 1)
    }
}

/// Length of `k[..i]` once trailing `c` characters are removed.
pub open spec fn trimmed_len(k: Seq<char>, c: char, i: int) -> int
    decreases i,
{
    if i > 0 && k[i - 1] == c {
        trimmed_len(k, c, i - 1)
    } else {
        i
    }
}

/// The start stamp of a key without its `Z`: of the last path segment, the part
/// before the first `_`, less trailing `Z`s.
pub open spec fn key_start_text(key: Seq<char>) -> Seq<char> {
    let file = key.subrange(segment_start(key, key.len() as int), key.len() as int);
    let part = file.subrange(0, first_index_of(file, '_', 0));
    part.subrange(0, trimmed_len(part, 'Z', part.len() as int))
}

/// What [`parse_start_ms_from_key`] returns for `key`.
pub open spec fn key_start_ms(key: Seq<char>) -> Option<i64> {
    if key_start_text(key).len() < 18 {
        None
    } else {
        parsed_stamp_of(key_start_text(key))
    }
}

/// Whether `key` is the key of an interval starting at `start` whose stamps
/// have their usual shape, and whose start year has four digits.
pub open spec fn built_key(key: Seq<char>, prefix: Seq<char>, robot: Seq<char>, start: i64, end: i64, ext: Seq<char>) -> bool {
    &&& key == interval_key(prefix, robot, start, end, ext)
    &&& (ext == jpg_ext() || ext == mp4_ext())
    &&& representable(start) && representable(end)
    &&& stamp_shape(utc_stamp_of(start).unwrap()) && stamp_shape(utc_stamp_of(end).unwrap())
    &&& four_digit_year(start)
}

/// The start time of an object, read from the first stamp of its file name. A
/// key made by [`idle_jpeg_key`] or [`active_segment_key`] gives back its start
/// time when that time's year has four digits.
pub fn parse_start_ms_from_key(key: &str) -> (r: Option<i64>)
    ensures
        r == key_start_ms(key@),
        forall|prefix: Seq<char>, robot: Seq<char>, start: i64, end: i64, ext: Seq<char>|
            #[trigger] built_key(key@, prefix, robot, start, end, ext) ==> r == Some(start),
{
    let n = key.unicode_len();
    let mut i: usize = n;
    while i > 0 && key.get_char(i - 1) != '/'
        invariant
            n == key@.len(),
            i <= n,
            segment_start(key@, i as int) == segment_start(key@, n as int),
        decreases i,
    {
        i = i - 1;
    }
    let file = key.substring_char(i, n);
    let fl = file.unicode_len();
    let mut j: usize = 0;
    while j < fl && file.get_char(j) != '_'
        invariant
            fl == file@.len(),
            j <= fl,
            first_index_of(file@, '_', j as int) == first_index_of(file@, '_', 0),
        decreases fl - j,
    {
        j = j + 1;
    }
    let part = file.substring_char(0, j);
    let mut e: usize = j;
    while e > 0 && part.get_char(e - 1) == 'Z'
        invariant
            j == part@.len(),
            e <= j,
            trimmed_len(part@, 'Z', e as int) == trimmed_len(part@, 'Z', j as int),
        decreases e,
    {
        e = e - 1;
    }
    let clean = part.substring_char(0, e);
    let r = if e < 18 {
        None
    } else {
        parse_stamp(clean)
    };
    proof {
        assert forall|prefix: Seq<char>, robot: Seq<char>, start: i64, end: i64, ext: Seq<char>|
            #[trigger] built_key(key@, prefix, robot, start, end, ext) implies r == Some(start) by {
            lemma_key_start_stamp(prefix, robot, start, end, ext);
            let st = utc_stamp_of(start).unwrap();
            assert(st.drop_last().push('Z') =~= st);
            assert(clean@ == key_start_text(key@));
        }
    }
    r
}

proof fn lemma_segment_start_after_slash(k: Seq<char>, at: int, i: int)
    requires
        0 <= at < i <= k.len(),
        k[at] == '/',
        forall|j: int| at < j < k.len() ==> k[j] != '/',
    ensures
        segment_start(k, i) == at + 1,
    decreases i,
{
    if i - 1 > at {
        lemma_segment_start_after_slash(k, at, i - 1);
    }
}

proof fn lemma_first_index_past(k: Seq<char>, c: char, i: int, at: int)
    requires
        0 <= i <= at < k.len(),
        k[at] == c,
        forall|j: int| i <= j < at ==> k[j] != c,
    ensures
        first_index_of(k, c, i) == at,
    decreases at - i,
{
    if i < at {
        lemma_first_index_past(k, c, i + 1, at);
    }
}

/// A key's start stamp, read back by [`parse_start_ms_from_key`], is the stamp the
/// key was built from: the parser hands chrono exactly the text of
/// `utc_stamp_of(start_ms)` less its final `Z`.
pub proof fn lemma_key_start_stamp(
    prefix: Seq<char>,
    robot: Seq<char>,
    start_ms: i64,
    end_ms: i64,
    ext: Seq<char>,
)
    requires
        representable(start_ms),
        representable(end_ms),
        stamp_shape(utc_stamp_of(start_ms).unwrap()),
        stamp_shape(utc_stamp_of(end_ms).unwrap()),
        ext == jpg_ext() || ext == mp4_ext(),
    ensures
        key_start_ms(interval_key(prefix, robot, start_ms, end_ms, ext)) == parsed_stamp_of(
            utc_stamp_of(start_ms).unwrap().drop_last(),
        ),
        key_start_text(interval_key(prefix, robot, start_ms, end_ms, ext)) == utc_stamp_of(
            start_ms,
        ).unwrap().drop_last(),
{
    let s = utc_stamp_of(start_ms).unwrap();
    let e = utc_stamp_of(end_ms).unwrap();
    let date = utc_date_of(start_ms).unwrap();
    let head = prefix + robot + camera_dir() + date;
    let file = s + seq!['_'] + e + ext;
    let key = interval_key(prefix, robot, start_ms, end_ms, ext);
    assert(key =~= head + seq!['/'] + file);
    let at = head.len() as int;
    assert(key[at] == '/');
    assert forall|j: int| at < j < key.len() implies key[j] != '/' by {
        let q = j - at - 1;
        assert(key[j] == file[q]);
        if q < s.len() {
            assert(file[q] == s[q]);
        } else if q == s.len() {
        } else if q < s.len() + 1 + e.len() {
            assert(file[q] == e[q - s.len() - 1]);
        } else {
            assert(file[q] == ext[q - s.len() - 1 - e.len()]);
        }
    }
    lemma_segment_start_after_slash(key, at, key.len() as int);
    assert(key.subrange(at + 1, key.len() as int) =~= file);
    assert(file[s.len() as int] == '_');
    assert forall|j: int| 0 <= j < s.len() implies file[j] != '_' by {
        assert(file[j] == s[j]);
    }
    lemma_first_index_past(file, '_', 0, s.len() as int);
    assert(file.subrange(0, s.len() as int) =~= s);
    assert(trimmed_len(s, 'Z', s.len() - 1) == s.len() - 1);
    assert(s.subrange(0, s.len() - 1) =~= s.drop_last());
}

} // verus!
