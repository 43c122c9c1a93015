//! The bus record: a camera frame with its capture time and sequence number,
//! and its versioned binary wire format.
//!
//! v1 (JPEG): `captured_at_ms:i64 | seq:u64 | jpeg_bytes`.
//! v2 (H.264): `0x02 | nal_type:u8 | captured_at_ms:i64 | seq:u64 | h264_len:u32 | h264_bytes`.
//! All integers are big-endian. A record whose first byte is `0x02` is read as v2.

use vstd::prelude::*;

use vstd::string::StringExecFns;

use crate::keys::{date_str, fmt_ts, utc_date_of, utc_stamp_of};
use crate::query::{padded_decimal, u64_text_6};
use crate::bytes::{
    append_bytes, copy_range, lemma_u32_be_round_trip, lemma_u64_be_round_trip, push_u32_be,
    push_u64_be, read_u32_be, read_u64_be, u32_at, u32_be, u64_at, u64_be,
};

verus! {

pub const V1_HEADER_SIZE: usize = 16;

pub const V2_HEADER_SIZE: usize = 22;

pub const V2_MARKER: u8 = 0x02;

/// The payload carried inside a frame.
#[derive(Debug, Clone)]
pub enum FramePayload {
    /// A JPEG image.
    Jpeg(Vec<u8>),
    /// An H.264 access unit in Annex B form, with the NAL type of its primary slice.
    H264 { data: Vec<u8>, nal_type: u8 },
}

/// A camera frame with its capture time and per-producer sequence number.
#[derive(Debug, Clone)]
pub struct TimestampedFrame {
    pub payload: FramePayload,
    pub captured_at_ms: i64,
    pub seq: u64,
}

/// Error of [`TimestampedFrame::deserialize`].
#[derive(Debug, Clone, PartialEq, Eq, Structural)]
pub enum FrameError {
    TooShort { got: usize, expected: usize },
}

/// Mathematical model of a payload.
pub enum PayloadView {
    Jpeg(Seq<u8>),
    H264 { data: Seq<u8>, nal_type: u8 },
}

/// Mathematical model of a frame.
pub struct FrameView {
    pub payload: PayloadView,
    pub captured_at_ms: i64,
    pub seq: u64,
}

impl View for FramePayload {
    type V = PayloadView;

    open spec fn view(&self) -> PayloadView {
        match self {
            FramePayload::Jpeg(d) => PayloadView::Jpeg(d@),
            FramePayload::H264 { data, nal_type } => PayloadView::H264 {
                data: data@,
                nal_type: *nal_type,
            },
        }
    }
}

impl View for TimestampedFrame {
    type V = FrameView;

    open spec fn view(&self) -> FrameView {
        FrameView { payload: self.payload@, captured_at_ms: self.captured_at_ms, seq: self.seq }
    }
}

/// The bytes of a payload, whatever its kind.
pub open spec fn payload_data(p: PayloadView) -> Seq<u8> {
    match p {
        PayloadView::Jpeg(d) => d,
        PayloadView::H264 { data, .. } => data,
    }
}

/// The wire bytes of a frame.
pub open spec fn frame_bytes(f: FrameView) -> Seq<u8> {
    match f.payload {
        PayloadView::Jpeg(d) => u64_be(f.captured_at_ms as u64) + u64_be(f.seq) + d,
        PayloadView::H264 { data, nal_type } => seq![V2_MARKER, nal_type] + u64_be(
            f.captured_at_ms as u64,
        ) + u64_be(f.seq) + u32_be(data.len() as u32) + data,
    }
}

/// What the wire bytes `b` decode to.
pub open spec fn frame_from_bytes(b: Seq<u8>) -> Result<FrameView, FrameError> {
    if b.len() == 0 {
        Err(FrameError::TooShort { got: 0, expected: V1_HEADER_SIZE })
    } else if b[0] == V2_MARKER {
        if b.len() < V2_HEADER_SIZE {
            Err(FrameError::TooShort { got: b.len() as usize, expected: V2_HEADER_SIZE })
        } else {
            let n = u32_at(b, 18) as int;
            if b.len() < V2_HEADER_SIZE + n {
                Err(FrameError::TooShort { got: b.len() as usize, expected: (22 + n) as usize })
            } else {
                Ok(
                    FrameView {
                        payload: PayloadView::H264 { data: b.subrange(22, 22 + n), nal_type: b[1] },
                        captured_at_ms: u64_at(b, 2) as i64,
                        seq: u64_at(b, 10),
                    },
                )
            }
        }
    } else if b.len() < V1_HEADER_SIZE {
        Err(FrameError::TooShort { got: b.len() as usize, expected: V1_HEADER_SIZE })
    } else {
        Ok(
            FrameView {
                payload: PayloadView::Jpeg(b.subrange(16, b.len() as int)),
                captured_at_ms: u64_at(b, 0) as i64,
                seq: u64_at(b, 8),
            },
        )
    }
}

/// A frame whose wire bytes decode back to it: an H.264 payload's length fits the
/// 32-bit length field, and a JPEG frame's timestamp does not start with the v2 marker.
pub open spec fn round_trips(f: FrameView) -> bool {
    match f.payload {
        PayloadView::Jpeg(_) => ((f.captured_at_ms as u64) >> 56u64) as u8 != V2_MARKER,
        PayloadView::H264 { data, .. } => data.len() <= u32::MAX,
    }
}

proof fn lemma_i64_through_u64(x: i64)
    ensures
        (x as u64) as i64 == x,
{
    assert((x as u64) as i64 == x) by (bit_vector);
}

/// Decoding the wire bytes of a frame gives the frame back.
pub proof fn lemma_frame_round_trip(f: FrameView)
    requires
        round_trips(f),
    ensures
        frame_from_bytes(frame_bytes(f)) == Ok::<FrameView, FrameError>(f),
{
    let b = frame_bytes(f);
    lemma_i64_through_u64(f.captured_at_ms);
    match f.payload {
        PayloadView::Jpeg(d) => {
            assert(b.subrange(0, 8) =~= u64_be(f.captured_at_ms as u64));
            assert(b.subrange(8, 16) =~= u64_be(f.seq));
            assert(b.subrange(16, b.len() as int) =~= d);
            lemma_u64_be_round_trip(f.captured_at_ms as u64, b, 0);
            lemma_u64_be_round_trip(f.seq, b, 8);
            assert(b[0] == u64_be(f.captured_at_ms as u64)[0]);
        },
        PayloadView::H264 { data, nal_type } => {
            let n = data.len() as int;
            assert(b.subrange(2, 10) =~= u64_be(f.captured_at_ms as u64));
            assert(b.subrange(10, 18) =~= u64_be(f.seq));
            assert(b.subrange(18, 22) =~= u32_be(n as u32));
            assert(b.subrange(22, 22 + n) =~= data);
            lemma_u64_be_round_trip(f.captured_at_ms as u64, b, 2);
            lemma_u64_be_round_trip(f.seq, b, 10);
            lemma_u32_be_round_trip(n as u32, b, 18);
            assert(b[0] == V2_MARKER);
            assert(b[1] == nal_type);
        },
    }
}

impl TimestampedFrame {
    /// A JPEG frame.
    pub fn new(jpeg_data: Vec<u8>, captured_at_ms: i64, seq: u64) -> (r: Self)
        ensures
            r@ == (FrameView {
                payload: PayloadView::Jpeg(jpeg_data@),
                captured_at_ms,
                seq,
            }),
    {
        TimestampedFrame { payload: FramePayload::Jpeg(jpeg_data), captured_at_ms, seq }
    }

    /// An H.264 frame.
    pub fn new_h264(h264_data: Vec<u8>, nal_type: u8, captured_at_ms: i64, seq: u64) -> (r: Self)
        ensures
            r@ == (FrameView {
                payload: PayloadView::H264 { data: h264_data@, nal_type },
                captured_at_ms,
                seq,
            }),
    {
        TimestampedFrame {
            payload: FramePayload::H264 { data: h264_data, nal_type },
            captured_at_ms,
            seq,
        }
    }

    /// The JPEG bytes, for a JPEG frame.
    pub fn jpeg_data(&self) -> (r: Option<&[u8]>)
        ensures
            match self@.payload {
                PayloadView::Jpeg(d) => r matches Some(s) && s@ == d,
                PayloadView::H264 { .. } => r is None,
            },
    {
        match &self.payload {
            FramePayload::Jpeg(data) => Some(data.as_slice()),
            FramePayload::H264 { .. } => None,
        }
    }

    /// The access unit bytes, for an H.264 frame.
    pub fn h264_data(&self) -> (r: Option<&[u8]>)
        ensures
            match self@.payload {
                PayloadView::H264 { data, .. } => r matches Some(s) && s@ == data,
                PayloadView::Jpeg(_) => r is None,
            },
    {
        match &self.payload {
            FramePayload::H264 { data, .. } => Some(data.as_slice()),
            FramePayload::Jpeg(_) => None,
        }
    }

    /// Whether this is an H.264 IDR keyframe (NAL type 5).
    pub fn is_keyframe(&self) -> (r: bool)
        ensures
            r == (self@.payload matches PayloadView::H264 { nal_type, .. } && nal_type == 5),
    {
        match &self.payload {
            FramePayload::H264 { nal_type, .. } => *nal_type == 5,
            FramePayload::Jpeg(_) => false,
        }
    }

    /// The number of payload bytes.
    pub fn payload_size(&self) -> (r: usize)
        ensures
            r == payload_data(self@.payload).len(),
    {
        match &self.payload {
            FramePayload::Jpeg(data) => data.len(),
            FramePayload::H264 { data, .. } => data.len(),
        }
    }

    /// The payload bytes, whatever the kind.
    pub fn payload_bytes(&self) -> (r: &[u8])
        ensures
            r@ == payload_data(self@.payload),
    {
        match &self.payload {
            FramePayload::Jpeg(data) => data.as_slice(),
            FramePayload::H264 { data, .. } => data.as_slice(),
        }
    }

    /// The wire bytes of this frame (v1 for JPEG, v2 for H.264).
    pub fn serialize(&self) -> (r: Vec<u8>)
        ensures
            r@ == frame_bytes(self@),
    {
        let mut buf: Vec<u8> = Vec::new();
        match &self.payload {
            FramePayload::Jpeg(jpeg_data) => {
                push_u64_be(&mut buf, self.captured_at_ms as u64);
                push_u64_be(&mut buf, self.seq);
                append_bytes(&mut buf, jpeg_data.as_slice());
            },
            FramePayload::H264 { data, nal_type } => {
                buf.push(V2_MARKER);
                buf.push(*nal_type);
                push_u64_be(&mut buf, self.captured_at_ms as u64);
                push_u64_be(&mut buf, self.seq);
                push_u32_be(&mut buf, data.len() as u32);
                append_bytes(&mut buf, data.as_slice());
            },
        }
        assert(buf@ =~= frame_bytes(self@));
        buf
    }

    /// Storage key of a single frame: `{prefix}{date}/{stamp}_{seq:06}.{jpg|h264}`.
    pub fn object_key(&self, prefix: &str) -> (r: String)
        ensures
            utc_stamp_of(self.captured_at_ms) is Some && utc_date_of(self.captured_at_ms) is Some
                ==> r@ == prefix@ + utc_date_of(self.captured_at_ms).unwrap() + seq!['/']
                + utc_stamp_of(self.captured_at_ms).unwrap() + seq!['_'] + padded_decimal(
                self.seq as int,
                6,
            ) + match self@.payload {
                PayloadView::Jpeg(_) => seq!['.', 'j', 'p', 'g'],
                PayloadView::H264 { .. } => seq!['.', 'h', '2', '6', '4'],
            },
    {
        let date = date_str(self.captured_at_ms);
        let stamp = fmt_ts(self.captured_at_ms);
        let seq_text = u64_text_6(self.seq);
        let mut k = String::from_str(prefix);
        k.append(date.as_str());
        k.append("/");
        k.append(stamp.as_str());
        k.append("_");
        k.append(seq_text.as_str());
        let is_jpeg = match &self.payload {
            FramePayload::Jpeg(_) => true,
            FramePayload::H264 { .. } => false,
        };
        if is_jpeg {
            k.append(".jpg");
        } else {
            k.append(".h264");
        }
        proof {
            reveal_strlit("/");
            reveal_strlit("_");
            reveal_strlit(".jpg");
            reveal_strlit(".h264");
            if utc_stamp_of(self.captured_at_ms) is Some && utc_date_of(self.captured_at_ms) is Some {
                assert(k@ =~= prefix@ + utc_date_of(self.captured_at_ms).unwrap() + seq!['/']
                    + utc_stamp_of(self.captured_at_ms).unwrap() + seq!['_'] + padded_decimal(
                    self.seq as int,
                    6,
                ) + match self@.payload {
                    PayloadView::Jpeg(_) => seq!['.', 'j', 'p', 'g'],
                    PayloadView::H264 { .. } => seq!['.', 'h', '2', '6', '4'],
                });
            }
        }
        k
    }

    /// Decodes wire bytes, choosing v2 when the first byte is the v2 marker.
    pub fn deserialize(data: &[u8]) -> (r: Result<Self, FrameError>)
        ensures
            match r {
                Ok(f) => frame_from_bytes(data@) == Ok::<FrameView, FrameError>(f@),
                Err(e) => frame_from_bytes(data@) == Err::<FrameView, FrameError>(e),
            },
    {
        let len = data.len();
        if len == 0 {
            return Err(FrameError::TooShort { got: 0, expected: V1_HEADER_SIZE });
        }
        if data[0] == V2_MARKER {
            if len < V2_HEADER_SIZE {
                return Err(FrameError::TooShort { got: len, expected: V2_HEADER_SIZE });
            }
            let nal_type = data[1];
            let captured_at_ms = read_u64_be(data, 2) as i64;
            let seq = read_u64_be(data, 10);
            let h264_len = read_u32_be(data, 18);
            let need: u64 = 22u64 + h264_len as u64;
            if (len as u64) < need {
                return Err(FrameError::TooShort { got: len, expected: need as usize });
            }
            let end: usize = need as usize;
            let h264_data = copy_range(data, V2_HEADER_SIZE, end);
            Ok(
                TimestampedFrame {
                    payload: FramePayload::H264 { data: h264_data, nal_type },
                    captured_at_ms,
                    seq,
                },
            )
        } else {
            if len < V1_HEADER_SIZE {
                return Err(FrameError::TooShort { got: len, expected: V1_HEADER_SIZE });
            }
            let captured_at_ms = read_u64_be(data, 0) as i64;
            let seq = read_u64_be(data, 8);
            let jpeg_data = copy_range(data, V1_HEADER_SIZE, len);
            Ok(TimestampedFrame { payload: FramePayload::Jpeg(jpeg_data), captured_at_ms, seq })
        }
    }
}

} // verus!
