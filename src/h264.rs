//! MPEG-TS packets to H.264 Annex B access units, and NAL type detection.

use vstd::prelude::*;

use crate::bytes::{append_bytes, opt_bytes};

verus! {

pub const TS_PACKET_SIZE: usize = 188;

pub const TS_SYNC_BYTE: u8 = 0x47;

/// Offset just past an Annex B start code (`00 00 01` or `00 00 00 01`) found at `i`.
pub open spec fn start_code_end(d: Seq<u8>, i: int) -> Option<int> {
    if 0 <= i && i + 3 <= d.len() && d[i] == 0 && d[i + 1] == 0 {
        if d[i + 2] == 1 {
            Some(i + 3)
        } else if i + 3 < d.len() && d[i + 2] == 0 && d[i + 3] == 1 {
            Some(i + 4)
        } else {
            None
        }
    } else {
        None
    }
}

/// Whether a NAL type is a coded slice (VCL types 1 to 5).
pub open spec fn is_vcl(t: u8) -> bool {
    1 <= t <= 5
}

/// The NAL type found by scanning `d` from `i` for start codes: the type of the
/// first VCL NAL unit, else the type of the first NAL unit seen (`first`), else 0.
pub open spec fn nal_scan(d: Seq<u8>, i: int, first: Option<u8>) -> u8
    decreases d.len() - i,
{
    if i < 0 || i + 3 > d.len() {
        match first {
            Some(t) => t,
            None => 0,
        }
    } else {
        match start_code_end(d, i) {
            Some(off) => {
                if off < d.len() {
                    let t = d[off] & 0x1Fu8;
                    if is_vcl(t) {
                        t
                    } else {
                        nal_scan(d, off, if first is None { Some(t) } else { first })
                    }
                } else {
                    nal_scan(d, off, first)
                }
            },
            None => nal_scan(d, i + 1, first),
        }
    }
}

/// The NAL type of an access unit: that of its first coded slice, else that of
/// its first NAL unit, else 0. Type 5 marks an IDR keyframe.
pub fn detect_nal_type(data: &[u8]) -> (r: u8)
    ensures
        r == nal_scan(data@, 0, None),
{
    let len = data.len();
    let mut i: usize = 0;
    let mut first: Option<u8> = None;
    while len >= 3 && i <= len - 3
        invariant
            len == data@.len(),
            i <= len,
            nal_scan(data@, i as int, first) == nal_scan(data@, 0, None),
        decreases len - i,
    {
        let mut nal_offset: usize = 0;
        let mut found = false;
        if data[i] == 0 && data[i + 1] == 0 {
            if data[i + 2] == 1 {
                nal_offset = i + 3;
                found = true;
            } else if i + 3 < len && data[i + 2] == 0 && data[i + 3] == 1 {
                nal_offset = i + 4;
                found = true;
            }
        }
        if found {
            if nal_offset < len {
                let t = data[nal_offset] & 0x1F;
                if 1 <= t && t <= 5 {
                    return t;
                }
                if first.is_none() {
                    first = Some(t);
                }
            }
            i = nal_offset;
        } else {
            i = i + 1;
        }
    }
    match first {
        Some(t) => t,
        None => 0,
    }
}

/// Packet identifier: 13 bits over bytes 1 and 2.
pub open spec fn ts_pid(p: Seq<u8>) -> u16 {
    (((p[1] & 0x1Fu8) as u16) << 8u16) | (p[2] as u16)
}

/// Payload-unit-start indicator.
pub open spec fn ts_pusi(p: Seq<u8>) -> bool {
    p[1] & 0x40u8 != 0
}

/// Adaptation-field control: bits 4 and 5 of byte 3.
pub open spec fn ts_afc(p: Seq<u8>) -> u8 {
    (p[3] >> 4u8) & 0x03u8
}

pub open spec fn afc_has_payload(afc: u8) -> bool {
    afc & 0x01u8 != 0
}

/// Where the payload of a packet starts, past the header and any adaptation field.
pub open spec fn ts_payload_offset(p: Seq<u8>, afc: u8) -> int {
    if afc & 0x02u8 != 0 && p.len() > 4 {
        5 + p[4]
    } else {
        4
    }
}

/// The byte offset at which a TS packet's payload begins.
pub fn payload_offset(packet: &[u8], afc: u8) -> (r: usize)
    ensures
        r == ts_payload_offset(packet@, afc),
{
    if (afc & 0x02) != 0 && packet.len() > 4 {
        5 + packet[4] as usize
    } else {
        4
    }
}

/// Whether `q` starts with a PES start code prefix `00 00 01`.
pub open spec fn pes_prefix(q: Seq<u8>) -> bool {
    q.len() >= 3 && q[0] == 0 && q[1] == 0 && q[2] == 1
}

/// Whether the payload at `off` opens a PES packet of a video stream (ids `E0` to `EF`).
pub open spec fn opens_video_pes(p: Seq<u8>, off: int) -> bool {
    off + 4 <= TS_PACKET_SIZE && pes_prefix(p.subrange(off, p.len() as int)) && 0xE0 <= p[off
        + 3] <= 0xEF
}

/// Model of the reassembler's state.
pub struct PesView {
    pub current: Seq<u8>,
    pub video_pid: Option<u16>,
    pub collecting: bool,
}

/// The video PID after seeing packet `p` (a well-formed, non-PAT, non-null packet).
pub open spec fn pid_after(s: PesView, p: Seq<u8>) -> Option<u16> {
    let afc = ts_afc(p);
    if s.video_pid is None && ts_pusi(p) && afc_has_payload(afc) && opens_video_pes(
        p,
        ts_payload_offset(p, afc),
    ) {
        Some(ts_pid(p))
    } else {
        s.video_pid
    }
}

/// The elementary-stream bytes that a PES-opening payload `q` carries.
pub open spec fn pes_es_bytes(q: Seq<u8>) -> Seq<u8> {
    let es = 9 + q[8];
    if es < q.len() {
        q.subrange(es as int, q.len() as int)
    } else {
        Seq::empty()
    }
}

/// The next state and the emitted access unit after feeding packet `p`.
pub open spec fn pes_step(s: PesView, p: Seq<u8>) -> (PesView, Option<Seq<u8>>) {
    if p.len() < TS_PACKET_SIZE || p[0] != TS_SYNC_BYTE {
        (s, None)
    } else if ts_pid(p) == 0 || ts_pid(p) == 0x1FFF {
        (s, None)
    } else {
        let afc = ts_afc(p);
        let vp = pid_after(s, p);
        let s1 = PesView { video_pid: vp, ..s };
        let off = ts_payload_offset(p, afc);
        if vp != Some(ts_pid(p)) || !afc_has_payload(afc) || off >= TS_PACKET_SIZE {
            (s1, None)
        } else {
            let q = p.subrange(off, p.len() as int);
            if ts_pusi(p) {
                let emit = s.collecting && s.current.len() > 0;
                let out = if emit {
                    Some(s.current)
                } else {
                    None
                };
                let cur0 = if emit {
                    Seq::empty()
                } else {
                    s.current
                };
                if q.len() >= 9 && pes_prefix(q) {
                    (PesView { current: cur0 + pes_es_bytes(q), video_pid: vp, collecting: true }, out)
                } else {
                    (PesView { current: cur0, ..s1 }, out)
                }
            } else if s.collecting {
                (PesView { current: s.current + q, ..s1 }, None)
            } else {
                (s1, None)
            }
        }
    }
}

/// Whether `u` begins with a start code followed by a NAL header whose type is in 1..=12.
pub open spec fn opens_with_nal(u: Seq<u8>) -> bool {
    (u.len() >= 4 && u[0] == 0 && u[1] == 0 && u[2] == 1 && 1 <= (u[3] & 0x1Fu8) <= 12) || (u.len()
        >= 5 && u[0] == 0 && u[1] == 0 && u[2] == 0 && u[3] == 1 && 1 <= (u[4] & 0x1Fu8) <= 12)
}

proof fn lemma_nal_prefix_kept(a: Seq<u8>, b: Seq<u8>)
    requires
        opens_with_nal(a),
    ensures
        opens_with_nal(a + b),
{
    let c = a + b;
    assert(c[0] == a[0] && c[1] == a[1] && c[2] == a[2] && c[3] == a[3]);
    if a.len() >= 5 {
        assert(c[4] == a[4]);
    }
}

/// Whether a packet that opens a PES on the video PID carries elementary-stream
/// bytes that begin with a NAL unit.
pub open spec fn video_start_ok(s: PesView, p: Seq<u8>) -> bool {
    (p.len() >= TS_PACKET_SIZE && p[0] == TS_SYNC_BYTE && ts_pid(p) != 0 && ts_pid(p) != 0x1FFF
        && pid_after(s, p) == Some(ts_pid(p)) && ts_pusi(p) && afc_has_payload(ts_afc(p))
        && ts_payload_offset(p, ts_afc(p)) < TS_PACKET_SIZE) ==> {
        let q = p.subrange(ts_payload_offset(p, ts_afc(p)), p.len() as int);
        q.len() >= 9 && pes_prefix(q) && opens_with_nal(pes_es_bytes(q))
    }
}

/// Reassembles PES packets from MPEG-TS packets; each PES carries one access unit.
pub struct PesAssembler {
    current_pes: Vec<u8>,
    video_pid: Option<u16>,
    collecting: bool,
}

impl View for PesAssembler {
    type V = PesView;

    closed spec fn view(&self) -> PesView {
        PesView {
            current: self.current_pes@,
            video_pid: self.video_pid,
            collecting: self.collecting,
        }
    }
}

impl PesAssembler {
    /// Whether the unit being collected, if any, opens with a NAL unit.
    pub open spec fn units_ok(&self) -> bool {
        &&& self@.collecting ==> self@.current.len() > 0
        &&& self@.current.len() > 0 ==> opens_with_nal(self@.current)
    }

    pub fn new() -> (r: Self)
        ensures
            r@ == (PesView { current: Seq::empty(), video_pid: None, collecting: false }),
            r.units_ok(),
    {
        PesAssembler { current_pes: Vec::new(), video_pid: None, collecting: false }
    }

    /// Feeds one TS packet; returns the previous access unit when this packet
    /// opens the next PES on the video PID.
    pub fn push_ts_packet(&mut self, packet: &[u8]) -> (r: Option<Vec<u8>>)
        ensures
            (final(self)@, opt_bytes(r)) == pes_step(old(self)@, packet@),
            old(self).units_ok() && video_start_ok(old(self)@, packet@) ==> final(self).units_ok()
                && (r matches Some(u) ==> opens_with_nal(u@)),
    {
        if packet.len() < TS_PACKET_SIZE || packet[0] != TS_SYNC_BYTE {
            return None;
        }
        let pid: u16 = (((packet[1] & 0x1F) as u16) << 8u16) | packet[2] as u16;
        let pusi = (packet[1] & 0x40) != 0;
        let afc = (packet[3] >> 4u8) & 0x03;
        let has_payload = (afc & 0x01) != 0;
        if pid == 0 || pid == 0x1FFF {
            return None;
        }
        if self.video_pid.is_none() && pusi && has_payload {
            let offset = payload_offset(packet, afc);
            if offset + 4 <= TS_PACKET_SIZE {
                if packet[offset] == 0 && packet[offset + 1] == 0 && packet[offset + 2] == 1 {
                    let stream_id = packet[offset + 3];
                    if 0xE0 <= stream_id && stream_id <= 0xEF {
                        self.video_pid = Some(pid);
                    }
                }
            }
        }
        assert(self.video_pid == pid_after(old(self)@, packet@));
        let is_video = match self.video_pid {
            Some(v) => v == pid,
            None => false,
        };
        if !is_video || !has_payload {
            return None;
        }
        let offset = payload_offset(packet, afc);
        if offset >= TS_PACKET_SIZE {
            return None;
        }
        let ghost q = packet@.subrange(offset as int, packet@.len() as int);
        let mut completed: Option<Vec<u8>> = None;
        if pusi {
            if self.collecting && self.current_pes.len() > 0 {
                let mut unit: Vec<u8> = Vec::new();
                std::mem::swap(&mut unit, &mut self.current_pes);
                completed = Some(unit);
            }
            let plen = packet.len() - offset;
            if plen >= 9 && packet[offset] == 0 && packet[offset + 1] == 0 && packet[offset + 2]
                == 1 {
                let es_start: usize = offset + 9 + packet[offset + 8] as usize;
                if es_start < packet.len() {
                    let es = crate::bytes::copy_range(packet, es_start, packet.len());
                    append_bytes(&mut self.current_pes, es.as_slice());
                    assert(es@ =~= pes_es_bytes(q));
                } else {
                    assert(pes_es_bytes(q) =~= Seq::<u8>::empty());
                    assert(self.current_pes@ + pes_es_bytes(q) =~= self.current_pes@);
                }
                self.collecting = true;
            }
        } else if self.collecting {
            let tail = crate::bytes::copy_range(packet, offset, packet.len());
            append_bytes(&mut self.current_pes, tail.as_slice());
        }
        proof {
            if old(self).units_ok() && video_start_ok(old(self)@, packet@) {
                if pusi {
                    let cur0 = if completed is Some {
                        Seq::<u8>::empty()
                    } else {
                        old(self)@.current
                    };
                    assert(self@.current == cur0 + pes_es_bytes(q));
                    if cur0.len() > 0 {
                        lemma_nal_prefix_kept(cur0, pes_es_bytes(q));
                    } else {
                        assert(cur0 + pes_es_bytes(q) =~= pes_es_bytes(q));
                    }
                } else if old(self)@.collecting {
                    lemma_nal_prefix_kept(old(self)@.current, q);
                }
            }
        }
        completed
    }
}

/// The TS packets cut from `b` starting at `s`, and the bytes left for later.
/// A packet starts at a sync byte; when a full packet follows it, the next one
/// must start with a sync byte too. Otherwise one byte is skipped.
pub open spec fn ts_split_from(b: Seq<u8>, s: int) -> (Seq<Seq<u8>>, Seq<u8>)
    decreases b.len() - s,
{
    if s < 0 || s > b.len() {
        (Seq::empty(), Seq::empty())
    } else if b.len() - s < TS_PACKET_SIZE {
        (Seq::empty(), b.subrange(s, b.len() as int))
    } else if b[s] != TS_SYNC_BYTE || (b.len() - s >= 2 * TS_PACKET_SIZE && b[s + TS_PACKET_SIZE]
        != TS_SYNC_BYTE) {
        ts_split_from(b, s + 1)
    } else {
        let (ps, rest) = ts_split_from(b, s + TS_PACKET_SIZE);
        (seq![b.subrange(s, s + TS_PACKET_SIZE)] + ps, rest)
    }
}

/// Cuts a byte stream into 188-byte TS packets aligned on sync bytes.
pub struct TsSync {
    pending: Vec<u8>,
}

impl TsSync {
    pub closed spec fn pending(&self) -> Seq<u8> {
        self.pending@
    }

    pub fn new() -> (r: Self)
        ensures
            r.pending() == Seq::<u8>::empty(),
    {
        TsSync { pending: Vec::new() }
    }

    /// Reads a chunk; returns the whole packets now available, in order.
    pub fn push(&mut self, chunk: &[u8]) -> (r: Vec<Vec<u8>>)
        ensures
            (r@.map_values(|p: Vec<u8>| p@), final(self).pending()) == ts_split_from(
                old(self).pending() + chunk@,
                0,
            ),
    {
        let mut b: Vec<u8> = Vec::new();
        std::mem::swap(&mut b, &mut self.pending);
        append_bytes(&mut b, chunk);
        let ghost whole = b@;
        let n = b.len();
        let mut out: Vec<Vec<u8>> = Vec::new();
        let mut s: usize = 0;
        while n - s >= TS_PACKET_SIZE
            invariant
                b@ == whole,
                n == whole.len(),
                s <= n,
                ts_split_from(whole, 0) == ({
                    let (ps, rest) = ts_split_from(whole, s as int);
                    (out@.map_values(|p: Vec<u8>| p@) + ps, rest)
                }),
            decreases n - s,
        {
            if b[s] != TS_SYNC_BYTE || (n - s >= 2 * TS_PACKET_SIZE && b[s + TS_PACKET_SIZE]
                != TS_SYNC_BYTE) {
                s = s + 1;
            } else {
                let ghost prev = out@.map_values(|p: Vec<u8>| p@);
                let packet = crate::bytes::copy_range(b.as_slice(), s, s + TS_PACKET_SIZE);
                out.push(packet);
                proof {
                    let (ps, rest) = ts_split_from(whole, (s + TS_PACKET_SIZE) as int);
                    assert(out@.map_values(|p: Vec<u8>| p@) =~= prev.push(
                        whole.subrange(s as int, s + TS_PACKET_SIZE),
                    ));
                    assert(prev + (seq![whole.subrange(s as int, s + TS_PACKET_SIZE)] + ps)
                        =~= out@.map_values(|p: Vec<u8>| p@) + ps);
                }
                s = s + TS_PACKET_SIZE;
            }
        }
        self.pending = crate::bytes::copy_range(b.as_slice(), s, n);
        assert(out@.map_values(|p: Vec<u8>| p@) + Seq::<Seq<u8>>::empty() =~= out@.map_values(
            |p: Vec<u8>| p@,
        ));
        out
    }
}

} // verus!
