use vstd::prelude::*;
use vstd::slice::slice_subrange;

use crate::error::ProtocolError;
use crate::header::lemma_header_decode_with_trailing;
use crate::header::spec_header_bytes;
use crate::header::ProtocolHeader;
use crate::serialize::BinarySerialize;
use crate::wire::read_bytes_at;
use crate::wire::write_bytes;

verus! {

/// One complete message on the wire: a 14-byte header followed by exactly
/// `header.payload_length` payload bytes.  The batch containers carry runs
/// of these as their typed sub-records.
#[derive(Debug, Clone, PartialEq, Eq)]
pub struct Frame {
    pub header: ProtocolHeader,
    pub payload: Vec<u8>,
}

/// The mathematical content of a `Frame`.
#[verifier::ext_equal]
pub ghost struct FrameView {
    pub header: ProtocolHeader,
    pub payload: Seq<u8>,
}

impl View for Frame {
    type V = FrameView;

    open spec fn view(&self) -> FrameView {
        FrameView { header: self.header, payload: self.payload@ }
    }
}

/// The wire bytes of a frame: its header's 14 bytes, then its payload.
pub open spec fn spec_frame_bytes(v: FrameView) -> Seq<u8> {
    spec_header_bytes(v.header) + v.payload
}

/// A frame reads back from the front of its own encoding, whatever follows
/// it, provided its header's declared payload length matches its payload.
pub proof fn lemma_frame_decode_with_trailing(v: FrameView, t: Seq<u8>)
    requires
        v.payload.len() == v.header.payload_length as int,
    ensures
        spec_frame_bytes(v).len() == 14 + v.payload.len(),
        Frame::spec_deserialize(spec_frame_bytes(v) + t) == Ok::<FrameView, ProtocolError>(v),
{
    lemma_header_decode_with_trailing(v.header, v.payload + t);
    let data = spec_frame_bytes(v) + t;
    assert(data =~= spec_header_bytes(v.header) + (v.payload + t));
    let pl = v.header.payload_length as int;
    assert(data.subrange(14, 14 + pl) =~= v.payload);
    assert(Frame::spec_deserialize(data) matches Ok(w) && w =~= v);
}

impl BinarySerialize for Frame {
    open spec fn spec_wf(v: FrameView) -> bool {
        v.payload.len() == v.header.payload_length as int
    }

    open spec fn spec_min_wire_len() -> nat {
        14
    }

    open spec fn spec_serialize(v: FrameView) -> Result<Seq<u8>, ProtocolError> {
        if v.payload.len() != v.header.payload_length as int {
            Err(ProtocolError::InvalidData)
        } else {
            Ok(spec_frame_bytes(v))
        }
    }

    open spec fn spec_deserialize(data: Seq<u8>) -> Result<FrameView, ProtocolError> {
        match ProtocolHeader::spec_deserialize(data) {
            Err(e) => Err(e),
            Ok(header) => {
                let pl = header.payload_length as int;
                if data.len() < 14 + pl {
                    Err(ProtocolError::IoError)
                } else {
                    Ok(FrameView { header, payload: data.subrange(14, 14 + pl) })
                }
            },
        }
    }

    fn serialize(&self) -> (r: Result<Vec<u8>, ProtocolError>) {
        if self.payload.len() != self.header.payload_length as usize {
            return Err(ProtocolError::InvalidData);
        }
        let mut out = match self.header.serialize() {
            Ok(b) => b,
            Err(e) => return Err(e),
        };
        write_bytes(&mut out, self.payload.as_slice());
        proof {
            assert(out@ =~= spec_frame_bytes(self@));
        }
        Ok(out)
    }

    fn deserialize(data: &[u8]) -> (r: Result<Frame, ProtocolError>) {
        let header = match ProtocolHeader::deserialize(data) {
            Ok(h) => h,
            Err(e) => return Err(e),
        };
        let payload = match read_bytes_at(data, 14, header.payload_length as usize) {
            Ok(p) => p,
            Err(e) => return Err(e),
        };
        let result = Frame { header, payload };
        proof {
            assert(Self::spec_deserialize(data@) matches Ok(w) && w =~= result@);
        }
        Ok(result)
    }

    proof fn lemma_serialize_deserialize(v: FrameView) {
        if v.payload.len() == v.header.payload_length as int {
            lemma_frame_decode_with_trailing(v, Seq::empty());
            assert(spec_frame_bytes(v) + Seq::<u8>::empty() =~= spec_frame_bytes(v));
        }
    }

    proof fn lemma_short_input(data: Seq<u8>) {
    }
}

/// The wire bytes of a run of frames: each frame's encoding, in order, with
/// nothing between them.
pub open spec fn spec_frame_run_bytes(s: Seq<FrameView>) -> Seq<u8>
    decreases s.len(),
{
    if s.len() == 0 {
        Seq::empty()
    } else {
        spec_frame_bytes(s[0]) + spec_frame_run_bytes(s.skip(1))
    }
}

pub proof fn lemma_frame_run_bytes_push(s: Seq<FrameView>, f: FrameView)
    ensures
        spec_frame_run_bytes(s.push(f)) == spec_frame_run_bytes(s) + spec_frame_bytes(f),
    decreases s.len(),
{
    if s.len() == 0 {
        assert(s.push(f)[0] == f);
        assert(s.push(f).skip(1) =~= Seq::<FrameView>::empty());
        assert(spec_frame_run_bytes(Seq::<FrameView>::empty()) == Seq::<u8>::empty());
        assert(spec_frame_run_bytes(s.push(f)) == spec_frame_bytes(f) + Seq::<u8>::empty());
        assert(spec_frame_bytes(f) + Seq::<u8>::empty() =~= spec_frame_bytes(f));
        assert(spec_frame_run_bytes(s) + spec_frame_bytes(f) =~= spec_frame_bytes(f));
    } else {
        assert(s.push(f)[0] == s[0]);
        assert(s.push(f).skip(1) =~= s.skip(1).push(f));
        lemma_frame_run_bytes_push(s.skip(1), f);
        assert(spec_frame_run_bytes(s.push(f)) == spec_frame_bytes(s[0]) + spec_frame_run_bytes(
            s.skip(1).push(f),
        ));
        assert(spec_frame_bytes(s[0]) + (spec_frame_run_bytes(s.skip(1)) + spec_frame_bytes(f))
            =~= (spec_frame_bytes(s[0]) + spec_frame_run_bytes(s.skip(1))) + spec_frame_bytes(f));
    }
}

/// The exact parse of `n` frames from `data`, consuming all of it: the
/// frames in order; the short-read error where a frame overruns the bytes;
/// the invalid-data error where the bytes outlast the declared count.
pub open spec fn spec_parse_frame_run(data: Seq<u8>, n: nat) -> Result<
    Seq<FrameView>,
    ProtocolError,
>
    decreases n,
{
    if n == 0 {
        if data.len() == 0 {
            Ok(Seq::empty())
        } else {
            Err(ProtocolError::InvalidData)
        }
    } else {
        match Frame::spec_deserialize(data) {
            Err(e) => Err(e),
            Ok(f) => match spec_parse_frame_run(
                data.skip(14 + f.payload.len() as int),
                (n - 1) as nat,
            ) {
                Err(e) => Err(e),
                Ok(rest) => Ok(seq![f] + rest),
            },
        }
    }
}

/// Parsing a run's encoding recovers the run: the frame-level round trip,
/// lifted to whole runs.
pub proof fn lemma_parse_frame_run_roundtrip(s: Seq<FrameView>)
    requires
        forall|i: int|
            0 <= i < s.len() ==> (#[trigger] s[i]).payload.len() == s[i].header.payload_length
                as int,
    ensures
        spec_parse_frame_run(spec_frame_run_bytes(s), s.len()) == Ok::<
            Seq<FrameView>,
            ProtocolError,
        >(s),
    decreases s.len(),
{
    if s.len() > 0 {
        let f = s[0];
        let rest = s.skip(1);
        lemma_frame_decode_with_trailing(f, spec_frame_run_bytes(rest));
        let data = spec_frame_run_bytes(s);
        assert(Frame::spec_deserialize(data) == Ok::<FrameView, ProtocolError>(f));
        assert(data.skip(14 + f.payload.len() as int) =~= spec_frame_run_bytes(rest));
        assert forall|i: int| 0 <= i < rest.len() implies (#[trigger] rest[i]).payload.len()
            == rest[i].header.payload_length as int by {
            assert(rest[i] == s[i + 1]);
        }
        lemma_parse_frame_run_roundtrip(rest);
        assert(spec_parse_frame_run(data, s.len()) == Ok::<Seq<FrameView>, ProtocolError>(
            seq![f] + rest,
        ));
        assert(seq![f] + rest =~= s);
    } else {
        assert(s =~= Seq::<FrameView>::empty());
    }
}

/// Encodes a run of frames back to back, or reports the first frame whose
/// header's declared payload length disagrees with its payload.
pub fn serialize_frame_run(frames: &Vec<Frame>) -> (r: Result<Vec<u8>, ProtocolError>)
    ensures
        match r {
            Ok(body) => {
                &&& forall|i: int|
                    0 <= i < frames@.len() ==> Frame::spec_wf(#[trigger] frames@[i]@)
                &&& body@ == spec_frame_run_bytes(frames@.map_values(|f: Frame| f@))
            },
            Err(e) => {
                &&& e == ProtocolError::InvalidData
                &&& !(forall|i: int|
                    0 <= i < frames@.len() ==> Frame::spec_wf(#[trigger] frames@[i]@))
            },
        },
{
    let ghost views = frames@.map_values(|f: Frame| f@);
    let mut i: usize = 0;
    while i < frames.len()
        invariant
            i <= frames@.len(),
            forall|j: int| 0 <= j < i ==> Frame::spec_wf(#[trigger] frames@[j]@),
        decreases frames@.len() - i,
    {
        let frame = &frames[i];
        if frame.payload.len() != frame.header.payload_length as usize {
            proof {
                assert(!Frame::spec_wf(frames@[i as int]@));
            }
            return Err(ProtocolError::InvalidData);
        }
        i = i + 1;
    }
    let mut body: Vec<u8> = Vec::new();
    let mut i: usize = 0;
    while i < frames.len()
        invariant
            i <= frames@.len(),
            views == frames@.map_values(|f: Frame| f@),
            forall|j: int| 0 <= j < frames@.len() ==> Frame::spec_wf(#[trigger] frames@[j]@),
            body@ == spec_frame_run_bytes(views.take(i as int)),
        decreases frames@.len() - i,
    {
        let mut frame_bytes = match (&frames[i]).serialize() {
            Ok(b) => b,
            Err(e) => return Err(e),
        };
        body.append(&mut frame_bytes);
        proof {
            assert(views.take(i + 1) =~= views.take(i as int).push(views[i as int]));
            lemma_frame_run_bytes_push(views.take(i as int), views[i as int]);
            assert(views[i as int] == frames@[i as int]@);
        }
        i = i + 1;
    }
    proof {
        assert(views.take(views.len() as int) =~= views);
    }
    Ok(body)
}

/// Parses exactly `count` frames out of `region`, which must hold them and
/// nothing else.
pub fn parse_frame_run(region: &[u8], count: usize) -> (r: Result<Vec<Frame>, ProtocolError>)
    ensures
        (match r {
            Ok(frames) => spec_parse_frame_run(region@, count as nat) == Ok::<
                Seq<FrameView>,
                ProtocolError,
            >(frames@.map_values(|f: Frame| f@)),
            Err(e) => spec_parse_frame_run(region@, count as nat) == Err::<
                Seq<FrameView>,
                ProtocolError,
            >(e),
        }),
{
    let mut frames: Vec<Frame> = Vec::new();
    let mut off: usize = 0;
    let mut i: usize = 0;
    let region_len: usize = region.len();
    proof {
        assert(region@.skip(0) =~= region@);
        assert(frames@.map_values(|f: Frame| f@) =~= Seq::<FrameView>::empty());
        if spec_parse_frame_run(region@, count as nat) is Ok {
            let rest = spec_parse_frame_run(region@, count as nat)->Ok_0;
            assert(frames@.map_values(|f: Frame| f@) + rest =~= rest);
        }
    }
    while i < count
        invariant
            i <= count,
            off <= region@.len(),
            region@.len() == region_len,
            spec_parse_frame_run(region@, count as nat) == (match spec_parse_frame_run(
                region@.skip(off as int),
                (count - i) as nat,
            ) {
                Ok(rest) => Ok::<Seq<FrameView>, ProtocolError>(
                    frames@.map_values(|f: Frame| f@) + rest,
                ),
                Err(e) => Err::<Seq<FrameView>, ProtocolError>(e),
            }),
        decreases count - i,
    {
        let rest_slice = slice_subrange(region, off, region.len());
        proof {
            assert(rest_slice@ =~= region@.skip(off as int));
        }
        let frame = match Frame::deserialize(rest_slice) {
            Ok(f) => f,
            Err(e) => return Err(e),
        };
        let pl = frame.header.payload_length as usize;
        proof {
            assert(frame@.payload.len() == pl as int);
            assert(off + 14 + pl <= region@.len());
            assert(region@.skip(off as int).skip(14 + pl as int) =~= region@.skip(
                off as int + 14 + pl as int,
            ));
        }
        let ghost old_views = frames@.map_values(|f: Frame| f@);
        frames.push(frame);
        proof {
            assert(frames@.map_values(|f: Frame| f@) =~= old_views.push(frame@));
            let rem = region@.skip(off as int + 14 + pl as int);
            if spec_parse_frame_run(rem, (count - (i + 1)) as nat) is Ok {
                let rest = spec_parse_frame_run(rem, (count - (i + 1)) as nat)->Ok_0;
                assert(old_views + (seq![frame@] + rest) =~= old_views.push(frame@) + rest);
            }
        }
        off = off + 14 + pl;
        i = i + 1;
    }
    if off != region.len() {
        proof {
            assert(region@.skip(off as int).len() != 0);
        }
        return Err(ProtocolError::InvalidData);
    }
    proof {
        assert(region@.skip(off as int).len() == 0);
        assert(frames@.map_values(|f: Frame| f@) + Seq::<FrameView>::empty() =~= frames@.map_values(
            |f: Frame| f@,
        ));
    }
    Ok(frames)
}

} // verus!
