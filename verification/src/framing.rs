//! Length-prefixed framing: every frame is a 4-byte big-endian body length
//! followed by a body of 1 to [`MAX_FRAME_BYTES`] bytes.

use crate::error::ProtocolError;
use vstd::prelude::*;

verus! {

/// The largest frame body.
pub const MAX_FRAME_BYTES: u32 = 1048576;

/// The big-endian value of the first four bytes of `b`.
pub open spec fn be_u32(b: Seq<u8>) -> int
    recommends
        b.len() >= 4,
{
    b[0] as int * 16777216 + b[1] as int * 65536 + b[2] as int * 256 + b[3] as int
}

/// The big-endian bytes of `n`.
pub open spec fn u32_be_bytes(n: u32) -> Seq<u8> {
    seq![
        (n / 16777216) as u8,
        ((n / 65536) % 256) as u8,
        ((n / 256) % 256) as u8,
        (n % 256) as u8,
    ]
}

/// A frame carrying `body`.
pub open spec fn frame_spec(body: Seq<u8>) -> Seq<u8> {
    u32_be_bytes(body.len() as u32) + body
}

/// Whether a body can be framed.
pub open spec fn frameable(body: Seq<u8>) -> bool {
    0 < body.len() <= MAX_FRAME_BYTES
}

/// The outcome of scanning a buffer for frames: the complete bodies in
/// order, the bytes that remain buffered, and the error that stopped the
/// scan, if any. A header announcing an empty or oversized body is an
/// error; it stays at the front of the remaining bytes.
pub struct FrameScan {
    pub bodies: Seq<Seq<u8>>,
    pub rest: Seq<u8>,
    pub error: Option<ProtocolError>,
}

pub open spec fn scan_frames(buf: Seq<u8>) -> FrameScan
    decreases buf.len(),
{
    if buf.len() < 4 {
        FrameScan { bodies: seq![], rest: buf, error: None }
    } else {
        let length = be_u32(buf);
        if length == 0 || length > MAX_FRAME_BYTES {
            FrameScan { bodies: seq![], rest: buf, error: Some(ProtocolError::InvalidFrameSize) }
        } else if buf.len() < 4 + length {
            FrameScan { bodies: seq![], rest: buf, error: None }
        } else {
            let tail = scan_frames(buf.skip(4 + length));
            FrameScan {
                bodies: seq![buf.subrange(4, 4 + length)] + tail.bodies,
                rest: tail.rest,
                error: tail.error,
            }
        }
    }
}

proof fn lemma_be_bytes(n: u32, rest: Seq<u8>)
    ensures
        (u32_be_bytes(n) + rest).len() == 4 + rest.len(),
        be_u32(u32_be_bytes(n) + rest) == n,
{
    let b = u32_be_bytes(n) + rest;
    assert(b[0] == (n / 16777216) as u8);
    assert(b[1] == ((n / 65536) % 256) as u8);
    assert(b[2] == ((n / 256) % 256) as u8);
    assert(b[3] == (n % 256) as u8);
    assert((n / 16777216) as nat * 16777216 + ((n / 65536) % 256) as nat * 65536 + ((n / 256)
        % 256) as nat * 256 + (n % 256) as nat == n) by (nonlinear_arith);
}

/// Scanning a frame followed by more bytes yields the frame's body first,
/// then whatever the remaining bytes yield.
pub proof fn lemma_scan_frame_prefix(body: Seq<u8>, rest: Seq<u8>)
    requires
        frameable(body),
    ensures
        scan_frames(frame_spec(body) + rest) == (FrameScan {
            bodies: seq![body] + scan_frames(rest).bodies,
            rest: scan_frames(rest).rest,
            error: scan_frames(rest).error,
        }),
{
    let buf = frame_spec(body) + rest;
    lemma_be_bytes(body.len() as u32, body + rest);
    assert(buf =~= u32_be_bytes(body.len() as u32) + (body + rest));
    assert(buf.skip(4 + body.len() as int) =~= rest);
    assert(buf.subrange(4, 4 + body.len() as int) =~= body);
}

/// Scanning is insensitive to how the bytes were split: scanning `x` and
/// then the leftover of `x` followed by `y` gives the same bodies as
/// scanning `x + y` at once, when scanning `x` met no error.
pub proof fn lemma_scan_split(x: Seq<u8>, y: Seq<u8>)
    requires
        scan_frames(x).error is None,
    ensures
        scan_frames(x + y) == (FrameScan {
            bodies: scan_frames(x).bodies + scan_frames(scan_frames(x).rest + y).bodies,
            rest: scan_frames(scan_frames(x).rest + y).rest,
            error: scan_frames(scan_frames(x).rest + y).error,
        }),
    decreases x.len(),
{
    let s = scan_frames(x);
    if x.len() < 4 || x.len() < 4 + be_u32(x) {
        assert(s.rest == x);
        assert(s.bodies =~= Seq::<Seq<u8>>::empty());
        assert(s.bodies + scan_frames(x + y).bodies =~= scan_frames(x + y).bodies);
    } else {
        let length = be_u32(x);
        let xy = x + y;
        assert(be_u32(xy) == length);
        assert(xy.skip(4 + length) =~= x.skip(4 + length) + y);
        assert(xy.subrange(4, 4 + length) =~= x.subrange(4, 4 + length));
        lemma_scan_split(x.skip(4 + length), y);
        let t = scan_frames(x.skip(4 + length));
        assert(s.bodies == seq![x.subrange(4, 4 + length)] + t.bodies);
        assert(seq![x.subrange(4, 4 + length)] + (t.bodies + scan_frames(t.rest + y).bodies)
            =~= s.bodies + scan_frames(s.rest + y).bodies);
    }
}

/// Frames `body` with its big-endian length, refusing an empty or oversized body.
pub fn encode_frame(body: &[u8]) -> (r: Result<Vec<u8>, ProtocolError>)
    ensures
        frameable(body@) ==> (r matches Ok(v) && v@ == frame_spec(body@)),
        !frameable(body@) ==> r == Err::<Vec<u8>, _>(ProtocolError::InvalidFrameSize),
{
    let n = body.len();
    if n == 0 || n > MAX_FRAME_BYTES as usize {
        return Err(ProtocolError::InvalidFrameSize);
    }
    let len = n as u32;
    let mut output: Vec<u8> = Vec::new();
    output.push((len / 16777216) as u8);
    output.push(((len / 65536) % 256) as u8);
    output.push(((len / 256) % 256) as u8);
    output.push((len % 256) as u8);
    let mut i: usize = 0;
    while i < n
        invariant
            n == body@.len(),
            len as nat == n,
            i <= n,
            output@ == u32_be_bytes(len) + body@.subrange(0, i as int),
        decreases n - i,
    {
        output.push(body[i]);
        i = i + 1;
        proof {
            assert(output@ =~= u32_be_bytes(len) + body@.subrange(0, i as int));
        }
    }
    proof {
        assert(body@.subrange(0, n as int) =~= body@);
    }
    Ok(output)
}

/// Accumulates received bytes and splits them into frame bodies.
pub struct FrameDecoder {
    buffer: Vec<u8>,
}

impl View for FrameDecoder {
    type V = Seq<u8>;

    closed spec fn view(&self) -> Seq<u8> {
        self.buffer@
    }
}

pub open spec fn bodies_match(v: Seq<Vec<u8>>, s: Seq<Seq<u8>>) -> bool {
    v.len() == s.len() && forall|i: int| 0 <= i < v.len() ==> #[trigger] v[i]@ == s[i]
}

impl FrameDecoder {
    pub fn new() -> (d: FrameDecoder)
        ensures
            d@ == Seq::<u8>::empty(),
    {
        FrameDecoder { buffer: Vec::new() }
    }

    /// Appends `bytes` and takes every complete frame off the front of the
    /// buffer. A header announcing an empty or oversized body is refused and
    /// stays buffered; the frames before it are dropped.
    pub fn push(&mut self, bytes: &[u8]) -> (r: Result<Vec<Vec<u8>>, ProtocolError>)
        ensures
            ({
                let s = scan_frames(old(self)@ + bytes@);
                &&& final(self)@ == s.rest
                &&& match s.error {
                    Some(e) => r == Err::<Vec<Vec<u8>>, _>(e),
                    None => r matches Ok(v) && bodies_match(v@, s.bodies),
                }
            }),
    {
        let ghost all = self.buffer@ + bytes@;
        let mut k: usize = 0;
        while k < bytes.len()
            invariant
                k <= bytes@.len(),
                self.buffer@ == old(self)@ + bytes@.subrange(0, k as int),
            decreases bytes.len() - k,
        {
            self.buffer.push(bytes[k]);
            k = k + 1;
            proof {
                assert(self.buffer@ =~= old(self)@ + bytes@.subrange(0, k as int));
            }
        }
        proof {
            assert(bytes@.subrange(0, bytes@.len() as int) =~= bytes@);
        }
        let n = self.buffer.len();
        let mut bodies: Vec<Vec<u8>> = Vec::new();
        let mut pos: usize = 0;
        let mut failed: bool = false;
        proof {
            assert(all.skip(0) =~= all);
        }
        loop
            invariant_except_break
                self.buffer@ == all,
                n == all.len(),
                pos <= n,
                !failed,
                ({
                    let tail = scan_frames(all.skip(pos as int));
                    let whole = scan_frames(all);
                    &&& whole.rest == tail.rest
                    &&& whole.error == tail.error
                    &&& bodies.len() + tail.bodies.len() == whole.bodies.len()
                    &&& forall|i: int| 0 <= i < bodies.len() ==> #[trigger] bodies@[i]@ == whole.bodies[i]
                    &&& forall|i: int| 0 <= i < tail.bodies.len() ==> #[trigger] tail.bodies[i] == whole.bodies[bodies.len() + i]
                }),
            ensures
                self.buffer@ == all,
                n == all.len(),
                pos <= n,
                ({
                    let whole = scan_frames(all);
                    &&& whole.rest == all.skip(pos as int)
                    &&& failed ==> whole.error == Some(ProtocolError::InvalidFrameSize)
                    &&& !failed ==> whole.error is None
                    &&& !failed ==> bodies_match(bodies@, whole.bodies)
                }),
            decreases n - pos,
        {
            let ghost here = all.skip(pos as int);
            if n - pos < 4 {
                proof {
                    assert(bodies@.len() == scan_frames(all).bodies.len());
                }
                break;
            }
            let b0 = self.buffer[pos];
            let b1 = self.buffer[pos + 1];
            let b2 = self.buffer[pos + 2];
            let b3 = self.buffer[pos + 3];
            let length: u32 = b0 as u32 * 16777216 + b1 as u32 * 65536 + b2 as u32 * 256 + b3 as u32;
            proof {
                assert(here[0] == b0 && here[1] == b1 && here[2] == b2 && here[3] == b3);
                assert(be_u32(here) == length);
            }
            if length == 0 || length > MAX_FRAME_BYTES {
                failed = true;
                break;
            }
            let total = 4 + length as usize;
            if n - pos < total {
                proof {
                    assert(bodies@.len() == scan_frames(all).bodies.len());
                }
                break;
            }
            let mut body: Vec<u8> = Vec::new();
            let mut j: usize = pos + 4;
            while j < pos + total
                invariant
                    self.buffer@ == all,
                    n == all.len(),
                    pos + total <= n,
                    pos + 4 <= j <= pos + total,
                    body@ == all.subrange(pos + 4, j as int),
                decreases pos + total - j,
            {
                body.push(self.buffer[j]);
                j = j + 1;
                proof {
                    assert(body@ =~= all.subrange(pos + 4, j as int));
                }
            }
            proof {
                assert(here.subrange(4, 4 + length as int) =~= all.subrange(pos + 4, pos + total));
                assert(here.skip(4 + length as int) =~= all.skip(pos + total));
                let tail = scan_frames(here);
                let next = scan_frames(all.skip(pos + total));
                assert(tail.bodies == seq![here.subrange(4, 4 + length as int)] + next.bodies);
                assert(tail.bodies[0] == body@);
                assert forall|i: int| 0 <= i < next.bodies.len() implies #[trigger] next.bodies[i]
                    == scan_frames(all).bodies[bodies.len() + 1 + i] by {
                    assert(next.bodies[i] == tail.bodies[i + 1]);
                }
            }
            bodies.push(body);
            pos = pos + total;
        }
        let mut rest: Vec<u8> = Vec::new();
        let mut j: usize = pos;
        while j < n
            invariant
                self.buffer@ == all,
                n == all.len(),
                pos <= j <= n,
                rest@ == all.subrange(pos as int, j as int),
            decreases n - j,
        {
            rest.push(self.buffer[j]);
            j = j + 1;
            proof {
                assert(rest@ =~= all.subrange(pos as int, j as int));
            }
        }
        proof {
            assert(rest@ =~= all.skip(pos as int));
        }
        self.buffer = rest;
        if failed {
            Err(ProtocolError::InvalidFrameSize)
        } else {
            Ok(bodies)
        }
    }
}

/// Framed decoding does not depend on how the stream is split: a decoder
/// holding `buffer` that takes `x` (without error) and then `y` hands out the
/// same bodies, in order, and keeps the same leftover bytes and error, as
/// one that takes `x + y` at once.
pub proof fn lemma_push_split(buffer: Seq<u8>, x: Seq<u8>, y: Seq<u8>)
    requires
        scan_frames(buffer + x).error is None,
    ensures
        ({
            let first = scan_frames(buffer + x);
            let second = scan_frames(first.rest + y);
            let whole = scan_frames(buffer + (x + y));
            &&& whole.bodies == first.bodies + second.bodies
            &&& whole.rest == second.rest
            &&& whole.error == second.error
        }),
{
    lemma_scan_split(buffer + x, y);
    assert(buffer + (x + y) =~= (buffer + x) + y);
}

} // verus!
