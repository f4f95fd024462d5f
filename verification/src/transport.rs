//! Transport framing: the 4-byte length prefix used on a reliable byte
//! stream, and the `(total_len, offset)` chunking protocol used on a
//! reliable datagram channel whose message size is smaller than a frame.
//! The sockets themselves live outside the library; they hand bytes in and
//! take bytes out.

use vstd::prelude::*;

use crate::protocol::spec_le32;
use crate::protocol::spec_u32_from_le;
use crate::protocol::u32_from_le_bytes;
use crate::protocol::u32_to_le_bytes;
use crate::text::extend_bytes;

verus! {

/// The largest stream frame accepted before the connection is treated as
/// hostile: 64 MiB.
pub const MAX_STREAM_FRAME_SIZE: usize = 0x400_0000;

/// The largest datagram chunk body sent on the reliable datagram channel,
/// below every common message-size limit.
pub const MAX_CHUNK_SIZE: usize = 60_000;

/// The bytes of one length-prefixed stream frame: the payload length as
/// four little-endian bytes, then the payload.
pub open spec fn spec_framed_packet(packet: Seq<u8>) -> Seq<u8> {
    spec_le32(packet.len() as u32) + packet
}

/// Frames one packet for the reliable stream transport.
pub fn frame_packet(packet: &[u8]) -> (r: Vec<u8>)
    requires
        packet@.len() <= u32::MAX,
    ensures
        r@ == spec_framed_packet(packet@),
{
    let len = packet.len() as u32;
    let (b0, b1, b2, b3) = u32_to_le_bytes(len);
    let mut r: Vec<u8> = Vec::new();
    r.push(b0);
    r.push(b1);
    r.push(b2);
    r.push(b3);
    extend_bytes(&mut r, packet);
    proof {
        assert(r@ =~= spec_framed_packet(packet@));
    }
    r
}

/// The length field at the front of a receive buffer.
pub open spec fn spec_buffered_frame_len(b: Seq<u8>) -> int
    recommends
        b.len() >= 4,
{
    spec_u32_from_le(b[0], b[1], b[2], b[3]) as int
}

/// Reassembles length-prefixed frames from a reliable byte stream: bytes go
/// in as they arrive, and each complete frame comes out once.
#[derive(Debug)]
pub struct StreamFramer {
    pub recv_buffer: Vec<u8>,
}

impl StreamFramer {
    pub fn new() -> (r: StreamFramer)
        ensures
            r.recv_buffer@ == Seq::<u8>::empty(),
    {
        StreamFramer { recv_buffer: Vec::new() }
    }

    /// Appends bytes read from the stream.
    pub fn feed(&mut self, bytes: &[u8])
        ensures
            final(self).recv_buffer@ == old(self).recv_buffer@ + bytes@,
    {
        extend_bytes(&mut self.recv_buffer, bytes);
    }

    /// Takes the first complete frame out of the buffer, if one is there:
    /// nothing until the length prefix and that many payload bytes have
    /// arrived, an error once the prefix declares a frame beyond the size
    /// bound, and otherwise the payload with the buffer advanced past it.
    pub fn try_take_packet(&mut self) -> (r: Result<Option<Vec<u8>>, String>)
        ensures
            old(self).recv_buffer@.len() < 4 ==> (r matches Ok(o) && o is None && final(self).recv_buffer@ == old(self).recv_buffer@),
            old(self).recv_buffer@.len() >= 4 && spec_buffered_frame_len(old(self).recv_buffer@)
                > MAX_STREAM_FRAME_SIZE ==> (r is Err && final(self).recv_buffer@ == old(self).recv_buffer@),
            old(self).recv_buffer@.len() >= 4 && spec_buffered_frame_len(old(self).recv_buffer@)
                <= MAX_STREAM_FRAME_SIZE && old(self).recv_buffer@.len() < 4
                + spec_buffered_frame_len(old(self).recv_buffer@) ==> (r matches Ok(o) && o is None
                && final(self).recv_buffer@ == old(self).recv_buffer@),
            old(self).recv_buffer@.len() >= 4 && spec_buffered_frame_len(old(self).recv_buffer@)
                <= MAX_STREAM_FRAME_SIZE && old(self).recv_buffer@.len() >= 4
                + spec_buffered_frame_len(old(self).recv_buffer@) ==> (r matches Ok(o) && o matches
                Some(p) && p@ == old(self).recv_buffer@.subrange(
                4,
                4 + spec_buffered_frame_len(old(self).recv_buffer@),
            ) && final(self).recv_buffer@ == old(self).recv_buffer@.skip(
                4 + spec_buffered_frame_len(old(self).recv_buffer@),
            )),
    {
        let buf_len = self.recv_buffer.len();
        if buf_len < 4 {
            return Ok(None);
        }
        let packet_len = u32_from_le_bytes(
            self.recv_buffer[0],
            self.recv_buffer[1],
            self.recv_buffer[2],
            self.recv_buffer[3],
        ) as usize;
        if packet_len > MAX_STREAM_FRAME_SIZE {
            return Err("stream frame too large".to_owned());
        }
        if buf_len - 4 < packet_len {
            return Ok(None);
        }
        let framed_len = 4 + packet_len;
        let mut packet: Vec<u8> = Vec::new();
        extend_bytes(
            &mut packet,
            vstd::slice::slice_subrange(self.recv_buffer.as_slice(), 4, framed_len),
        );
        let mut rest: Vec<u8> = Vec::new();
        extend_bytes(
            &mut rest,
            vstd::slice::slice_subrange(self.recv_buffer.as_slice(), framed_len, buf_len),
        );
        proof {
            assert(rest@ =~= old(self).recv_buffer@.skip(4 + packet_len));
        }
        self.recv_buffer = rest;
        Ok(Some(packet))
    }
}

/// The body of chunk `k` of a packet: the `MAX_CHUNK_SIZE` bytes starting
/// at its offset, or what remains of the packet.
pub open spec fn spec_chunk_body(packet: Seq<u8>, k: int) -> Seq<u8> {
    let start = k * MAX_CHUNK_SIZE;
    let end = if start + MAX_CHUNK_SIZE <= packet.len() {
        start + MAX_CHUNK_SIZE
    } else {
        packet.len() as int
    };
    packet.subrange(start, end)
}

/// The bytes of chunk `k` on the wire: the packet's total length and the
/// chunk's offset, each as four little-endian bytes, then the body.
pub open spec fn spec_chunk(packet: Seq<u8>, k: int) -> Seq<u8> {
    spec_le32(packet.len() as u32) + spec_le32((k * MAX_CHUNK_SIZE) as u32) + spec_chunk_body(
        packet,
        k,
    )
}

/// How many chunks a packet is split into: one per started
/// `MAX_CHUNK_SIZE` bytes; an empty packet sends nothing.
pub open spec fn spec_chunk_count(packet: Seq<u8>) -> int {
    (packet.len() + MAX_CHUNK_SIZE - 1) as int / MAX_CHUNK_SIZE as int
}

/// Splits one packet into datagram chunks, each carrying the total length
/// and its own offset so the peer can reassemble in any order.
pub fn chunk_packet(packet: &[u8]) -> (r: Vec<Vec<u8>>)
    requires
        packet@.len() <= u32::MAX,
    ensures
        r@.len() == spec_chunk_count(packet@),
        forall|k: int| 0 <= k < r@.len() ==> #[trigger] r@[k]@ == spec_chunk(packet@, k),
{
    let total_len = packet.len();
    let mut r: Vec<Vec<u8>> = Vec::new();
    let mut offset: usize = 0;
    while offset < total_len
        invariant
            total_len == packet@.len() <= u32::MAX,
            0 <= offset <= total_len,
            offset < total_len ==> offset == r@.len() * MAX_CHUNK_SIZE,
            offset == total_len ==> r@.len() == spec_chunk_count(packet@),
            forall|k: int| 0 <= k < r@.len() ==> #[trigger] r@[k]@ == spec_chunk(packet@, k),
        decreases total_len - offset,
    {
        let remaining = total_len - offset;
        let chunk_size = if remaining < MAX_CHUNK_SIZE {
            remaining
        } else {
            MAX_CHUNK_SIZE
        };
        let (t0, t1, t2, t3) = u32_to_le_bytes(total_len as u32);
        let (o0, o1, o2, o3) = u32_to_le_bytes(offset as u32);
        let mut chunk: Vec<u8> = Vec::new();
        chunk.push(t0);
        chunk.push(t1);
        chunk.push(t2);
        chunk.push(t3);
        chunk.push(o0);
        chunk.push(o1);
        chunk.push(o2);
        chunk.push(o3);
        extend_bytes(
            &mut chunk,
            vstd::slice::slice_subrange(packet, offset, offset + chunk_size),
        );
        let ghost k = r@.len() as int;
        proof {
            assert(chunk@ =~= spec_chunk(packet@, k));
        }
        r.push(chunk);
        offset = offset + chunk_size;
        proof {
            assert(offset == r@.len() * MAX_CHUNK_SIZE || offset == total_len)
                by (nonlinear_arith)
                requires
                    offset == (r@.len() - 1) * MAX_CHUNK_SIZE + (if total_len - (r@.len() - 1)
                        * MAX_CHUNK_SIZE < MAX_CHUNK_SIZE {
                        total_len - (r@.len() - 1) * MAX_CHUNK_SIZE
                    } else {
                        MAX_CHUNK_SIZE as int
                    }),
            ;
            if offset == total_len {
                assert(r@.len() == spec_chunk_count(packet@)) by (nonlinear_arith)
                    requires
                        total_len <= (r@.len() - 1) * MAX_CHUNK_SIZE + MAX_CHUNK_SIZE,
                        total_len > (r@.len() - 1) * MAX_CHUNK_SIZE,
                        spec_chunk_count(packet@) == (total_len + MAX_CHUNK_SIZE - 1) as int
                            / MAX_CHUNK_SIZE as int,
                        total_len == packet@.len(),
                ;
            }
        }
    }
    proof {
        if total_len == 0 {
            assert(spec_chunk_count(packet@) == 0);
        }
    }
    r
}

/// Reassembles one packet from datagram chunks carrying `(total_len,
/// offset)` prefixes, in whatever order they arrive: a packet is complete
/// when the chunks have covered every byte of `[0, total_len)`.
#[derive(Debug)]
pub struct ChunkAssembler {
    /// The declared total length of the packet being assembled.
    pub total_len: usize,
    /// The packet bytes received so far; bytes not yet covered are zero.
    pub buffer: Vec<u8>,
    /// Which packet bytes some chunk has covered.
    pub covered: Vec<bool>,
}

impl ChunkAssembler {
    /// The two internal vectors span exactly the declared length.
    pub open spec fn wf(self) -> bool {
        &&& self.buffer@.len() == self.total_len
        &&& self.covered@.len() == self.total_len
    }

    /// The assembler agrees with a packet: it was declared with the
    /// packet's length, and every covered byte holds the packet's byte.
    pub open spec fn spec_consistent_with(self, p: Seq<u8>) -> bool {
        &&& self.total_len == p.len()
        &&& forall|i: int| 0 <= i < p.len() && self.covered@[i] ==> self.buffer@[i] == p[i]
    }

    /// Every byte of the packet has been covered by some chunk.
    pub open spec fn spec_complete(self) -> bool {
        forall|i: int| 0 <= i < self.total_len ==> self.covered@[i]
    }

    /// Starts assembling a packet of the declared total length.
    pub fn new(total_len: usize) -> (r: ChunkAssembler)
        ensures
            r.wf(),
            r.total_len == total_len,
            forall|i: int| 0 <= i < total_len ==> !r.covered@[i],
            forall|p: Seq<u8>| p.len() == total_len ==> r.spec_consistent_with(p),
    {
        let buffer = vec![0u8; total_len];
        let covered = vec![false; total_len];
        ChunkAssembler { total_len, buffer, covered }
    }

    /// Accepts one chunk: its bytes are written at its offset and marked
    /// covered. A chunk that would run past the declared length is rejected
    /// and changes nothing.
    pub fn feed(&mut self, offset: usize, data: &[u8]) -> (accepted: bool)
        requires
            old(self).wf(),
        ensures
            final(self).wf(),
            final(self).total_len == old(self).total_len,
            accepted == (offset + data@.len() <= old(self).total_len),
            !accepted ==> *final(self) == *old(self),
            accepted ==> forall|i: int|
                0 <= i < old(self).total_len ==> final(self).buffer@[i] == (if offset <= i < offset
                    + data@.len() {
                    data@[i - offset]
                } else {
                    old(self).buffer@[i]
                }),
            accepted ==> forall|i: int|
                0 <= i < old(self).total_len ==> final(self).covered@[i] == (old(self).covered@[i]
                    || offset <= i < offset + data@.len()),
    {
        let data_len = data.len();
        if data_len > self.total_len || offset > self.total_len - data_len {
            return false;
        }
        let mut i: usize = 0;
        while i < data_len
            invariant
                old(self).wf(),
                self.wf(),
                self.total_len == old(self).total_len,
                0 <= i <= data_len,
                data_len == data@.len(),
                offset + data_len <= self.total_len,
                forall|j: int|
                    0 <= j < self.total_len ==> self.buffer@[j] == (if offset <= j < offset + i {
                        data@[j - offset]
                    } else {
                        old(self).buffer@[j]
                    }),
                forall|j: int|
                    0 <= j < self.total_len ==> self.covered@[j] == (old(self).covered@[j] || (
                    offset <= j < offset + i)),
            decreases data_len - i,
        {
            self.buffer[offset + i] = data[i];
            self.covered[offset + i] = true;
            i += 1;
        }
        true
    }

    /// Whether the chunks received so far cover the whole packet.
    pub fn complete(&self) -> (r: bool)
        requires
            self.wf(),
        ensures
            r == self.spec_complete(),
    {
        let n = self.total_len;
        let mut i: usize = 0;
        while i < n
            invariant
                0 <= i <= n,
                n == self.total_len,
                self.wf(),
                forall|j: int| 0 <= j < i ==> self.covered@[j],
            decreases n - i,
        {
            if !self.covered[i] {
                return false;
            }
            i += 1;
        }
        true
    }

    /// The assembled packet; meaningful once assembly is complete.
    pub fn packet(&self) -> (r: &Vec<u8>)
        ensures
            r@ == self.buffer@,
    {
        &self.buffer
    }
}

/// Feeding a true chunk of a packet keeps the assembler consistent with
/// that packet: when every chunk fed so far carried the packet's own bytes
/// at its offset, every covered byte still holds the packet's byte.
pub proof fn lemma_feed_preserves_consistency(
    pre: ChunkAssembler,
    post: ChunkAssembler,
    offset: int,
    data: Seq<u8>,
    p: Seq<u8>,
)
    requires
        pre.wf(),
        pre.spec_consistent_with(p),
        0 <= offset,
        offset + data.len() <= p.len(),
        data == p.subrange(offset, offset + data.len()),
        post.total_len == pre.total_len,
        forall|i: int|
            0 <= i < pre.total_len ==> post.buffer@[i] == (if offset <= i < offset + data.len() {
                data[i - offset]
            } else {
                pre.buffer@[i]
            }),
        forall|i: int|
            0 <= i < pre.total_len ==> post.covered@[i] == (pre.covered@[i] || offset <= i < offset
                + data.len()),
    ensures
        post.spec_consistent_with(p),
{
}

/// A complete, consistent assembler holds exactly the original packet: the
/// reassembled bytes equal the packet however the chunks were ordered.
pub proof fn lemma_reassembled_packet(a: ChunkAssembler, p: Seq<u8>)
    requires
        a.wf(),
        a.spec_consistent_with(p),
        a.spec_complete(),
    ensures
        a.buffer@ == p,
{
    assert(a.buffer@ =~= p);
}

/// A chunk produced by the splitter carries the packet's own bytes at its
/// offset: the splitter and the assembler compose into the identity.
pub proof fn lemma_chunk_body_is_subrange(packet: Seq<u8>, k: int)
    requires
        0 <= k < spec_chunk_count(packet),
    ensures
        spec_chunk(packet, k).subrange(8, spec_chunk(packet, k).len() as int) == packet.subrange(
            k * MAX_CHUNK_SIZE,
            k * MAX_CHUNK_SIZE + spec_chunk_body(packet, k).len(),
        ),
        spec_chunk(packet, k).len() == 8 + spec_chunk_body(packet, k).len(),
        k * MAX_CHUNK_SIZE + spec_chunk_body(packet, k).len() <= packet.len(),
{
    assert(k * MAX_CHUNK_SIZE < packet.len()) by (nonlinear_arith)
        requires
            0 <= k < spec_chunk_count(packet),
            spec_chunk_count(packet) == (packet.len() + MAX_CHUNK_SIZE - 1) as int
                / MAX_CHUNK_SIZE as int,
            packet.len() >= 0,
    ;
    assert(spec_chunk(packet, k).subrange(8, spec_chunk(packet, k).len() as int) =~= packet
        .subrange(k * MAX_CHUNK_SIZE, k * MAX_CHUNK_SIZE + spec_chunk_body(packet, k).len()));
}

} // verus!
