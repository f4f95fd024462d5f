//! The framed wire protocol: a 16-byte little-endian header in front of every
//! packet, a tag byte that classifies the packet, and two flag bits.

use vstd::prelude::*;

verus! {

/// Wire flag bit marking a keyframe access unit.
pub const FLAG_KEYFRAME: u8 = 0x01;

/// Wire flag bit set on every completed video frame packet.
pub const FLAG_END_OF_FRAME: u8 = 0x02;

/// Number of bytes in the wire header.
pub const HEADER_SIZE: usize = 16;

/// Classifies a wire packet.
#[derive(Debug, Clone, Copy, PartialEq, Eq, Structural)]
pub enum FrameType {
    /// Encoded bitstream access unit, server to client.
    VideoFrame,
    /// Empty-payload request for an immediate keyframe, client to server.
    KeyframeRequest,
    /// Structured diagnostic blob, either direction.
    Stats,
    /// JSON array of monitor descriptors, server to client.
    MonitorList,
    /// JSON monitor selection, client to server.
    MonitorSelect,
    /// JSON encoder parameters, both directions.
    EncodingSettings,
    /// Tagged JSON mouse event, client to server.
    MouseInput,
    /// JSON keyboard event, client to server.
    KeyboardInput,
    /// Opaque heartbeat.
    Ping,
    /// Opaque heartbeat echo.
    Pong,
}

impl FrameType {
    /// The tag byte this type is written as on the wire.
    pub open spec fn spec_tag(self) -> u8 {
        match self {
            FrameType::VideoFrame => 0x01,
            FrameType::KeyframeRequest => 0x02,
            FrameType::Stats => 0x03,
            FrameType::MonitorList => 0x04,
            FrameType::MonitorSelect => 0x05,
            FrameType::EncodingSettings => 0x06,
            FrameType::MouseInput => 0x07,
            FrameType::KeyboardInput => 0x08,
            FrameType::Ping => 0x10,
            FrameType::Pong => 0x11,
        }
    }

    pub fn tag(self) -> (r: u8)
        ensures
            r == self.spec_tag(),
    {
        match self {
            FrameType::VideoFrame => 0x01,
            FrameType::KeyframeRequest => 0x02,
            FrameType::Stats => 0x03,
            FrameType::MonitorList => 0x04,
            FrameType::MonitorSelect => 0x05,
            FrameType::EncodingSettings => 0x06,
            FrameType::MouseInput => 0x07,
            FrameType::KeyboardInput => 0x08,
            FrameType::Ping => 0x10,
            FrameType::Pong => 0x11,
        }
    }

    /// The type a tag byte stands for, if any.
    pub open spec fn spec_from_tag(tag: u8) -> Option<FrameType> {
        if tag == 0x01 {
            Some(FrameType::VideoFrame)
        } else if tag == 0x02 {
            Some(FrameType::KeyframeRequest)
        } else if tag == 0x03 {
            Some(FrameType::Stats)
        } else if tag == 0x04 {
            Some(FrameType::MonitorList)
        } else if tag == 0x05 {
            Some(FrameType::MonitorSelect)
        } else if tag == 0x06 {
            Some(FrameType::EncodingSettings)
        } else if tag == 0x07 {
            Some(FrameType::MouseInput)
        } else if tag == 0x08 {
            Some(FrameType::KeyboardInput)
        } else if tag == 0x10 {
            Some(FrameType::Ping)
        } else if tag == 0x11 {
            Some(FrameType::Pong)
        } else {
            None
        }
    }

    pub fn from_tag(tag: u8) -> (r: Option<FrameType>)
        ensures
            r == FrameType::spec_from_tag(tag),
    {
        match tag {
            0x01 => Some(FrameType::VideoFrame),
            0x02 => Some(FrameType::KeyframeRequest),
            0x03 => Some(FrameType::Stats),
            0x04 => Some(FrameType::MonitorList),
            0x05 => Some(FrameType::MonitorSelect),
            0x06 => Some(FrameType::EncodingSettings),
            0x07 => Some(FrameType::MouseInput),
            0x08 => Some(FrameType::KeyboardInput),
            0x10 => Some(FrameType::Ping),
            0x11 => Some(FrameType::Pong),
            _ => None,
        }
    }
}

/// The flag byte carried in the wire header.
#[derive(Debug, Clone, Copy, PartialEq, Eq, Structural)]
pub struct FrameFlags {
    pub bits: u8,
}

impl FrameFlags {
    /// Only the two defined flag bits may be set.
    pub open spec fn wf(self) -> bool {
        self.bits & !(FLAG_KEYFRAME | FLAG_END_OF_FRAME) == 0
    }

    pub open spec fn spec_keyframe(self) -> bool {
        self.bits & FLAG_KEYFRAME != 0
    }

    pub open spec fn spec_end_of_frame(self) -> bool {
        self.bits & FLAG_END_OF_FRAME != 0
    }

    pub fn empty() -> (r: FrameFlags)
        ensures
            r.bits == 0,
            r.wf(),
            !r.spec_keyframe(),
            !r.spec_end_of_frame(),
    {
        proof {
            assert(0u8 & !(0x01u8 | 0x02u8) == 0 && 0u8 & 0x01u8 == 0 && 0u8 & 0x02u8 == 0)
                by (bit_vector);
        }
        FrameFlags { bits: 0 }
    }

    /// Drops any undefined bits, as the decoder does.
    pub fn from_bits_truncate(bits: u8) -> (r: FrameFlags)
        ensures
            r.bits == bits & (FLAG_KEYFRAME | FLAG_END_OF_FRAME),
            r.wf(),
    {
        proof {
            assert((bits & (0x01u8 | 0x02u8)) & !(0x01u8 | 0x02u8) == 0) by (bit_vector);
        }
        FrameFlags { bits: bits & (FLAG_KEYFRAME | FLAG_END_OF_FRAME) }
    }

    pub fn keyframe(self) -> (r: bool)
        ensures
            r == self.spec_keyframe(),
    {
        self.bits & FLAG_KEYFRAME != 0
    }

    pub fn end_of_frame(self) -> (r: bool)
        ensures
            r == self.spec_end_of_frame(),
    {
        self.bits & FLAG_END_OF_FRAME != 0
    }
}

/// The fields of every video-frame flag byte: `END_OF_FRAME` always set,
/// `KEYFRAME` set iff the encoder marked the access unit.
pub open spec fn spec_video_flags(is_keyframe: bool) -> u8 {
    if is_keyframe {
        FLAG_END_OF_FRAME | FLAG_KEYFRAME
    } else {
        FLAG_END_OF_FRAME
    }
}

/// Builds the flag byte of a video frame packet.
pub fn video_flags(is_keyframe: bool) -> (r: FrameFlags)
    ensures
        r.bits == spec_video_flags(is_keyframe),
        r.wf(),
        r.spec_end_of_frame(),
        r.spec_keyframe() == is_keyframe,
{
    proof {
        assert((0x02u8 | 0x01u8) & !(0x01u8 | 0x02u8) == 0 && 0x02u8 & !(0x01u8 | 0x02u8) == 0
            && (0x02u8 | 0x01u8) & 0x02u8 != 0 && 0x02u8 & 0x02u8 != 0
            && (0x02u8 | 0x01u8) & 0x01u8 != 0 && 0x02u8 & 0x01u8 == 0) by (bit_vector);
    }
    if is_keyframe {
        FrameFlags { bits: FLAG_END_OF_FRAME | FLAG_KEYFRAME }
    } else {
        FrameFlags { bits: FLAG_END_OF_FRAME }
    }
}

/// The wire header: type tag, flags, sequence, presentation timestamp and
/// payload length, all little-endian, padded with two reserved zero bytes.
#[derive(Debug, Clone, Copy, PartialEq, Eq, Structural)]
pub struct FrameHeader {
    pub frame_type: FrameType,
    pub flags: FrameFlags,
    pub sequence: u32,
    pub pts: u32,
    pub payload_len: u32,
}

/// The four little-endian bytes of a 32-bit value.
pub open spec fn spec_le32(v: u32) -> Seq<u8> {
    seq![
        (v & 0xff) as u8,
        ((v >> 8) & 0xff) as u8,
        ((v >> 16) & 0xff) as u8,
        ((v >> 24) & 0xff) as u8,
    ]
}

/// The 32-bit value read from four little-endian bytes.
pub open spec fn spec_u32_from_le(b0: u8, b1: u8, b2: u8, b3: u8) -> u32 {
    (b0 as u32) | (b1 as u32) << 8 | (b2 as u32) << 16 | (b3 as u32) << 24
}

pub proof fn lemma_le32_round_trip(v: u32)
    ensures
        spec_u32_from_le(
            spec_le32(v)[0],
            spec_le32(v)[1],
            spec_le32(v)[2],
            spec_le32(v)[3],
        ) == v,
{
    let b0 = (v & 0xff) as u8;
    let b1 = ((v >> 8) & 0xff) as u8;
    let b2 = ((v >> 16) & 0xff) as u8;
    let b3 = ((v >> 24) & 0xff) as u8;
    assert((b0 as u32) | (b1 as u32) << 8 | (b2 as u32) << 16 | (b3 as u32) << 24 == v
        && b0 == (v & 0xff) as u8 && b1 == ((v >> 8) & 0xff) as u8
        && b2 == ((v >> 16) & 0xff) as u8 && b3 == ((v >> 24) & 0xff) as u8) by (bit_vector)
        requires
            b0 == (v & 0xff) as u8,
            b1 == ((v >> 8) & 0xff) as u8,
            b2 == ((v >> 16) & 0xff) as u8,
            b3 == ((v >> 24) & 0xff) as u8,
    ;
}

/// The 16 bytes a header is serialized to.
pub open spec fn spec_header_bytes(h: FrameHeader) -> Seq<u8> {
    seq![h.frame_type.spec_tag(), h.flags.bits] + spec_le32(h.sequence) + spec_le32(h.pts)
        + spec_le32(h.payload_len) + seq![0u8, 0u8]
}

/// The header read back from 16 bytes: `None` exactly when the first byte is
/// no defined tag. Undefined flag bits are dropped.
pub open spec fn spec_header_from_bytes(b: Seq<u8>) -> Option<FrameHeader>
    recommends
        b.len() >= HEADER_SIZE,
{
    match FrameType::spec_from_tag(b[0]) {
        Some(frame_type) => Some(
            FrameHeader {
                frame_type,
                flags: FrameFlags { bits: b[1] & (FLAG_KEYFRAME | FLAG_END_OF_FRAME) },
                sequence: spec_u32_from_le(b[2], b[3], b[4], b[5]),
                pts: spec_u32_from_le(b[6], b[7], b[8], b[9]),
                payload_len: spec_u32_from_le(b[10], b[11], b[12], b[13]),
            },
        ),
        None => None,
    }
}

impl FrameHeader {
    /// Every flag byte written by this library keeps to the defined bits.
    pub open spec fn wf(self) -> bool {
        self.flags.wf()
    }

    /// Serializes the header to its 16 wire bytes.
    pub fn to_bytes(&self) -> (r: [u8; 16])
        ensures
            r@ == spec_header_bytes(*self),
    {
        let s = u32_to_le_bytes(self.sequence);
        let p = u32_to_le_bytes(self.pts);
        let l = u32_to_le_bytes(self.payload_len);
        let buf: [u8; 16] = [
            self.frame_type.tag(),
            self.flags.bits,
            s.0,
            s.1,
            s.2,
            s.3,
            p.0,
            p.1,
            p.2,
            p.3,
            l.0,
            l.1,
            l.2,
            l.3,
            0,
            0,
        ];
        proof {
            assert(buf@ =~= spec_header_bytes(*self));
        }
        buf
    }

    /// Deserializes a header from its 16 wire bytes; `None` exactly when the
    /// tag byte is outside the defined set.
    pub fn from_bytes(buf: &[u8; 16]) -> (r: Option<FrameHeader>)
        ensures
            r == spec_header_from_bytes(buf@),
            r is None <==> FrameType::spec_from_tag(buf@[0]) is None,
    {
        let frame_type = match FrameType::from_tag(buf[0]) {
            Some(t) => t,
            None => {
                return None;
            },
        };
        Some(
            FrameHeader {
                frame_type,
                flags: FrameFlags::from_bits_truncate(buf[1]),
                sequence: u32_from_le_bytes(buf[2], buf[3], buf[4], buf[5]),
                pts: u32_from_le_bytes(buf[6], buf[7], buf[8], buf[9]),
                payload_len: u32_from_le_bytes(buf[10], buf[11], buf[12], buf[13]),
            },
        )
    }
}

/// Splits a 32-bit value into its four little-endian bytes.
pub fn u32_to_le_bytes(v: u32) -> (r: (u8, u8, u8, u8))
    ensures
        seq![r.0, r.1, r.2, r.3] == spec_le32(v),
{
    let r = (
        (v & 0xff) as u8,
        ((v >> 8) & 0xff) as u8,
        ((v >> 16) & 0xff) as u8,
        ((v >> 24) & 0xff) as u8,
    );
    proof {
        assert(seq![r.0, r.1, r.2, r.3] =~= spec_le32(v));
    }
    r
}

/// Reads a 32-bit value from four little-endian bytes.
pub fn u32_from_le_bytes(b0: u8, b1: u8, b2: u8, b3: u8) -> (r: u32)
    ensures
        r == spec_u32_from_le(b0, b1, b2, b3),
{
    proof {
        assert((b0 as u32) | (b1 as u32) << 8 | (b2 as u32) << 16 | (b3 as u32) << 24 <= 0xffff_ffff)
            by (bit_vector);
    }
    (b0 as u32) | (b1 as u32) << 8 | (b2 as u32) << 16 | (b3 as u32) << 24
}

/// Decoding a serialized header gives back the header: the round trip is the
/// identity on every header whose flag byte keeps to the defined bits.
pub proof fn lemma_header_round_trip(h: FrameHeader)
    requires
        h.wf(),
    ensures
        spec_header_from_bytes(spec_header_bytes(h)) == Some(h),
{
    let b = spec_header_bytes(h);
    assert(FrameType::spec_from_tag(b[0]) == Some(h.frame_type));
    let bits = h.flags.bits;
    assert(bits & !(0x01u8 | 0x02u8) == 0 ==> bits & (0x01u8 | 0x02u8) == bits) by (bit_vector);
    lemma_le32_round_trip(h.sequence);
    lemma_le32_round_trip(h.pts);
    lemma_le32_round_trip(h.payload_len);
    assert(b[2] == spec_le32(h.sequence)[0] && b[3] == spec_le32(h.sequence)[1]
        && b[4] == spec_le32(h.sequence)[2] && b[5] == spec_le32(h.sequence)[3]);
    assert(b[6] == spec_le32(h.pts)[0] && b[7] == spec_le32(h.pts)[1]
        && b[8] == spec_le32(h.pts)[2] && b[9] == spec_le32(h.pts)[3]);
    assert(b[10] == spec_le32(h.payload_len)[0] && b[11] == spec_le32(h.payload_len)[1]
        && b[12] == spec_le32(h.payload_len)[2] && b[13] == spec_le32(h.payload_len)[3]);
}

/// Running encode-time statistics reported for a stream.
#[derive(Debug, Clone)]
pub struct StreamStats {
    /// Time spent encoding, in microseconds.
    pub encode_time_us: u64,
    /// Latency from capture to send, in microseconds.
    pub capture_to_send_us: u64,
    /// Sequence number of the current frame.
    pub frame_seq: u32,
    /// Server timestamp in microseconds since the epoch.
    pub server_timestamp_us: u64,
}

} // verus!
