//! Encoder parameter selection: codec kinds, the clamped encoding settings a
//! client may request, the configuration handed to the hardware codec, and
//! the per-codec option dictionary.

use vstd::prelude::*;

use crate::text::normalize_u32;
use crate::text::spec_chars_u32;
use crate::text::spec_normalized_u32;
use crate::text::u32s_eq_chars;

verus! {

/// Default target frames per second.
pub const DEFAULT_TARGET_FPS: u32 = 60;

pub const MIN_TARGET_FPS: u32 = 24;

pub const MAX_TARGET_FPS: u32 = 120;

/// Default target bitrate in bits per second.
pub const DEFAULT_TARGET_BITRATE: usize = 20_000_000;

pub const MIN_TARGET_BITRATE: usize = 2_000_000;

pub const MAX_TARGET_BITRATE: usize = 80_000_000;

/// Default keyframe interval in seconds.
pub const DEFAULT_KEYFRAME_INTERVAL_SECS: u32 = 2;

pub const MIN_KEYFRAME_INTERVAL_SECS: u32 = 1;

pub const MAX_KEYFRAME_INTERVAL_SECS: u32 = 10;

/// The hardware codecs the encoder can run.
#[derive(Debug, Clone, Copy, PartialEq, Eq, Structural)]
pub enum VideoCodec {
    Av1,
    Avc,
    Hevc,
}

/// The codec a client-supplied name stands for, if any: the name is trimmed
/// of white space and ASCII-case-folded, then matched against the schema's
/// tokens.
pub open spec fn spec_from_client_name(s: Seq<char>) -> Option<VideoCodec> {
    let n = spec_normalized_u32(s);
    if n == spec_chars_u32("av1"@) {
        Some(VideoCodec::Av1)
    } else if n == spec_chars_u32("avc"@) || n == spec_chars_u32("h264"@) {
        Some(VideoCodec::Avc)
    } else if n == spec_chars_u32("hevc"@) || n == spec_chars_u32("h265"@) {
        Some(VideoCodec::Hevc)
    } else {
        None
    }
}

impl VideoCodec {
    /// The name this codec is echoed to clients as.
    pub open spec fn spec_client_name(self) -> Seq<char> {
        match self {
            VideoCodec::Av1 => "av1"@,
            VideoCodec::Avc => "avc"@,
            VideoCodec::Hevc => "hevc"@,
        }
    }

    /// Parses a codec name from a client payload, tolerating surrounding
    /// white space and upper-case spellings.
    pub fn from_client_name(raw: &str) -> (r: Option<VideoCodec>)
        ensures
            r == spec_from_client_name(raw@),
    {
        let normalized = normalize_u32(raw);
        if u32s_eq_chars(&normalized, "av1") {
            Some(VideoCodec::Av1)
        } else if u32s_eq_chars(&normalized, "avc") || u32s_eq_chars(&normalized, "h264") {
            Some(VideoCodec::Avc)
        } else if u32s_eq_chars(&normalized, "hevc") || u32s_eq_chars(&normalized, "h265") {
            Some(VideoCodec::Hevc)
        } else {
            None
        }
    }

    /// The name echoed back to clients.
    pub fn as_client_name(self) -> (r: &'static str)
        ensures
            r@ == self.spec_client_name(),
    {
        match self {
            VideoCodec::Av1 => "av1",
            VideoCodec::Avc => "avc",
            VideoCodec::Hevc => "hevc",
        }
    }

    /// The human-readable codec name.
    pub fn display_name(self) -> (r: &'static str)
        ensures
            self is Av1 ==> r@ == "AV1"@,
            self is Avc ==> r@ == "AVC"@,
            self is Hevc ==> r@ == "HEVC"@,
    {
        match self {
            VideoCodec::Av1 => "AV1",
            VideoCodec::Avc => "AVC",
            VideoCodec::Hevc => "HEVC",
        }
    }

    /// The name the hardware encoder is looked up under.
    pub fn ffmpeg_encoder_name(self) -> (r: &'static str)
        ensures
            self is Av1 ==> r@ == "av1_amf"@,
            self is Avc ==> r@ == "h264_amf"@,
            self is Hevc ==> r@ == "hevc_amf"@,
    {
        match self {
            VideoCodec::Av1 => "av1_amf",
            VideoCodec::Avc => "h264_amf",
            VideoCodec::Hevc => "hevc_amf",
        }
    }
}

/// The active encoding parameters of a session; always within the clamped
/// ranges.
#[derive(Debug, Clone, Copy, PartialEq, Eq, Structural)]
pub struct EncodingSettings {
    pub codec: VideoCodec,
    pub fps: u32,
    /// Target bitrate in bits per second.
    pub bitrate: usize,
    /// Keyframe interval in seconds.
    pub keyframe_interval_secs: u32,
}

impl EncodingSettings {
    /// Every field sits inside its clamped range.
    pub open spec fn wf(self) -> bool {
        &&& MIN_TARGET_FPS <= self.fps <= MAX_TARGET_FPS
        &&& MIN_TARGET_BITRATE <= self.bitrate <= MAX_TARGET_BITRATE
        &&& MIN_KEYFRAME_INTERVAL_SECS <= self.keyframe_interval_secs
            <= MAX_KEYFRAME_INTERVAL_SECS
    }

    pub open spec fn spec_default() -> EncodingSettings {
        EncodingSettings {
            codec: VideoCodec::Av1,
            fps: DEFAULT_TARGET_FPS,
            bitrate: DEFAULT_TARGET_BITRATE,
            keyframe_interval_secs: DEFAULT_KEYFRAME_INTERVAL_SECS,
        }
    }
}

impl Default for EncodingSettings {
    /// AV1 at 60 fps, 20 Mb/s, 2 s keyframe interval.
    fn default() -> (r: EncodingSettings)
        ensures
            r == EncodingSettings::spec_default(),
            r.wf(),
    {
        EncodingSettings {
            codec: VideoCodec::Av1,
            fps: DEFAULT_TARGET_FPS,
            bitrate: DEFAULT_TARGET_BITRATE,
            keyframe_interval_secs: DEFAULT_KEYFRAME_INTERVAL_SECS,
        }
    }
}

/// Encoding parameters as a client requests them, before clamping.
#[derive(Debug, Clone, PartialEq, Eq)]
pub struct SettingsRequest {
    pub fps: u32,
    pub bitrate: u32,
    pub keyframe_interval: u32,
    /// Requested codec name; an unknown or missing name keeps the current
    /// codec.
    pub codec: Option<String>,
}

pub open spec fn spec_clamp_u32(x: u32, lo: u32, hi: u32) -> u32 {
    if x < lo {
        lo
    } else if x > hi {
        hi
    } else {
        x
    }
}

pub open spec fn spec_clamp_usize(x: usize, lo: usize, hi: usize) -> usize {
    if x < lo {
        lo
    } else if x > hi {
        hi
    } else {
        x
    }
}

pub fn clamp_u32(x: u32, lo: u32, hi: u32) -> (r: u32)
    requires
        lo <= hi,
    ensures
        r == spec_clamp_u32(x, lo, hi),
{
    if x < lo {
        lo
    } else if x > hi {
        hi
    } else {
        x
    }
}

pub fn clamp_usize(x: usize, lo: usize, hi: usize) -> (r: usize)
    requires
        lo <= hi,
    ensures
        r == spec_clamp_usize(x, lo, hi),
{
    if x < lo {
        lo
    } else if x > hi {
        hi
    } else {
        x
    }
}

/// The codec a request selects: the requested name if it is known, else the
/// current codec.
pub open spec fn spec_requested_codec(current: VideoCodec, req: &SettingsRequest) -> VideoCodec {
    match req.codec {
        Some(s) => match spec_from_client_name(s@) {
            Some(c) => c,
            None => current,
        },
        None => current,
    }
}

/// The settings a request resolves to: fps, bitrate and keyframe interval
/// clamped into their ranges, the codec kept unless a known name is given.
pub open spec fn spec_clamped_settings(
    current: &EncodingSettings,
    req: &SettingsRequest,
) -> EncodingSettings {
    EncodingSettings {
        codec: spec_requested_codec(current.codec, req),
        fps: spec_clamp_u32(req.fps, MIN_TARGET_FPS, MAX_TARGET_FPS),
        bitrate: spec_clamp_usize(req.bitrate as usize, MIN_TARGET_BITRATE, MAX_TARGET_BITRATE),
        keyframe_interval_secs: spec_clamp_u32(
            req.keyframe_interval,
            MIN_KEYFRAME_INTERVAL_SECS,
            MAX_KEYFRAME_INTERVAL_SECS,
        ),
    }
}

/// Clamps a client request against the active settings.
pub fn clamp_settings(current: &EncodingSettings, req: &SettingsRequest) -> (r: EncodingSettings)
    ensures
        r == spec_clamped_settings(current, req),
        r.wf(),
{
    let codec = match &req.codec {
        Some(s) => match VideoCodec::from_client_name(s.as_str()) {
            Some(c) => c,
            None => current.codec,
        },
        None => current.codec,
    };
    EncodingSettings {
        codec,
        fps: clamp_u32(req.fps, MIN_TARGET_FPS, MAX_TARGET_FPS),
        bitrate: clamp_usize(req.bitrate as usize, MIN_TARGET_BITRATE, MAX_TARGET_BITRATE),
        keyframe_interval_secs: clamp_u32(
            req.keyframe_interval,
            MIN_KEYFRAME_INTERVAL_SECS,
            MAX_KEYFRAME_INTERVAL_SECS,
        ),
    }
}

/// One encoded access unit drained from the hardware codec.
#[derive(Debug, Clone)]
pub struct EncodedFrame {
    /// The encoded bitstream bytes.
    pub data: Vec<u8>,
    /// Presentation timestamp stamped at submission.
    pub pts: i64,
    /// Whether the encoder marked this access unit a keyframe.
    pub is_keyframe: bool,
    /// Microseconds elapsed in the encode call that produced it.
    pub encode_time_us: u64,
}

/// Configuration the hardware codec is opened with.
#[derive(Debug, Clone, PartialEq, Eq, Structural)]
pub struct EncoderConfig {
    pub codec: VideoCodec,
    pub width: u32,
    pub height: u32,
    pub fps: u32,
    /// Target bitrate in bits per second.
    pub bitrate: usize,
    /// Keyframe interval in seconds.
    pub keyframe_interval: u32,
}

impl EncoderConfig {
    /// Closed GOP length: one keyframe every `keyframe_interval` seconds.
    pub open spec fn spec_gop(self) -> int {
        self.fps * self.keyframe_interval
    }

    /// The frames in one closed group of pictures.
    pub fn gop(&self) -> (r: u32)
        requires
            self.fps * self.keyframe_interval <= u32::MAX,
        ensures
            r == self.spec_gop(),
    {
        self.fps * self.keyframe_interval
    }
}

impl Default for EncoderConfig {
    fn default() -> (r: EncoderConfig)
        ensures
            r.codec == VideoCodec::Av1,
            r.width == 1920,
            r.height == 1080,
            r.fps == 60,
            r.bitrate == 10_000_000,
            r.keyframe_interval == 2,
    {
        EncoderConfig {
            codec: VideoCodec::Av1,
            width: 1920,
            height: 1080,
            fps: 60,
            bitrate: 10_000_000,
            keyframe_interval: 2,
        }
    }
}

/// The configuration an encoder is built with for the given frame size and
/// session settings.
pub open spec fn spec_encoder_config(
    width: u32,
    height: u32,
    settings: EncodingSettings,
) -> EncoderConfig {
    EncoderConfig {
        codec: settings.codec,
        width,
        height,
        fps: settings.fps,
        bitrate: settings.bitrate,
        keyframe_interval: settings.keyframe_interval_secs,
    }
}

pub fn encoder_config(width: u32, height: u32, settings: EncodingSettings) -> (r: EncoderConfig)
    ensures
        r == spec_encoder_config(width, height, settings),
{
    EncoderConfig {
        codec: settings.codec,
        width,
        height,
        fps: settings.fps,
        bitrate: settings.bitrate,
        keyframe_interval: settings.keyframe_interval_secs,
    }
}

/// The option dictionary every codec is opened with, in order: speed-first
/// quality, latency-oriented rate control, no frame skipping, no
/// pre-analysis, no pre-encode, no filler data, no debug logging.
pub open spec fn spec_common_options() -> Seq<(Seq<char>, Seq<char>)> {
    seq![
        ("quality"@, "speed"@),
        ("rc"@, "vbr_latency"@),
        ("frame_skipping"@, "false"@),
        ("preanalysis"@, "false"@),
        ("preencode"@, "false"@),
        ("filler_data"@, "false"@),
        ("log_to_dbg"@, "false"@),
    ]
}

/// The codec-specific options appended after the common ones.
pub open spec fn spec_codec_options(codec: VideoCodec) -> Seq<(Seq<char>, Seq<char>)> {
    match codec {
        VideoCodec::Av1 => seq![("usage"@, "lowlatency"@), ("header_insertion_mode"@, "gop"@)],
        VideoCodec::Avc => seq![
            ("usage"@, "ultralowlatency"@),
            ("vbaq"@, "false"@),
            ("bf"@, "0"@),
            ("forced_idr"@, "true"@),
            ("header_spacing"@, "1"@),
        ],
        VideoCodec::Hevc => seq![
            ("usage"@, "ultralowlatency"@),
            ("vbaq"@, "false"@),
            ("header_insertion_mode"@, "gop"@),
        ],
    }
}

/// The view of an option list as pairs of character sequences.
pub open spec fn spec_options_view(v: Seq<(&'static str, &'static str)>) -> Seq<
    (Seq<char>, Seq<char>),
> {
    v.map_values(|p: (&'static str, &'static str)| (p.0@, p.1@))
}

/// Builds the full option dictionary the hardware codec is opened with.
pub fn encoder_options(codec: VideoCodec) -> (r: Vec<(&'static str, &'static str)>)
    ensures
        spec_options_view(r@) == spec_common_options() + spec_codec_options(codec),
{
    let mut r: Vec<(&'static str, &'static str)> = Vec::new();
    r.push(("quality", "speed"));
    r.push(("rc", "vbr_latency"));
    r.push(("frame_skipping", "false"));
    r.push(("preanalysis", "false"));
    r.push(("preencode", "false"));
    r.push(("filler_data", "false"));
    r.push(("log_to_dbg", "false"));
    match codec {
        VideoCodec::Av1 => {
            r.push(("usage", "lowlatency"));
            r.push(("header_insertion_mode", "gop"));
        },
        VideoCodec::Avc => {
            r.push(("usage", "ultralowlatency"));
            r.push(("vbaq", "false"));
            r.push(("bf", "0"));
            r.push(("forced_idr", "true"));
            r.push(("header_spacing", "1"));
        },
        VideoCodec::Hevc => {
            r.push(("usage", "ultralowlatency"));
            r.push(("vbaq", "false"));
            r.push(("header_insertion_mode", "gop"));
        },
    }
    proof {
        assert(spec_options_view(r@) =~= spec_common_options() + spec_codec_options(codec));
    }
    r
}

/// The presentation-timestamp counter of an encoder wrapper: each submitted
/// frame is stamped with the next timestamp, which increases by one.
#[derive(Debug, Clone, Copy, PartialEq, Eq, Structural)]
pub struct FrameClock {
    pub next_pts: i64,
}

impl FrameClock {
    pub fn new() -> (r: FrameClock)
        ensures
            r.next_pts == 0,
    {
        FrameClock { next_pts: 0 }
    }

    /// Stamps one submitted frame: hands out the next timestamp and advances
    /// it by one.
    pub fn stamp(&mut self) -> (pts: i64)
        requires
            old(self).next_pts < i64::MAX,
        ensures
            pts == old(self).next_pts,
            final(self).next_pts == old(self).next_pts + 1,
    {
        let pts = self.next_pts;
        self.next_pts = self.next_pts + 1;
        pts
    }
}

} // verus!
