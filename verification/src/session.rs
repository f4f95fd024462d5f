//! The per-client session state machine: control-message handling with its
//! deferred monitor and settings slots, the keyframe latch, the wrapping
//! video sequence counter, packet building, and frame pacing arithmetic.
//! The blocking loop that drives it — capture, encode, transport — runs
//! outside the library and feeds every outcome back in as plain values.

use vstd::prelude::*;

use crate::capture::MonitorInfo;
use crate::encoder::clamp_settings;
use crate::encoder::spec_clamped_settings;
use crate::encoder::EncodingSettings;
use crate::encoder::SettingsRequest;
use crate::input::ActiveMonitor;
use crate::input::InputInjector;
use crate::input::KeyInputRecord;
use crate::input::MouseInputRecord;
use crate::input::spec_map_virtual_key;
use crate::input::spec_mouse_button_flags;
use crate::input::spec_move_record;
use crate::input::spec_norm_micro_from_f64_bits;
use crate::input::spec_wheel_data;
use crate::input::MOUSEEVENTF_HWHEEL;
use crate::input::MOUSEEVENTF_WHEEL;
use crate::payloads::control_payload;
use crate::payloads::keyboard_input_of;
use crate::payloads::monitor_select_of;
use crate::payloads::mouse_input_of;
use crate::payloads::parse_keyboard_input;
use crate::payloads::parse_monitor_select;
use crate::payloads::parse_mouse_input;
use crate::payloads::parse_settings_request;
use crate::payloads::settings_request_of;
use crate::payloads::spec_control_payload;
use crate::payloads::spec_settings_request_view;
use crate::payloads::MouseEvent;
use crate::protocol::spec_header_bytes;
use crate::text::extend_bytes;
use crate::protocol::spec_header_from_bytes;
use crate::protocol::spec_video_flags;
use crate::protocol::FrameFlags;
use crate::protocol::FrameHeader;
use crate::protocol::FrameType;
use crate::protocol::HEADER_SIZE;

verus! {

/// The microsecond margin the pacer spins for instead of sleeping.
pub const PACE_SPIN_MARGIN_US: u64 = 1500;

/// Whether a session stays up after a receive attempt.
#[derive(Debug, Clone, Copy, PartialEq, Eq, Structural)]
pub enum ClientConnectionState {
    Alive,
    Closed,
}

/// What one receive outcome means for the control drain: deliver the packet
/// to the handler, stop draining with the client alive, or close the
/// session.
#[derive(Debug, Clone, Copy, PartialEq, Eq, Structural)]
pub enum DrainStep {
    Deliver,
    Alive,
    Closed,
}

/// Classifies one zero-timeout receive: a packet is handled, no packet ends
/// the drain, and a transport error closes the session.
pub fn classify_recv(outcome: &Result<Option<Vec<u8>>, String>) -> (r: DrainStep)
    ensures
        outcome matches Ok(Some(_)) ==> r == DrainStep::Deliver,
        outcome matches Ok(o) && o is None ==> r == DrainStep::Alive,
        outcome is Err ==> r == DrainStep::Closed,
{
    match outcome {
        Ok(Some(_)) => DrainStep::Deliver,
        Ok(None) => DrainStep::Alive,
        Err(_) => DrainStep::Closed,
    }
}

/// The first enumerated monitor with the given index, if any.
pub open spec fn spec_find_monitor(monitors: Seq<MonitorInfo>, index: u32) -> Option<MonitorInfo>
    decreases monitors.len(),
{
    if monitors.len() == 0 {
        None
    } else if monitors[0].index == index {
        Some(monitors[0])
    } else {
        spec_find_monitor(monitors.drop_first(), index)
    }
}

/// The geometry input coordinates are mapped onto: the enumerated monitor
/// with the given index, or a rectangle of the capture size at the desktop
/// origin when the index is unknown.
pub open spec fn spec_resolve_active_monitor(
    monitors: Seq<MonitorInfo>,
    index: u32,
    fallback_width: u32,
    fallback_height: u32,
) -> ActiveMonitor {
    match spec_find_monitor(monitors, index) {
        Some(m) => ActiveMonitor { left: m.left, top: m.top, width: m.width, height: m.height },
        None => ActiveMonitor { left: 0, top: 0, width: fallback_width, height: fallback_height },
    }
}

/// Looks the active monitor geometry up by index, with the capture size as
/// the fallback.
pub fn resolve_active_monitor(
    monitors: &[MonitorInfo],
    monitor_index: u32,
    fallback_width: u32,
    fallback_height: u32,
) -> (r: ActiveMonitor)
    ensures
        r == spec_resolve_active_monitor(
            monitors@,
            monitor_index,
            fallback_width,
            fallback_height,
        ),
{
    let n = monitors.len();
    proof {
        assert(monitors@.skip(0) =~= monitors@);
    }
    let mut i: usize = 0;
    while i < n
        invariant
            0 <= i <= n,
            n == monitors@.len(),
            spec_find_monitor(monitors@, monitor_index) == spec_find_monitor(
                monitors@.skip(i as int),
                monitor_index,
            ),
        decreases n - i,
    {
        proof {
            assert(monitors@.skip(i as int)[0] == monitors@[i as int]);
            assert(monitors@.skip(i as int).drop_first() =~= monitors@.skip(i + 1));
        }
        let m = &monitors[i];
        if m.index == monitor_index {
            return ActiveMonitor { left: m.left, top: m.top, width: m.width, height: m.height };
        }
        i += 1;
    }
    proof {
        assert(monitors@.skip(n as int) =~= Seq::<MonitorInfo>::empty());
    }
    ActiveMonitor { left: 0, top: 0, width: fallback_width, height: fallback_height }
}

/// The per-client session state: active settings, current monitor, the
/// keyframe latch, the two deferred control slots, and the wrapping video
/// sequence counter.
#[derive(Debug)]
pub struct SessionState {
    pub settings: EncodingSettings,
    pub current_monitor_index: u32,
    pub force_keyframe: bool,
    pub pending_monitor_switch: Option<u32>,
    pub pending_encoding_settings: Option<SettingsRequest>,
    pub frame_seq: u32,
    pub active_monitor: ActiveMonitor,
    /// Capture-device losses since the last good frame; the first is
    /// answered by rebuilding the engine, the second closes the client.
    pub capture_failures: u32,
}

/// What the session does about a lost capture device.
#[derive(Debug, Clone, Copy, PartialEq, Eq, Structural)]
pub enum CaptureRecovery {
    /// Rebuild the capture engine for the same monitor index.
    Rebuild,
    /// Give up and close the client.
    CloseSession,
}

/// The sequence counter after one video packet: wrapping 32-bit increment.
pub open spec fn spec_wrap_inc(s: u32) -> u32 {
    if s == u32::MAX {
        0
    } else {
        (s + 1) as u32
    }
}

/// Consecutive video packets carry sequence numbers `s` and `s + 1` modulo
/// two to the thirty-second.
pub proof fn lemma_sequence_monotonic(s: u32)
    ensures
        spec_wrap_inc(s) as int == (s + 1) % 0x1_0000_0000,
{
}

/// The sequence number of a session's `k`-th video packet: the counter
/// starts at zero and wraps at two to the thirty-second.
pub open spec fn spec_frame_seq_after(k: nat) -> u32 {
    (k % 0x1_0000_0000) as u32
}

/// Within a session, the `k`-th video packet carries sequence
/// `k mod 2^32`: the first packet carries zero, and the wrapping increment
/// applied to the `k`-th packet's number gives the `k+1`-th packet's, so the
/// claim follows for the whole emission order by induction over
/// `next_video_packet`'s contract.
pub proof fn lemma_frame_seq_trace(k: nat)
    ensures
        spec_frame_seq_after(0) == 0,
        spec_wrap_inc(spec_frame_seq_after(k)) == spec_frame_seq_after(k + 1),
{
    let m = 0x1_0000_0000int;
    vstd::arithmetic::div_mod::lemma_mod_bound(k as int, m);
    vstd::arithmetic::div_mod::lemma_add_mod_noop(k as int, 1, m);
    vstd::arithmetic::div_mod::lemma_small_mod(1nat, m as nat);
    if k as int % m == m - 1 {
        vstd::arithmetic::div_mod::lemma_mod_self_0(m);
    } else {
        vstd::arithmetic::div_mod::lemma_small_mod((k as int % m + 1) as nat, m as nat);
    }
    vstd::arithmetic::div_mod::lemma_small_mod(0nat, m as nat);
}

/// The state after taking the keyframe latch: the latch reads true at most
/// once per loop iteration.
pub open spec fn spec_take_force_keyframe(s: SessionState) -> (bool, SessionState) {
    (s.force_keyframe, SessionState { force_keyframe: false, ..s })
}

/// The state after a monitor switch is accepted: the new index is current,
/// the active geometry is resolved anew, and the keyframe latch is set.
pub open spec fn spec_confirm_monitor_switch(
    s: SessionState,
    new_index: u32,
    width: u32,
    height: u32,
    monitors: Seq<MonitorInfo>,
) -> SessionState {
    SessionState {
        current_monitor_index: new_index,
        force_keyframe: true,
        active_monitor: spec_resolve_active_monitor(monitors, new_index, width, height),
        ..s
    }
}

/// The state after a settings change is accepted: the clamped settings are
/// active and the keyframe latch is set.
pub open spec fn spec_confirm_encoding_settings(
    s: SessionState,
    next: EncodingSettings,
) -> SessionState {
    SessionState { settings: next, force_keyframe: true, ..s }
}

/// The first video frame after any accepted monitor switch or settings
/// change is encoded as a keyframe: both transitions set the latch, and
/// taking the latch then yields true.
pub proof fn lemma_keyframe_after_switch(
    s: SessionState,
    new_index: u32,
    width: u32,
    height: u32,
    monitors: Seq<MonitorInfo>,
    next: EncodingSettings,
)
    ensures
        spec_take_force_keyframe(
            spec_confirm_monitor_switch(s, new_index, width, height, monitors),
        ).0,
        spec_take_force_keyframe(spec_confirm_encoding_settings(s, next)).0,
{
}

impl SessionState {
    /// The starting state of a session: default settings, monitor 0, an
    /// initial forced keyframe, empty deferred slots, sequence 0.
    pub fn new(monitors: &[MonitorInfo], capture_width: u32, capture_height: u32) -> (r:
        SessionState)
        ensures
            r.settings == EncodingSettings::spec_default(),
            r.current_monitor_index == 0,
            r.force_keyframe == true,
            r.pending_monitor_switch is None,
            r.pending_encoding_settings is None,
            r.frame_seq == 0,
            r.capture_failures == 0,
            r.active_monitor == spec_resolve_active_monitor(
                monitors@,
                0,
                capture_width,
                capture_height,
            ),
    {
        SessionState {
            settings: EncodingSettings::default(),
            current_monitor_index: 0,
            force_keyframe: true,
            pending_monitor_switch: None,
            pending_encoding_settings: None,
            frame_seq: 0,
            active_monitor: resolve_active_monitor(monitors, 0, capture_width, capture_height),
            capture_failures: 0,
        }
    }

    /// Decides the response to a capture-device loss: the first failure asks
    /// for a rebuild of the engine, a second in a row closes the client.
    pub fn on_capture_failure(&mut self) -> (r: CaptureRecovery)
        ensures
            old(self).capture_failures == 0 ==> r == CaptureRecovery::Rebuild && *final(self) == (
            SessionState { capture_failures: 1, ..*old(self) }),
            old(self).capture_failures != 0 ==> r == CaptureRecovery::CloseSession && *final(self)
                == *old(self),
    {
        if self.capture_failures == 0 {
            self.capture_failures = 1;
            CaptureRecovery::Rebuild
        } else {
            CaptureRecovery::CloseSession
        }
    }

    /// Marks the capture engine healthy again, so a later loss is once more
    /// answered by a rebuild.
    pub fn on_capture_recovered(&mut self)
        ensures
            *final(self) == (SessionState { capture_failures: 0, ..*old(self) }),
    {
        self.capture_failures = 0;
    }

    /// Takes the keyframe latch for this iteration's encode call.
    pub fn take_force_keyframe(&mut self) -> (r: bool)
        ensures
            (r, *final(self)) == spec_take_force_keyframe(*old(self)),
    {
        let r = self.force_keyframe;
        self.force_keyframe = false;
        r
    }

    /// Takes the deferred monitor switch, if a control message recorded one.
    pub fn take_pending_monitor_switch(&mut self) -> (r: Option<u32>)
        ensures
            r == old(self).pending_monitor_switch,
            *final(self) == (SessionState { pending_monitor_switch: None, ..*old(self) }),
    {
        self.pending_monitor_switch.take()
    }

    /// Takes the deferred settings request, if a control message recorded
    /// one.
    pub fn take_pending_encoding_settings(&mut self) -> (r: Option<SettingsRequest>)
        ensures
            r == old(self).pending_encoding_settings,
            *final(self) == (SessionState { pending_encoding_settings: None, ..*old(self) }),
    {
        self.pending_encoding_settings.take()
    }

    /// Whether a requested monitor index calls for a switch at all: a
    /// request for the current monitor is a no-op.
    pub fn switch_monitor_needed(&self, new_index: u32) -> (r: bool)
        ensures
            r == (new_index != self.current_monitor_index),
    {
        new_index != self.current_monitor_index
    }

    /// Commits an accepted monitor switch, after the new capture engine and
    /// encoder were built outside: records the index, resolves the new
    /// geometry, and latches a keyframe.
    pub fn confirm_monitor_switch(
        &mut self,
        new_index: u32,
        capture_width: u32,
        capture_height: u32,
        monitors: &[MonitorInfo],
    )
        ensures
            *final(self) == spec_confirm_monitor_switch(
                *old(self),
                new_index,
                capture_width,
                capture_height,
                monitors@,
            ),
    {
        self.current_monitor_index = new_index;
        self.force_keyframe = true;
        self.active_monitor = resolve_active_monitor(
            monitors,
            new_index,
            capture_width,
            capture_height,
        );
    }

    /// Commits an accepted settings change, after the replacement encoder
    /// was built outside: the clamped settings become active and a keyframe
    /// is latched.
    pub fn confirm_encoding_settings(&mut self, next: EncodingSettings)
        ensures
            *final(self) == spec_confirm_encoding_settings(*old(self), next),
    {
        self.settings = next;
        self.force_keyframe = true;
    }

    /// Builds the next video packet and advances the wrapping sequence
    /// counter.
    pub fn next_video_packet(&mut self, data: &[u8], pts: i64, is_keyframe: bool) -> (r: Vec<u8>)
        requires
            0 <= pts,
            data@.len() <= u32::MAX,
        ensures
            r@ == spec_video_packet(
                data@,
                old(self).frame_seq,
                (pts % 0x1_0000_0000) as u32,
                is_keyframe,
            ),
            *final(self) == (SessionState {
                frame_seq: spec_wrap_inc(old(self).frame_seq),
                ..*old(self)
            }),
    {
        let pts32: u32 = (pts % 0x1_0000_0000) as u32;
        let packet = build_video_packet(data, self.frame_seq, pts32, is_keyframe);
        self.frame_seq = if self.frame_seq == u32::MAX {
            0
        } else {
            self.frame_seq + 1
        };
        packet
    }
}

/// Decides a settings request against the active settings: the clamped
/// request when it differs, nothing when clamping lands on the active
/// settings — then no encoder is rebuilt and no keyframe forced.
pub fn apply_encoding_settings(current: &EncodingSettings, req: &SettingsRequest) -> (r: Option<
    EncodingSettings,
>)
    ensures
        spec_clamped_settings(current, req) == *current ==> r is None,
        spec_clamped_settings(current, req) != *current ==> r == Some(
            spec_clamped_settings(current, req),
        ),
        r matches Some(s) ==> s.wf(),
{
    let next = clamp_settings(current, req);
    if next == *current {
        None
    } else {
        Some(next)
    }
}

/// The bytes of one video packet: a header with the `END_OF_FRAME` flag,
/// the `KEYFRAME` flag exactly when the encoder marked the access unit, and
/// the payload length, followed by the encoded bytes.
pub open spec fn spec_video_packet(
    data: Seq<u8>,
    sequence: u32,
    pts: u32,
    is_keyframe: bool,
) -> Seq<u8> {
    spec_header_bytes(
        FrameHeader {
            frame_type: FrameType::VideoFrame,
            flags: FrameFlags { bits: spec_video_flags(is_keyframe) },
            sequence,
            pts,
            payload_len: data.len() as u32,
        },
    ) + data
}

/// Every video packet decodes to a header with `END_OF_FRAME` set, the
/// `KEYFRAME` flag mirroring the encoder's marking, and the sequence, the
/// timestamp and the payload length it was built with.
pub proof fn lemma_video_packet_header(data: Seq<u8>, sequence: u32, pts: u32, is_keyframe: bool)
    requires
        data.len() <= u32::MAX,
    ensures
        spec_header_from_bytes(spec_video_packet(data, sequence, pts, is_keyframe)) matches Some(h)
            && h.frame_type == FrameType::VideoFrame && h.flags.spec_end_of_frame()
            && h.flags.spec_keyframe() == is_keyframe && h.sequence == sequence && h.pts == pts
            && h.payload_len == data.len(),
{
    let h = FrameHeader {
        frame_type: FrameType::VideoFrame,
        flags: FrameFlags { bits: spec_video_flags(is_keyframe) },
        sequence,
        pts,
        payload_len: data.len() as u32,
    };
    let packet = spec_video_packet(data, sequence, pts, is_keyframe);
    let hb = spec_header_bytes(h);
    assert(hb.len() == 16);
    assert forall|i: int| 0 <= i < 16 implies packet[i] == hb[i] by {}
    assert((0x02u8 | 0x01u8) & !(0x01u8 | 0x02u8) == 0 && 0x02u8 & !(0x01u8 | 0x02u8) == 0 && (
    0x02u8 | 0x01u8) & 0x02u8 != 0 && 0x02u8 & 0x02u8 != 0 && (0x02u8 | 0x01u8) & 0x01u8 != 0
        && 0x02u8 & 0x01u8 == 0) by (bit_vector);
    crate::protocol::lemma_header_round_trip(h);
    assert(spec_header_from_bytes(packet) == spec_header_from_bytes(hb));
}

/// Builds one video packet: header, then the encoded access unit.
pub fn build_video_packet(encoded_data: &[u8], sequence: u32, pts: u32, is_keyframe: bool) -> (r:
    Vec<u8>)
    requires
        encoded_data@.len() <= u32::MAX,
    ensures
        r@ == spec_video_packet(encoded_data@, sequence, pts, is_keyframe),
{
    let flags = crate::protocol::video_flags(is_keyframe);
    let header = FrameHeader {
        frame_type: FrameType::VideoFrame,
        flags,
        sequence,
        pts,
        payload_len: encoded_data.len() as u32,
    };
    let head = header.to_bytes();
    let mut packet: Vec<u8> = Vec::new();
    extend_bytes(&mut packet, head.as_slice());
    extend_bytes(&mut packet, encoded_data);
    proof {
        assert(packet@ =~= spec_video_packet(encoded_data@, sequence, pts, is_keyframe));
    }
    packet
}

/// The bytes of one control packet: a header with empty flags, sequence and
/// timestamp zero, and the payload length, followed by the payload.
pub open spec fn spec_control_packet(frame_type: FrameType, payload: Seq<u8>) -> Seq<u8> {
    spec_header_bytes(
        FrameHeader {
            frame_type,
            flags: FrameFlags { bits: 0 },
            sequence: 0,
            pts: 0,
            payload_len: payload.len() as u32,
        },
    ) + payload
}

/// Builds one control packet around a ready payload.
pub fn build_control_packet(frame_type: FrameType, payload: &[u8]) -> (r: Vec<u8>)
    requires
        payload@.len() <= u32::MAX,
    ensures
        r@ == spec_control_packet(frame_type, payload@),
{
    let header = FrameHeader {
        frame_type,
        flags: FrameFlags::empty(),
        sequence: 0,
        pts: 0,
        payload_len: payload.len() as u32,
    };
    let head = header.to_bytes();
    let mut packet: Vec<u8> = Vec::new();
    extend_bytes(&mut packet, head.as_slice());
    extend_bytes(&mut packet, payload);
    proof {
        assert(packet@ =~= spec_control_packet(frame_type, payload@));
    }
    packet
}

/// The monitor-list packet sent first on every connection: the pre-built
/// JSON array of monitor descriptors behind a `MonitorList` header.
pub fn monitor_list_packet(monitor_list_json: &[u8]) -> (r: Vec<u8>)
    requires
        monitor_list_json@.len() <= u32::MAX,
    ensures
        r@ == spec_control_packet(FrameType::MonitorList, monitor_list_json@),
{
    build_control_packet(FrameType::MonitorList, monitor_list_json)
}

/// The target frame interval in microseconds: one second split by the
/// frame rate.
pub fn frame_interval_for_fps(fps: u32) -> (r: u64)
    requires
        fps >= 1,
    ensures
        r == 1_000_000int / (fps as int),
{
    1_000_000u64 / (fps as u64)
}

/// The capture timeout in milliseconds: the frame interval rounded up, plus
/// one to make periodic timeouts unlikely.
pub fn capture_timeout_ms_for_fps(fps: u32) -> (r: u32)
    requires
        fps >= 1,
    ensures
        r == (1000 + fps - 1) as int / (fps as int) + 1,
{
    proof {
        vstd::arithmetic::div_mod::lemma_multiply_divide_le(
            1000 + fps - 1,
            fps as int,
            1000,
        );
        assert((1000 + fps - 1) as int <= (fps as int) * 1000) by (nonlinear_arith)
            requires
                fps >= 1,
        ;
    }
    let t: u64 = (1000u64 + fps as u64 - 1) / (fps as u64) + 1;
    t as u32
}

/// How long the pacer sleeps before it spins: the remaining frame budget
/// less the spin margin, and nothing when the budget is spent or inside the
/// margin.
pub fn pace_sleep_micros(elapsed_us: u64, frame_interval_us: u64) -> (r: u64)
    ensures
        elapsed_us >= frame_interval_us ==> r == 0,
        elapsed_us < frame_interval_us && frame_interval_us - elapsed_us > PACE_SPIN_MARGIN_US
            ==> r == frame_interval_us - elapsed_us - PACE_SPIN_MARGIN_US,
        elapsed_us < frame_interval_us && frame_interval_us - elapsed_us <= PACE_SPIN_MARGIN_US
            ==> r == 0,
{
    if elapsed_us >= frame_interval_us {
        return 0;
    }
    let remaining = frame_interval_us - elapsed_us;
    if remaining > PACE_SPIN_MARGIN_US {
        remaining - PACE_SPIN_MARGIN_US
    } else {
        0
    }
}

/// The input events a control packet plans, handed back to the caller to
/// submit: nothing, a batch of mouse records, or one key record.
#[derive(Debug, Clone, PartialEq, Eq)]
pub enum PlannedInput {
    Nothing,
    Mouse(Vec<MouseInputRecord>),
    Key(KeyInputRecord),
}

/// The header of a control packet, when the packet is long enough to hold
/// one and its tag is defined.
pub open spec fn spec_msg_header(data: Seq<u8>) -> Option<FrameHeader> {
    if data.len() >= HEADER_SIZE {
        spec_header_from_bytes(data)
    } else {
        None
    }
}

/// Whether a packet decodes to a header of the given type.
pub open spec fn spec_msg_is(data: Seq<u8>, t: FrameType) -> bool {
    match spec_msg_header(data) {
        Some(h) => h.frame_type == t,
        None => false,
    }
}

/// The declared payload of a packet, when the packet holds it in full.
pub open spec fn spec_msg_payload(data: Seq<u8>) -> Option<Seq<u8>> {
    match spec_msg_header(data) {
        Some(h) => spec_control_payload(data, h.payload_len),
        None => None,
    }
}

/// The monitor index a `MonitorSelect` packet carries, when it parses.
pub open spec fn spec_msg_monitor_select(data: Seq<u8>) -> Option<u32> {
    if spec_msg_is(data, FrameType::MonitorSelect) {
        match spec_msg_payload(data) {
            Some(p) => monitor_select_of(p),
            None => None,
        }
    } else {
        None
    }
}

/// The settings request an `EncodingSettings` packet carries, when it
/// parses.
pub open spec fn spec_msg_settings(data: Seq<u8>) -> Option<(u32, u32, u32, Option<Seq<char>>)> {
    if spec_msg_is(data, FrameType::EncodingSettings) {
        match spec_msg_payload(data) {
            Some(p) => settings_request_of(p),
            None => None,
        }
    } else {
        None
    }
}

/// The mouse event a `MouseInput` packet carries, when it parses.
pub open spec fn spec_msg_mouse(data: Seq<u8>) -> Option<(u8, u64, u64, u8, bool, i32, i32)> {
    if spec_msg_is(data, FrameType::MouseInput) {
        match spec_msg_payload(data) {
            Some(p) => mouse_input_of(p),
            None => None,
        }
    } else {
        None
    }
}

/// The keyboard event a `KeyboardInput` packet carries, when it parses.
pub open spec fn spec_msg_keyboard(data: Seq<u8>) -> Option<(u16, bool, Option<Seq<char>>)> {
    if spec_msg_is(data, FrameType::KeyboardInput) {
        match spec_msg_payload(data) {
            Some(p) => keyboard_input_of(p),
            None => None,
        }
    } else {
        None
    }
}

/// The mouse records planned for one parsed mouse event, over its view: a
/// move maps the position, a button event moves then changes the button, a
/// wheel event moves then turns each nonzero axis.
pub open spec fn spec_mouse_plan(
    inj: InputInjector,
    monitor: ActiveMonitor,
    v: (u8, u64, u64, u8, bool, i32, i32),
) -> Seq<MouseInputRecord> {
    let x = spec_norm_micro_from_f64_bits(v.1);
    let y = spec_norm_micro_from_f64_bits(v.2);
    if v.0 == 0 {
        seq![spec_move_record(inj, monitor, x, y)]
    } else if v.0 == 1 {
        match spec_mouse_button_flags(v.3, v.4) {
            Some(fd) => seq![
                spec_move_record(inj, monitor, x, y),
                MouseInputRecord { dx: 0, dy: 0, mouse_data: fd.1, flags: fd.0 },
            ],
            None => Seq::<MouseInputRecord>::empty(),
        }
    } else {
        seq![spec_move_record(inj, monitor, x, y)] + (if v.6 != 0 {
            seq![
                MouseInputRecord {
                    dx: 0,
                    dy: 0,
                    mouse_data: spec_wheel_data(v.6),
                    flags: MOUSEEVENTF_WHEEL,
                },
            ]
        } else {
            Seq::<MouseInputRecord>::empty()
        }) + (if v.5 != 0 {
            seq![
                MouseInputRecord {
                    dx: 0,
                    dy: 0,
                    mouse_data: spec_wheel_data(v.5),
                    flags: MOUSEEVENTF_HWHEEL,
                },
            ]
        } else {
            Seq::<MouseInputRecord>::empty()
        })
    }
}

/// Plans the input records for one parsed mouse event.
pub fn apply_mouse_input(
    injector: &InputInjector,
    active_monitor: ActiveMonitor,
    mouse_event: &MouseEvent,
) -> (r: Vec<MouseInputRecord>)
    requires
        active_monitor.wf(),
    ensures
        r@ == spec_mouse_plan(
            *injector,
            active_monitor,
            crate::payloads::spec_mouse_event_view(mouse_event),
        ),
{
    match mouse_event {
        MouseEvent::Move { x_bits, y_bits } => {
            let x = crate::input::norm_micro_from_f64_bits(*x_bits);
            let y = crate::input::norm_micro_from_f64_bits(*y_bits);
            let mut r: Vec<MouseInputRecord> = Vec::new();
            r.push(injector.move_mouse(active_monitor, x, y));
            proof {
                assert(r@ =~= spec_mouse_plan(
                    *injector,
                    active_monitor,
                    crate::payloads::spec_mouse_event_view(mouse_event),
                ));
            }
            r
        },
        MouseEvent::Button { x_bits, y_bits, button, down } => {
            let x = crate::input::norm_micro_from_f64_bits(*x_bits);
            let y = crate::input::norm_micro_from_f64_bits(*y_bits);
            injector.mouse_button(active_monitor, x, y, *button, *down)
        },
        MouseEvent::Wheel { x_bits, y_bits, delta_x, delta_y } => {
            let x = crate::input::norm_micro_from_f64_bits(*x_bits);
            let y = crate::input::norm_micro_from_f64_bits(*y_bits);
            injector.mouse_wheel(active_monitor, x, y, *delta_x, *delta_y)
        },
    }
}

/// Reads one control packet and applies it to the session's latches and
/// deferred slots: a `KeyframeRequest` sets the keyframe latch, a
/// `MonitorSelect` with a parsed index fills the deferred monitor slot, an
/// `EncodingSettings` with a parsed payload fills the deferred settings
/// slot, and mouse or keyboard input is planned for submission when an
/// injector is present. A short packet, an unknown tag, a truncated or
/// malformed payload, and every other type change nothing.
pub fn handle_binary_control_message(
    data: &[u8],
    force_keyframe: &mut bool,
    pending_monitor_switch: &mut Option<u32>,
    pending_encoding_settings: &mut Option<SettingsRequest>,
    input_injector: Option<&InputInjector>,
    active_monitor: ActiveMonitor,
) -> (planned: PlannedInput)
    requires
        active_monitor.wf(),
    ensures
        *final(force_keyframe) == (*old(force_keyframe) || spec_msg_is(
            data@,
            FrameType::KeyframeRequest,
        )),
        *final(pending_monitor_switch) == (match spec_msg_monitor_select(data@) {
            Some(i) => Some(i),
            None => *old(pending_monitor_switch),
        }),
        (match spec_msg_settings(data@) {
            Some(v) => (*final(pending_encoding_settings)) matches Some(req)
                && spec_settings_request_view(&req) == v,
            None => *final(pending_encoding_settings) == *old(pending_encoding_settings),
        }),
        (match (spec_msg_mouse(data@), input_injector) {
            (Some(v), Some(inj)) => planned matches PlannedInput::Mouse(recs) && recs@
                == spec_mouse_plan(*inj, active_monitor, v),
            _ => (match (spec_msg_keyboard(data@), input_injector) {
                (Some(k), Some(inj)) => {
                    if k.0 != 0 {
                        planned == PlannedInput::Key(
                            KeyInputRecord {
                                virtual_key: spec_map_virtual_key(k.0, k.2),
                                key_up: !k.1,
                            },
                        )
                    } else {
                        planned == PlannedInput::Nothing
                    }
                },
                _ => planned == PlannedInput::Nothing,
            }),
        }),
{
    if data.len() < HEADER_SIZE {
        return PlannedInput::Nothing;
    }
    let header_bytes: [u8; 16] = [
        data[0],
        data[1],
        data[2],
        data[3],
        data[4],
        data[5],
        data[6],
        data[7],
        data[8],
        data[9],
        data[10],
        data[11],
        data[12],
        data[13],
        data[14],
        data[15],
    ];
    proof {
        assert(spec_header_from_bytes(header_bytes@) == spec_header_from_bytes(data@));
    }
    let header = match FrameHeader::from_bytes(&header_bytes) {
        Some(h) => h,
        None => {
            return PlannedInput::Nothing;
        },
    };
    match header.frame_type {
        FrameType::KeyframeRequest => {
            *force_keyframe = true;
            PlannedInput::Nothing
        },
        FrameType::MonitorSelect => {
            match control_payload(data, header.payload_len) {
                Some(payload) => {
                    match parse_monitor_select(payload) {
                        Some(index) => {
                            *pending_monitor_switch = Some(index);
                        },
                        None => {},
                    }
                },
                None => {},
            }
            PlannedInput::Nothing
        },
        FrameType::EncodingSettings => {
            match control_payload(data, header.payload_len) {
                Some(payload) => {
                    match parse_settings_request(payload) {
                        Some(req) => {
                            *pending_encoding_settings = Some(req);
                        },
                        None => {},
                    }
                },
                None => {},
            }
            PlannedInput::Nothing
        },
        FrameType::MouseInput => {
            match (input_injector, control_payload(data, header.payload_len)) {
                (Some(injector), Some(payload)) => {
                    match parse_mouse_input(payload) {
                        Some(ev) => PlannedInput::Mouse(
                            apply_mouse_input(injector, active_monitor, &ev),
                        ),
                        None => PlannedInput::Nothing,
                    }
                },
                _ => PlannedInput::Nothing,
            }
        },
        FrameType::KeyboardInput => {
            match (input_injector, control_payload(data, header.payload_len)) {
                (Some(injector), Some(payload)) => {
                    match parse_keyboard_input(payload) {
                        Some(ke) => {
                            let code = match &ke.code {
                                Some(c) => Some(c.as_str()),
                                None => None,
                            };
                            match injector.keyboard_key(ke.key_code, code, ke.down) {
                                Some(rec) => PlannedInput::Key(rec),
                                None => PlannedInput::Nothing,
                            }
                        },
                        None => PlannedInput::Nothing,
                    }
                },
                _ => PlannedInput::Nothing,
            }
        },
        _ => PlannedInput::Nothing,
    }
}

/// The monitor index a `MonitorSelect` payload names, read from the whole
/// control packet.
pub fn parse_monitor_index(data: &[u8], payload_len: u32) -> (r: Option<u32>)
    ensures
        r == (match spec_control_payload(data@, payload_len) {
            Some(p) => monitor_select_of(p),
            None => None,
        }),
{
    match control_payload(data, payload_len) {
        Some(payload) => parse_monitor_select(payload),
        None => None,
    }
}

/// The settings echo packet: the active settings as JSON behind an
/// `EncodingSettings` header, sent at session start and after every applied
/// change so the client sees the clamped values.
pub fn encoding_settings_state_packet(settings: &EncodingSettings) -> (r: Vec<u8>)
    ensures
        r@ == spec_control_packet(
            FrameType::EncodingSettings,
            crate::json::spec_settings_state_json(*settings),
        ),
{
    let payload = crate::json::settings_state_json(settings);
    build_control_packet(FrameType::EncodingSettings, payload.as_slice())
}

/// Microseconds between statistics reports.
pub const STATS_REPORT_INTERVAL_US: u64 = 5_000_000;

/// The running encode-time statistics window: frames encoded and total
/// encode time since the last report.
#[derive(Debug, Clone, Copy, PartialEq, Eq, Structural)]
pub struct StatsWindow {
    pub frames_encoded: u64,
    pub total_encode_time_us: u64,
}

impl StatsWindow {
    pub fn new() -> (r: StatsWindow)
        ensures
            r.frames_encoded == 0,
            r.total_encode_time_us == 0,
    {
        StatsWindow { frames_encoded: 0, total_encode_time_us: 0 }
    }

    /// Accounts one sent access unit and its encode time; the counters
    /// saturate rather than wrap.
    pub fn record(&mut self, encode_time_us: u64)
        ensures
            final(self).frames_encoded == (if old(self).frames_encoded < u64::MAX {
                old(self).frames_encoded + 1
            } else {
                u64::MAX as int
            }),
            final(self).total_encode_time_us == (if old(self).total_encode_time_us
                + encode_time_us <= u64::MAX {
                old(self).total_encode_time_us + encode_time_us
            } else {
                u64::MAX as int
            }),
    {
        if self.frames_encoded < u64::MAX {
            self.frames_encoded = self.frames_encoded + 1;
        }
        if self.total_encode_time_us <= u64::MAX - encode_time_us {
            self.total_encode_time_us = self.total_encode_time_us + encode_time_us;
        } else {
            self.total_encode_time_us = u64::MAX;
        }
    }

    /// Whether the report interval has elapsed since the last reset.
    pub fn should_report(&self, elapsed_us: u64) -> (r: bool)
        ensures
            r == (elapsed_us >= STATS_REPORT_INTERVAL_US),
    {
        elapsed_us >= STATS_REPORT_INTERVAL_US
    }

    /// The mean encode time per frame over the window, zero when no frame
    /// was encoded.
    pub fn mean_encode_time_us(&self) -> (r: u64)
        ensures
            self.frames_encoded == 0 ==> r == 0,
            self.frames_encoded > 0 ==> r == self.total_encode_time_us as int
                / self.frames_encoded as int,
    {
        if self.frames_encoded == 0 {
            0
        } else {
            self.total_encode_time_us / self.frames_encoded
        }
    }

    /// Starts the next window.
    pub fn reset(&mut self)
        ensures
            final(self).frames_encoded == 0,
            final(self).total_encode_time_us == 0,
    {
        self.frames_encoded = 0;
        self.total_encode_time_us = 0;
    }
}

} // verus!
