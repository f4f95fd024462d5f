//! Control-frame payloads sent by clients, and the JSON parsers that read
//! them. The parsers call into `serde_json`; each one's result is named by an
//! uninterpreted spec function of the payload bytes, and everything done with
//! a parsed payload is verified.

use vstd::prelude::*;

verus! {

/// A parsed keyboard event: virtual key code, key direction, and the
/// optional physical-key name that disambiguates modifier sides.
#[derive(Debug, Clone, PartialEq, Eq)]
pub struct KeyboardEvent {
    pub key_code: u16,
    pub down: bool,
    pub code: Option<String>,
}

/// A parsed mouse event. Normalized coordinates arrive as JSON numbers; they
/// are carried as the raw bits of the 64-bit float the parser read, and
/// decoded by verified integer code.
#[derive(Debug, Clone, Copy, PartialEq, Eq, Structural)]
pub enum MouseEvent {
    Move { x_bits: u64, y_bits: u64 },
    Button { x_bits: u64, y_bits: u64, button: u8, down: bool },
    Wheel { x_bits: u64, y_bits: u64, delta_x: i32, delta_y: i32 },
}

/// The view of an optional string as an optional character sequence.
pub open spec fn spec_opt_str_view(o: Option<String>) -> Option<Seq<char>> {
    match o {
        Some(s) => Some(s@),
        None => None,
    }
}

/// The view of a settings request: fps, bitrate, keyframe interval, codec.
pub open spec fn spec_settings_request_view(r: &crate::encoder::SettingsRequest) -> (
    u32,
    u32,
    u32,
    Option<Seq<char>>,
) {
    (r.fps, r.bitrate, r.keyframe_interval, spec_opt_str_view(r.codec))
}

/// The view of a keyboard event: key code, direction, physical-key name.
pub open spec fn spec_keyboard_event_view(e: &KeyboardEvent) -> (u16, bool, Option<Seq<char>>) {
    (e.key_code, e.down, spec_opt_str_view(e.code))
}

/// The view of a mouse event: a kind discriminant (0 move, 1 button,
/// 2 wheel), the two coordinate bit patterns, and the kind's own fields.
pub open spec fn spec_mouse_event_view(e: &MouseEvent) -> (u8, u64, u64, u8, bool, i32, i32) {
    match *e {
        MouseEvent::Move { x_bits, y_bits } => (0u8, x_bits, y_bits, 0u8, false, 0i32, 0i32),
        MouseEvent::Button { x_bits, y_bits, button, down } => (
            1u8,
            x_bits,
            y_bits,
            button,
            down,
            0i32,
            0i32,
        ),
        MouseEvent::Wheel { x_bits, y_bits, delta_x, delta_y } => (
            2u8,
            x_bits,
            y_bits,
            0u8,
            false,
            delta_x,
            delta_y,
        ),
    }
}

/// The monitor index a `MonitorSelect` payload carries, if it parses.
pub uninterp spec fn monitor_select_of(b: Seq<u8>) -> Option<u32>;

/// The settings an `EncodingSettings` payload carries, if it parses.
pub uninterp spec fn settings_request_of(b: Seq<u8>) -> Option<(u32, u32, u32, Option<Seq<char>>)>;

/// The event a `KeyboardInput` payload carries, if it parses.
pub uninterp spec fn keyboard_input_of(b: Seq<u8>) -> Option<(u16, bool, Option<Seq<char>>)>;

/// The event a `MouseInput` payload carries, if it parses.
pub uninterp spec fn mouse_input_of(b: Seq<u8>) -> Option<(u8, u64, u64, u8, bool, i32, i32)>;

/// Relies on serde_json::from_slice: reads `{"index": <u32>}`; any other
/// document gives `None`.
#[verifier::external_body]
pub(crate) fn parse_monitor_select(payload: &[u8]) -> (r: Option<u32>)
    ensures
        r == monitor_select_of(payload@),
{
    let v: serde_json::Value = serde_json::from_slice(payload).ok()?;
    let idx = v.get("index")?.as_u64()?;
    u32::try_from(idx).ok()
}

/// Relies on serde_json::from_slice: reads `{fps, bitrate, keyframe_interval,
/// codec?}` with unsigned 32-bit numbers and an optional codec name; any
/// other document gives `None`.
#[verifier::external_body]
pub(crate) fn parse_settings_request(payload: &[u8]) -> (r: Option<crate::encoder::SettingsRequest>)
    ensures
        (r is None) == (settings_request_of(payload@) is None),
        r matches Some(req) ==> settings_request_of(payload@) == Some(
            spec_settings_request_view(&req),
        ),
{
    let v: serde_json::Value = serde_json::from_slice(payload).ok()?;
    let fps = u32::try_from(v.get("fps")?.as_u64()?).ok()?;
    let bitrate = u32::try_from(v.get("bitrate")?.as_u64()?).ok()?;
    let keyframe_interval = u32::try_from(v.get("keyframe_interval")?.as_u64()?).ok()?;
    let codec = match v.get("codec") {
        None | Some(serde_json::Value::Null) => None,
        Some(c) => Some(c.as_str()?.to_string()),
    };
    Some(crate::encoder::SettingsRequest { fps, bitrate, keyframe_interval, codec })
}

/// Relies on serde_json::from_slice: reads `{key_code, down, code?}`; any
/// other document gives `None`.
#[verifier::external_body]
pub(crate) fn parse_keyboard_input(payload: &[u8]) -> (r: Option<KeyboardEvent>)
    ensures
        (r is None) == (keyboard_input_of(payload@) is None),
        r matches Some(e) ==> keyboard_input_of(payload@) == Some(spec_keyboard_event_view(&e)),
{
    let v: serde_json::Value = serde_json::from_slice(payload).ok()?;
    let key_code = u16::try_from(v.get("key_code")?.as_u64()?).ok()?;
    let down = v.get("down")?.as_bool()?;
    let code = match v.get("code") {
        None | Some(serde_json::Value::Null) => None,
        Some(c) => Some(c.as_str()?.to_string()),
    };
    Some(KeyboardEvent { key_code, down, code })
}

/// Relies on serde_json::from_slice: reads a tagged mouse event
/// `{"kind": "move"|"button"|"wheel", x, y, ...}`; any other document gives
/// `None`. The coordinates are handed on as raw 64-bit float bits.
#[verifier::external_body]
pub(crate) fn parse_mouse_input(payload: &[u8]) -> (r: Option<MouseEvent>)
    ensures
        (r is None) == (mouse_input_of(payload@) is None),
        r matches Some(e) ==> mouse_input_of(payload@) == Some(spec_mouse_event_view(&e)),
{
    let v: serde_json::Value = serde_json::from_slice(payload).ok()?;
    let x_bits = v.get("x")?.as_f64()?.to_bits();
    let y_bits = v.get("y")?.as_f64()?.to_bits();
    match v.get("kind")?.as_str()? {
        "move" => Some(MouseEvent::Move { x_bits, y_bits }),
        "button" => Some(MouseEvent::Button { x_bits, y_bits, button: v.get("button")?.as_u64()?.try_into().ok()?, down: v.get("down")?.as_bool()? }),
        "wheel" => Some(MouseEvent::Wheel { x_bits, y_bits, delta_x: v.get("delta_x")?.as_i64()?.try_into().ok()?, delta_y: v.get("delta_y")?.as_i64()?.try_into().ok()? }),
        _ => None,
    }
}

/// The payload that follows the header: the `payload_len` bytes after the
/// first `HEADER_SIZE`, if the packet holds that many.
pub open spec fn spec_control_payload(data: Seq<u8>, payload_len: u32) -> Option<Seq<u8>> {
    if crate::protocol::HEADER_SIZE + payload_len <= data.len() {
        Some(
            data.subrange(
                crate::protocol::HEADER_SIZE as int,
                crate::protocol::HEADER_SIZE + payload_len,
            ),
        )
    } else {
        None
    }
}

/// Cuts the declared payload out of a control packet.
pub fn control_payload<'a>(data: &'a [u8], payload_len: u32) -> (r: Option<&'a [u8]>)
    ensures
        match r {
            Some(p) => spec_control_payload(data@, payload_len) == Some(p@),
            None => spec_control_payload(data@, payload_len) is None,
        },
{
    let len = data.len();
    if payload_len as usize <= usize::MAX - crate::protocol::HEADER_SIZE && crate::protocol::HEADER_SIZE
        + (payload_len as usize) <= len {
        Some(
            vstd::slice::slice_subrange(
                data,
                crate::protocol::HEADER_SIZE,
                crate::protocol::HEADER_SIZE + payload_len as usize,
            ),
        )
    } else {
        None
    }
}

} // verus!
