//! Verified JSON encoding for the payloads the server sends: the settings
//! echo that reflects clamped values back to the client, and the monitor
//! list sent on connect. The byte-level output is pinned down exactly:
//! decimal numbers, escaped strings, fixed key order.

use vstd::arithmetic::div_mod::lemma_multiply_divide_lt;
use vstd::prelude::*;

use crate::capture::MonitorInfo;
use crate::encoder::EncodingSettings;
use crate::encoder::VideoCodec;
use crate::text::extend_bytes;

verus! {

/// The decimal digits of a number, most significant first, as ASCII bytes.
pub open spec fn spec_dec_u64(n: nat) -> Seq<u8>
    decreases n,
{
    if n < 10 {
        seq![(48 + n) as u8]
    } else {
        spec_dec_u64(n / 10) + seq![(48 + n % 10) as u8]
    }
}

/// Ten to the given power.
pub open spec fn pow10(k: nat) -> nat
    decreases k,
{
    if k == 0 {
        1
    } else {
        10 * pow10((k - 1) as nat)
    }
}

/// A number below ten to the `k` prints in at most `k` digits.
pub proof fn lemma_dec_u64_len(n: nat, k: nat)
    requires
        1 <= k,
        n < pow10(k),
    ensures
        spec_dec_u64(n).len() <= k,
    decreases k,
{
    if n < 10 {
    } else {
        if k == 1 {
            reveal_with_fuel(pow10, 2);
            assert(false);
        } else {
            assert(pow10(k) == 10 * pow10((k - 1) as nat));
            lemma_multiply_divide_lt(n as int, 10, pow10((k - 1) as nat) as int);
            lemma_dec_u64_len(n / 10, (k - 1) as nat);
        }
    }
}

/// Every 64-bit number prints in at most twenty digits.
pub proof fn lemma_dec_u64_len_max(n: nat)
    requires
        n <= u64::MAX,
    ensures
        spec_dec_u64(n).len() <= 20,
{
    reveal_with_fuel(pow10, 21);
    assert(pow10(20) == 100_000_000_000_000_000_000);
    lemma_dec_u64_len(n, 20);
}

/// Prints a number in decimal.
pub fn dec_u64(n: u64) -> (r: Vec<u8>)
    ensures
        r@ == spec_dec_u64(n as nat),
    decreases n,
{
    if n < 10 {
        let mut r: Vec<u8> = Vec::new();
        r.push(48 + n as u8);
        proof {
            assert(r@ =~= spec_dec_u64(n as nat));
        }
        r
    } else {
        let mut r = dec_u64(n / 10);
        r.push(48 + (n % 10) as u8);
        proof {
            assert(r@ =~= spec_dec_u64(n as nat));
        }
        r
    }
}

/// The decimal digits of a signed number: a minus sign, then the magnitude.
pub open spec fn spec_dec_i64(v: int) -> Seq<u8> {
    if v < 0 {
        seq![45u8] + spec_dec_u64((-v) as nat)
    } else {
        spec_dec_u64(v as nat)
    }
}

/// Prints a signed 32-bit number in decimal.
pub fn dec_i32(v: i32) -> (r: Vec<u8>)
    ensures
        r@ == spec_dec_i64(v as int),
{
    if v < 0 {
        let magnitude: u64 = (-(v as i64)) as u64;
        let mut r: Vec<u8> = Vec::new();
        r.push(45);
        let digits = dec_u64(magnitude);
        extend_bytes(&mut r, digits.as_slice());
        proof {
            assert(r@ =~= spec_dec_i64(v as int));
        }
        r
    } else {
        dec_u64(v as u64)
    }
}

/// The JSON spelling of a boolean.
pub open spec fn spec_json_bool(b: bool) -> Seq<u8> {
    if b {
        seq![116u8, 114u8, 117u8, 101u8]
    } else {
        seq![102u8, 97u8, 108u8, 115u8, 101u8]
    }
}

fn push_json_bool(out: &mut Vec<u8>, b: bool)
    ensures
        final(out)@ == old(out)@ + spec_json_bool(b),
{
    if b {
        out.push(116u8);
        out.push(114u8);
        out.push(117u8);
        out.push(101u8);
    } else {
        out.push(102u8);
        out.push(97u8);
        out.push(108u8);
        out.push(115u8);
        out.push(101u8);
    }
    proof {
        assert(final(out)@ =~= old(out)@ + spec_json_bool(b));
    }
}

/// The lowercase hex digit of a value below sixteen.
pub open spec fn spec_hex_digit(n: u8) -> u8 {
    if n < 10 {
        (48 + n) as u8
    } else {
        (87 + n) as u8
    }
}

/// How one byte of a string appears inside a JSON string: quote and
/// backslash are escaped, control bytes become a `\u00XX` escape, and every
/// other byte passes through.
pub open spec fn spec_escape_byte(c: u8) -> Seq<u8> {
    if c == 34 {
        seq![92u8, 34u8]
    } else if c == 92 {
        seq![92u8, 92u8]
    } else if c < 32 {
        seq![92u8, 117u8, 48u8, 48u8, spec_hex_digit(c / 16), spec_hex_digit(c % 16)]
    } else {
        seq![c]
    }
}

/// A whole string's bytes escaped for a JSON string literal.
pub open spec fn spec_escape_bytes(s: Seq<u8>) -> Seq<u8>
    decreases s.len(),
{
    if s.len() == 0 {
        Seq::<u8>::empty()
    } else {
        spec_escape_bytes(s.drop_last()) + spec_escape_byte(s.last())
    }
}

/// Appends a string's bytes, escaped for a JSON string literal.
pub fn escape_json_into(out: &mut Vec<u8>, bytes: &[u8])
    ensures
        final(out)@ == old(out)@ + spec_escape_bytes(bytes@),
{
    let n = bytes.len();
    let mut i: usize = 0;
    while i < n
        invariant
            0 <= i <= n,
            n == bytes@.len(),
            out@ == old(out)@ + spec_escape_bytes(bytes@.take(i as int)),
        decreases n - i,
    {
        let c = bytes[i];
        if c == 34 {
            out.push(92);
            out.push(34);
        } else if c == 92 {
            out.push(92);
            out.push(92);
        } else if c < 32 {
            out.push(92);
            out.push(117);
            out.push(48);
            out.push(48);
            let hi = c / 16;
            let lo = c % 16;
            out.push(
                if hi < 10 {
                    48 + hi
                } else {
                    87 + hi
                },
            );
            out.push(
                if lo < 10 {
                    48 + lo
                } else {
                    87 + lo
                },
            );
        } else {
            out.push(c);
        }
        i += 1;
        proof {
            assert(bytes@.take(i as int).drop_last() =~= bytes@.take(i - 1));
            assert(bytes@.take(i as int).last() == bytes@[i - 1]);
            assert(out@ =~= old(out)@ + spec_escape_bytes(bytes@.take(i as int)));
        }
    }
    proof {
        assert(bytes@.take(n as int) =~= bytes@);
    }
}

/// The name a codec is echoed as, as JSON string bytes.
pub open spec fn spec_codec_name_bytes(c: VideoCodec) -> Seq<u8> {
    match c {
        VideoCodec::Av1 => seq![97u8, 118u8, 49u8],
        VideoCodec::Avc => seq![97u8, 118u8, 99u8],
        VideoCodec::Hevc => seq![104u8, 101u8, 118u8, 99u8],
    }
}

fn push_codec_name(out: &mut Vec<u8>, c: VideoCodec)
    ensures
        final(out)@ == old(out)@ + spec_codec_name_bytes(c),
{
    match c {
        VideoCodec::Av1 => {
            out.push(97u8);
            out.push(118u8);
            out.push(49u8);
        },
        VideoCodec::Avc => {
            out.push(97u8);
            out.push(118u8);
            out.push(99u8);
        },
        VideoCodec::Hevc => {
            out.push(104u8);
            out.push(101u8);
            out.push(118u8);
            out.push(99u8);
        },
    }
    proof {
        assert(final(out)@ =~= old(out)@ + spec_codec_name_bytes(c));
    }
}

/// The settings echo payload: the active values, clamped, with the codec
/// name, in the fixed key order `fps`, `bitrate`, `keyframe_interval`,
/// `codec`.
pub open spec fn spec_settings_state_json(s: EncodingSettings) -> Seq<u8> {
    seq![123u8, 34u8, 102u8, 112u8, 115u8, 34u8, 58u8] + spec_dec_u64(s.fps as nat) + seq![
        44u8,
        34u8,
        98u8,
        105u8,
        116u8,
        114u8,
        97u8,
        116u8,
        101u8,
        34u8,
        58u8,
    ] + spec_dec_u64(s.bitrate as nat) + seq![
        44u8,
        34u8,
        107u8,
        101u8,
        121u8,
        102u8,
        114u8,
        97u8,
        109u8,
        101u8,
        95u8,
        105u8,
        110u8,
        116u8,
        101u8,
        114u8,
        118u8,
        97u8,
        108u8,
        34u8,
        58u8,
    ] + spec_dec_u64(s.keyframe_interval_secs as nat) + seq![
        44u8,
        34u8,
        99u8,
        111u8,
        100u8,
        101u8,
        99u8,
        34u8,
        58u8,
        34u8,
    ] + spec_codec_name_bytes(s.codec) + seq![34u8, 125u8]
}

/// Encodes the settings echo payload.
#[verifier::rlimit(100)]
pub fn settings_state_json(s: &EncodingSettings) -> (r: Vec<u8>)
    ensures
        r@ == spec_settings_state_json(*s),
        r@.len() <= 200,
{
    let mut out: Vec<u8> = Vec::new();
    out.push(123u8);
    out.push(34u8);
    out.push(102u8);
    out.push(112u8);
    out.push(115u8);
    out.push(34u8);
    out.push(58u8);
    let fps = dec_u64(s.fps as u64);
    extend_bytes(&mut out, fps.as_slice());
    out.push(44u8);
    out.push(34u8);
    out.push(98u8);
    out.push(105u8);
    out.push(116u8);
    out.push(114u8);
    out.push(97u8);
    out.push(116u8);
    out.push(101u8);
    out.push(34u8);
    out.push(58u8);
    let bitrate = dec_u64(s.bitrate as u64);
    extend_bytes(&mut out, bitrate.as_slice());
    out.push(44u8);
    out.push(34u8);
    out.push(107u8);
    out.push(101u8);
    out.push(121u8);
    out.push(102u8);
    out.push(114u8);
    out.push(97u8);
    out.push(109u8);
    out.push(101u8);
    out.push(95u8);
    out.push(105u8);
    out.push(110u8);
    out.push(116u8);
    out.push(101u8);
    out.push(114u8);
    out.push(118u8);
    out.push(97u8);
    out.push(108u8);
    out.push(34u8);
    out.push(58u8);
    let ki = dec_u64(s.keyframe_interval_secs as u64);
    extend_bytes(&mut out, ki.as_slice());
    out.push(44u8);
    out.push(34u8);
    out.push(99u8);
    out.push(111u8);
    out.push(100u8);
    out.push(101u8);
    out.push(99u8);
    out.push(34u8);
    out.push(58u8);
    out.push(34u8);
    push_codec_name(&mut out, s.codec);
    out.push(34u8);
    out.push(125u8);
    proof {
        lemma_dec_u64_len_max(s.fps as nat);
        lemma_dec_u64_len_max(s.bitrate as nat);
        lemma_dec_u64_len_max(s.keyframe_interval_secs as nat);
        assert(out@ =~= spec_settings_state_json(*s));
    }
    out
}

/// The fixed key fragments of a monitor object, in order.
pub open spec fn spec_frag_index() -> Seq<u8> {
    // {"index":
    seq![123u8, 34u8, 105u8, 110u8, 100u8, 101u8, 120u8, 34u8, 58u8]
}

pub open spec fn spec_frag_name() -> Seq<u8> {
    // ,"name":"
    seq![44u8, 34u8, 110u8, 97u8, 109u8, 101u8, 34u8, 58u8, 34u8]
}

pub open spec fn spec_frag_left() -> Seq<u8> {
    // ","left":
    seq![34u8, 44u8, 34u8, 108u8, 101u8, 102u8, 116u8, 34u8, 58u8]
}

pub open spec fn spec_frag_top() -> Seq<u8> {
    // ,"top":
    seq![44u8, 34u8, 116u8, 111u8, 112u8, 34u8, 58u8]
}

pub open spec fn spec_frag_width() -> Seq<u8> {
    // ,"width":
    seq![44u8, 34u8, 119u8, 105u8, 100u8, 116u8, 104u8, 34u8, 58u8]
}

pub open spec fn spec_frag_height() -> Seq<u8> {
    // ,"height":
    seq![44u8, 34u8, 104u8, 101u8, 105u8, 103u8, 104u8, 116u8, 34u8, 58u8]
}

pub open spec fn spec_frag_primary() -> Seq<u8> {
    // ,"primary":
    seq![44u8, 34u8, 112u8, 114u8, 105u8, 109u8, 97u8, 114u8, 121u8, 34u8, 58u8]
}

fn push_frag_index(out: &mut Vec<u8>)
    ensures
        final(out)@ == old(out)@ + spec_frag_index(),
{
    out.push(123);
    out.push(34);
    out.push(105);
    out.push(110);
    out.push(100);
    out.push(101);
    out.push(120);
    out.push(34);
    out.push(58);
    proof {
        assert(final(out)@ =~= old(out)@ + spec_frag_index());
    }
}

fn push_frag_name(out: &mut Vec<u8>)
    ensures
        final(out)@ == old(out)@ + spec_frag_name(),
{
    out.push(44);
    out.push(34);
    out.push(110);
    out.push(97);
    out.push(109);
    out.push(101);
    out.push(34);
    out.push(58);
    out.push(34);
    proof {
        assert(final(out)@ =~= old(out)@ + spec_frag_name());
    }
}

fn push_frag_left(out: &mut Vec<u8>)
    ensures
        final(out)@ == old(out)@ + spec_frag_left(),
{
    out.push(34);
    out.push(44);
    out.push(34);
    out.push(108);
    out.push(101);
    out.push(102);
    out.push(116);
    out.push(34);
    out.push(58);
    proof {
        assert(final(out)@ =~= old(out)@ + spec_frag_left());
    }
}

fn push_frag_top(out: &mut Vec<u8>)
    ensures
        final(out)@ == old(out)@ + spec_frag_top(),
{
    out.push(44);
    out.push(34);
    out.push(116);
    out.push(111);
    out.push(112);
    out.push(34);
    out.push(58);
    proof {
        assert(final(out)@ =~= old(out)@ + spec_frag_top());
    }
}

fn push_frag_width(out: &mut Vec<u8>)
    ensures
        final(out)@ == old(out)@ + spec_frag_width(),
{
    out.push(44);
    out.push(34);
    out.push(119);
    out.push(105);
    out.push(100);
    out.push(116);
    out.push(104);
    out.push(34);
    out.push(58);
    proof {
        assert(final(out)@ =~= old(out)@ + spec_frag_width());
    }
}

fn push_frag_height(out: &mut Vec<u8>)
    ensures
        final(out)@ == old(out)@ + spec_frag_height(),
{
    out.push(44);
    out.push(34);
    out.push(104);
    out.push(101);
    out.push(105);
    out.push(103);
    out.push(104);
    out.push(116);
    out.push(34);
    out.push(58);
    proof {
        assert(final(out)@ =~= old(out)@ + spec_frag_height());
    }
}

fn push_frag_primary(out: &mut Vec<u8>)
    ensures
        final(out)@ == old(out)@ + spec_frag_primary(),
{
    out.push(44);
    out.push(34);
    out.push(112);
    out.push(114);
    out.push(105);
    out.push(109);
    out.push(97);
    out.push(114);
    out.push(121);
    out.push(34);
    out.push(58);
    proof {
        assert(final(out)@ =~= old(out)@ + spec_frag_primary());
    }
}

/// One monitor descriptor as a JSON object, keys in the fixed order
/// `index`, `name`, `left`, `top`, `width`, `height`, `primary`; the name
/// escaped as a JSON string.
pub open spec fn spec_monitor_json(m: MonitorInfo) -> Seq<u8> {
    spec_frag_index() + spec_dec_u64(m.index as nat) + spec_frag_name() + spec_escape_bytes(
        vstd::utf8::encode_utf8(m.name@),
    ) + spec_frag_left() + spec_dec_i64(m.left as int) + spec_frag_top() + spec_dec_i64(
        m.top as int,
    ) + spec_frag_width() + spec_dec_u64(m.width as nat) + spec_frag_height() + spec_dec_u64(
        m.height as nat,
    ) + spec_frag_primary() + spec_json_bool(m.primary) + seq![125u8]
}

/// Appends one monitor descriptor as JSON.
#[verifier::rlimit(100)]
fn monitor_json_into(out: &mut Vec<u8>, m: &MonitorInfo)
    ensures
        final(out)@ == old(out)@ + spec_monitor_json(*m),
{
    push_frag_index(out);
    let index = dec_u64(m.index as u64);
    extend_bytes(out, index.as_slice());
    push_frag_name(out);
    escape_json_into(out, m.name.as_str().as_bytes());
    push_frag_left(out);
    let left = dec_i32(m.left);
    extend_bytes(out, left.as_slice());
    push_frag_top(out);
    let top = dec_i32(m.top);
    extend_bytes(out, top.as_slice());
    push_frag_width(out);
    let width = dec_u64(m.width as u64);
    extend_bytes(out, width.as_slice());
    push_frag_height(out);
    let height = dec_u64(m.height as u64);
    extend_bytes(out, height.as_slice());
    push_frag_primary(out);
    push_json_bool(out, m.primary);
    out.push(125);
    proof {
        assert(final(out)@ =~= old(out)@ + spec_monitor_json(*m));
    }
}

/// The monitor descriptors joined with commas.
pub open spec fn spec_monitor_list_items(ms: Seq<MonitorInfo>) -> Seq<u8>
    decreases ms.len(),
{
    if ms.len() == 0 {
        Seq::<u8>::empty()
    } else if ms.len() == 1 {
        spec_monitor_json(ms[0])
    } else {
        spec_monitor_list_items(ms.drop_last()) + seq![44u8] + spec_monitor_json(ms.last())
    }
}

/// The monitor list payload: a JSON array of descriptors, in enumeration
/// order.
pub open spec fn spec_monitor_list_json(ms: Seq<MonitorInfo>) -> Seq<u8> {
    seq![91u8] + spec_monitor_list_items(ms) + seq![93u8]
}

/// Encodes the monitor list payload.
pub fn monitor_list_json(monitors: &[MonitorInfo]) -> (r: Vec<u8>)
    ensures
        r@ == spec_monitor_list_json(monitors@),
{
    let mut out: Vec<u8> = Vec::new();
    out.push(91u8);
    let n = monitors.len();
    let mut i: usize = 0;
    while i < n
        invariant
            0 <= i <= n,
            n == monitors@.len(),
            out@ == seq![91u8] + spec_monitor_list_items(monitors@.take(i as int)),
        decreases n - i,
    {
        if i > 0 {
            out.push(44u8);
        }
        monitor_json_into(&mut out, &monitors[i]);
        i += 1;
        proof {
            assert(monitors@.take(i as int).drop_last() =~= monitors@.take(i - 1));
            assert(monitors@.take(i as int).last() == monitors@[i - 1]);
            assert(out@ =~= seq![91u8] + spec_monitor_list_items(monitors@.take(i as int)));
        }
    }
    out.push(93u8);
    proof {
        assert(monitors@.take(n as int) =~= monitors@);
        assert(out@ =~= spec_monitor_list_json(monitors@));
    }
    out
}

} // verus!
