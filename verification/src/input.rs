//! Input-event planning: normalized cursor coordinates are mapped onto a
//! monitor's rectangle and then onto the 16-bit virtual-desktop scale, and
//! key codes are resolved to side-specific virtual keys. The planned records
//! mirror the OS input events; submitting them is outside the library.

use vstd::arithmetic::div_mod::lemma_multiply_divide_lt;
use vstd::arithmetic::power2::lemma2_to64;
use vstd::arithmetic::power2::lemma2_to64_rest;
use vstd::arithmetic::power2::lemma_pow2_adds;
use vstd::arithmetic::power2::lemma_pow2_strictly_increases;
use vstd::arithmetic::power2::pow2;
use vstd::prelude::*;

use crate::capture::MonitorInfo;
use crate::text::str_eq;

verus! {

/// Mouse event flag: relative or absolute move.
pub const MOUSEEVENTF_MOVE: u32 = 0x0001;

/// Mouse event flag: left button down.
pub const MOUSEEVENTF_LEFTDOWN: u32 = 0x0002;

/// Mouse event flag: left button up.
pub const MOUSEEVENTF_LEFTUP: u32 = 0x0004;

/// Mouse event flag: right button down.
pub const MOUSEEVENTF_RIGHTDOWN: u32 = 0x0008;

/// Mouse event flag: right button up.
pub const MOUSEEVENTF_RIGHTUP: u32 = 0x0010;

/// Mouse event flag: middle button down.
pub const MOUSEEVENTF_MIDDLEDOWN: u32 = 0x0020;

/// Mouse event flag: middle button up.
pub const MOUSEEVENTF_MIDDLEUP: u32 = 0x0040;

/// Mouse event flag: extended button down.
pub const MOUSEEVENTF_XDOWN: u32 = 0x0080;

/// Mouse event flag: extended button up.
pub const MOUSEEVENTF_XUP: u32 = 0x0100;

/// Mouse event flag: vertical wheel; the data field carries the delta.
pub const MOUSEEVENTF_WHEEL: u32 = 0x0800;

/// Mouse event flag: horizontal wheel; the data field carries the delta.
pub const MOUSEEVENTF_HWHEEL: u32 = 0x1000;

/// Mouse event flag: coordinates span the whole virtual desktop.
pub const MOUSEEVENTF_VIRTUALDESK: u32 = 0x4000;

/// Mouse event flag: coordinates are absolute, 0 to 65535.
pub const MOUSEEVENTF_ABSOLUTE: u32 = 0x8000;

/// Data value naming the first extended mouse button.
pub const XBUTTON1_DATA: u32 = 0x0001;

/// Data value naming the second extended mouse button.
pub const XBUTTON2_DATA: u32 = 0x0002;

/// Virtual key code of the left shift key.
pub const VK_LSHIFT: u16 = 0xA0;

/// Virtual key code of the right shift key.
pub const VK_RSHIFT: u16 = 0xA1;

/// Virtual key code of the left control key.
pub const VK_LCONTROL: u16 = 0xA2;

/// Virtual key code of the right control key.
pub const VK_RCONTROL: u16 = 0xA3;

/// Virtual key code of the left alt key.
pub const VK_LMENU: u16 = 0xA4;

/// Virtual key code of the right alt key.
pub const VK_RMENU: u16 = 0xA5;

/// Virtual key code of the left OS key.
pub const VK_LWIN: u16 = 0x5B;

/// Virtual key code of the right OS key.
pub const VK_RWIN: u16 = 0x5C;

/// One micro-unit short of full scale: normalized coordinates are carried as
/// millionths in `[0, 1_000_000]`.
pub const NORM_ONE_MICRO: u32 = 1_000_000;

/// The monitor a session's input coordinates are mapped onto.
#[derive(Debug, Clone, Copy, PartialEq, Eq, Structural)]
pub struct ActiveMonitor {
    pub left: i32,
    pub top: i32,
    pub width: u32,
    pub height: u32,
}

impl ActiveMonitor {
    /// The geometry of an enumerated monitor.
    pub fn from_info(info: &MonitorInfo) -> (r: ActiveMonitor)
        ensures
            r.left == info.left,
            r.top == info.top,
            r.width == info.width,
            r.height == info.height,
    {
        ActiveMonitor { left: info.left, top: info.top, width: info.width, height: info.height }
    }

    /// The monitor's rectangle stays inside the signed 32-bit coordinate
    /// space, as the OS guarantees of the virtual desktop.
    pub open spec fn wf(self) -> bool {
        &&& self.left + self.width <= i32::MAX + 1
        &&& self.top + self.height <= i32::MAX + 1
    }
}

/// One planned mouse event, mirroring the OS record: a position or delta,
/// button or wheel data, and the event flags.
#[derive(Debug, Clone, Copy, PartialEq, Eq, Structural)]
pub struct MouseInputRecord {
    pub dx: i32,
    pub dy: i32,
    pub mouse_data: u32,
    pub flags: u32,
}

/// One planned keyboard event: the virtual key and its direction.
#[derive(Debug, Clone, Copy, PartialEq, Eq, Structural)]
pub struct KeyInputRecord {
    pub virtual_key: u16,
    pub key_up: bool,
}

/// The normalized coordinate a 64-bit float carries, as millionths clamped
/// to `[0, 1_000_000]`, rounding half up. The float arrives as its raw bits:
/// sign, biased exponent, mantissa. Negative values, zeros, subnormals and
/// NaN map to 0; values of one or more, and infinity, map to full scale.
pub open spec fn spec_norm_micro_from_f64_bits(bits: u64) -> u32 {
    let sign = bits >> 63;
    let e = (bits >> 52) & 0x7ff;
    let m = bits & 0xf_ffff_ffff_ffff;
    if sign == 1 {
        0
    } else if e == 0x7ff {
        if m == 0 {
            NORM_ONE_MICRO
        } else {
            0
        }
    } else if e >= 1023 {
        NORM_ONE_MICRO
    } else if e == 0 {
        0
    } else if 1075 - e >= 74 {
        0
    } else {
        let frac = m + 0x10_0000_0000_0000;
        let s = (1075 - e) as nat;
        (((frac * 1_000_000 + pow2((s - 1) as nat)) / pow2(s) as int) as u32)
    }
}

/// Two to the given power, computed by doubling.
pub fn pow2_u128(n: u32) -> (r: u128)
    requires
        n <= 73,
    ensures
        r == pow2(n as nat),
{
    proof {
        lemma2_to64();
        lemma2_to64_rest();
        lemma_pow2_adds(64, 9);
    }
    let mut r: u128 = 1;
    let mut i: u32 = 0;
    while i < n
        invariant
            0 <= i <= n <= 73,
            r == pow2(i as nat),
            pow2(73) == 0x200_0000_0000_0000_0000,
        decreases n - i,
    {
        proof {
            lemma_pow2_adds(i as nat, 1);
            lemma2_to64();
            if i + 1 < 73 {
                lemma_pow2_strictly_increases((i + 1) as nat, 73);
            }
        }
        r = r * 2;
        i += 1;
    }
    r
}

/// Decodes the raw bits of a 64-bit float into the clamped micro-unit
/// coordinate: `round(clamp(x, 0, 1) * 1_000_000)`, computed exactly on the
/// float's integer fields.
pub fn norm_micro_from_f64_bits(bits: u64) -> (r: u32)
    ensures
        r == spec_norm_micro_from_f64_bits(bits),
        r <= NORM_ONE_MICRO,
{
    let sign = bits >> 63;
    let e = (bits >> 52) & 0x7ff;
    let m = bits & 0xf_ffff_ffff_ffff;
    proof {
        assert((bits & 0xf_ffff_ffff_ffffu64) <= 0xf_ffff_ffff_ffffu64 && ((bits >> 52u64)
            & 0x7ffu64) <= 0x7ffu64) by (bit_vector);
    }
    if sign == 1 {
        0
    } else if e == 0x7ff {
        if m == 0 {
            NORM_ONE_MICRO
        } else {
            0
        }
    } else if e >= 1023 {
        NORM_ONE_MICRO
    } else if e == 0 {
        0
    } else if 1075 - e >= 74 {
        0
    } else {
        let s32: u32 = (1075 - e) as u32;
        let frac: u128 = (m + 0x10_0000_0000_0000) as u128;
        let den: u128 = pow2_u128(s32);
        let half: u128 = den / 2;
        proof {
            lemma2_to64();
            lemma2_to64_rest();
            lemma_pow2_adds(64, 9);
            lemma_pow2_adds((s32 - 1) as nat, 1);
            if 53 < s32 {
                lemma_pow2_strictly_increases(53, s32 as nat);
            }
            if s32 < 73 {
                lemma_pow2_strictly_increases(s32 as nat, 73);
            }
            lemma_pow2_strictly_increases((s32 - 1) as nat, s32 as nat);
            assert(frac * 1_000_000 < pow2(s32 as nat) * 1_000_000) by (nonlinear_arith)
                requires
                    frac < pow2(s32 as nat),
            ;
            assert(pow2(s32 as nat) * 1_000_000 + pow2(s32 as nat) == pow2(s32 as nat)
                * 1_000_001) by (nonlinear_arith);
            lemma_multiply_divide_lt(
                frac * 1_000_000 + pow2((s32 - 1) as nat),
                pow2(s32 as nat) as int,
                1_000_001,
            );
        }
        let num: u128 = frac * 1_000_000 + half;
        let q: u128 = num / den;
        q as u32
    }
}

/// Rounding division, half up: the nearest integer to `p / q`.
pub open spec fn spec_round_div(p: int, q: int) -> int
    recommends
        p >= 0,
        q >= 1,
{
    (2 * p + q) / (2 * q)
}

/// The pixel column or row a micro-unit coordinate lands on inside an extent
/// of `extent` pixels: the coordinate is clamped to full scale, a degenerate
/// extent counts as one pixel, and the result is the rounded product with
/// the last pixel index.
pub open spec fn spec_local_coord(micro: u32, extent: u32) -> int {
    let clamped: int = if micro > NORM_ONE_MICRO {
        NORM_ONE_MICRO as int
    } else {
        micro as int
    };
    let e: int = if extent >= 1 {
        extent as int
    } else {
        1
    };
    spec_round_div(clamped * (e - 1), NORM_ONE_MICRO as int)
}

/// Maps a micro-unit coordinate onto one axis of a monitor extent.
fn local_coord(micro: u32, extent: u32) -> (r: u32)
    ensures
        r == spec_local_coord(micro, extent),
        extent >= 1 ==> r < extent,
        extent == 0 ==> r == 0,
{
    let clamped: u64 = if micro > NORM_ONE_MICRO {
        NORM_ONE_MICRO as u64
    } else {
        micro as u64
    };
    let e: u64 = if extent >= 1 {
        extent as u64
    } else {
        1
    };
    proof {
        assert(2 * clamped * (e - 1) + 1_000_000 < 2_000_000 * e) by (nonlinear_arith)
            requires
                clamped <= 1_000_000,
                1 <= e,
        ;
        lemma_multiply_divide_lt(2 * clamped * (e - 1) + 1_000_000, 2_000_000, e as int);
        assert(2 * (clamped * (e - 1)) == 2 * clamped * (e - 1)) by (nonlinear_arith);
        assert(2 * clamped * (e - 1) + 1_000_000 >= 0) by (nonlinear_arith)
            requires
                clamped >= 0,
                e >= 1,
        ;
    }
    let num: u64 = 2 * clamped * (e - 1) + 1_000_000;
    let r64: u64 = num / 2_000_000;
    r64 as u32
}

/// The desktop pixel a normalized position maps to on a monitor: the
/// monitor's origin plus the rounded local coordinate on each axis.
pub open spec fn spec_desktop_point(monitor: ActiveMonitor, x_micro: u32, y_micro: u32) -> (
    int,
    int,
) {
    (
        monitor.left + spec_local_coord(x_micro, monitor.width),
        monitor.top + spec_local_coord(y_micro, monitor.height),
    )
}

/// Maps a normalized position onto the monitor's rectangle.
pub fn to_desktop_point(monitor: ActiveMonitor, x_micro: u32, y_micro: u32) -> (r: (i32, i32))
    requires
        monitor.wf(),
    ensures
        (r.0 as int, r.1 as int) == spec_desktop_point(monitor, x_micro, y_micro),
{
    let lx = local_coord(x_micro, monitor.width);
    let ly = local_coord(y_micro, monitor.height);
    let dx = (monitor.left as i64 + lx as i64) as i32;
    let dy = (monitor.top as i64 + ly as i64) as i32;
    (dx, dy)
}

/// The 16-bit absolute coordinate of a desktop pixel on one axis of the
/// virtual desktop: the pixel's offset from the desktop origin scaled onto
/// `[0, 65535]` and clamped there; a degenerate desktop maps everything to 0.
pub open spec fn spec_sendinput_absolute(value: int, origin: int, size: int) -> int {
    if size <= 1 {
        0
    } else {
        let num = (value - origin) * 65535;
        if num <= 0 {
            0
        } else {
            let q = num / (size - 1);
            if q > 65535 {
                65535
            } else {
                q
            }
        }
    }
}

/// Scales a desktop pixel coordinate onto the 16-bit absolute axis.
pub fn to_sendinput_absolute(value: i32, virtual_origin: i32, virtual_size: i32) -> (r: i32)
    ensures
        r == spec_sendinput_absolute(value as int, virtual_origin as int, virtual_size as int),
        0 <= r <= 65535,
{
    if virtual_size <= 1 {
        return 0;
    }
    let diff: i64 = value as i64 - virtual_origin as i64;
    if diff <= 0 {
        return 0;
    }
    let num: u64 = (diff as u64) * 65535;
    let den: u64 = (virtual_size - 1) as u64;
    let q: u64 = num / den;
    if q > 65535 {
        65535
    } else {
        q as i32
    }
}

/// The button flags and data of a mouse button event: left, middle, right,
/// then the two extended buttons; other codes plan no event.
pub open spec fn spec_mouse_button_flags(button: u8, down: bool) -> Option<(u32, u32)> {
    if button == 0 {
        Some(
            (
                if down {
                    MOUSEEVENTF_LEFTDOWN
                } else {
                    MOUSEEVENTF_LEFTUP
                },
                0u32,
            ),
        )
    } else if button == 1 {
        Some(
            (
                if down {
                    MOUSEEVENTF_MIDDLEDOWN
                } else {
                    MOUSEEVENTF_MIDDLEUP
                },
                0u32,
            ),
        )
    } else if button == 2 {
        Some(
            (
                if down {
                    MOUSEEVENTF_RIGHTDOWN
                } else {
                    MOUSEEVENTF_RIGHTUP
                },
                0u32,
            ),
        )
    } else if button == 3 {
        Some(
            (
                if down {
                    MOUSEEVENTF_XDOWN
                } else {
                    MOUSEEVENTF_XUP
                },
                XBUTTON1_DATA,
            ),
        )
    } else if button == 4 {
        Some(
            (
                if down {
                    MOUSEEVENTF_XDOWN
                } else {
                    MOUSEEVENTF_XUP
                },
                XBUTTON2_DATA,
            ),
        )
    } else {
        None
    }
}

/// Resolves a button code to its event flags and data.
pub fn mouse_button_flags(button: u8, down: bool) -> (r: Option<(u32, u32)>)
    ensures
        r == spec_mouse_button_flags(button, down),
{
    match button {
        0 => Some(
            (
                if down {
                    MOUSEEVENTF_LEFTDOWN
                } else {
                    MOUSEEVENTF_LEFTUP
                },
                0,
            ),
        ),
        1 => Some(
            (
                if down {
                    MOUSEEVENTF_MIDDLEDOWN
                } else {
                    MOUSEEVENTF_MIDDLEUP
                },
                0,
            ),
        ),
        2 => Some(
            (
                if down {
                    MOUSEEVENTF_RIGHTDOWN
                } else {
                    MOUSEEVENTF_RIGHTUP
                },
                0,
            ),
        ),
        3 => Some(
            (
                if down {
                    MOUSEEVENTF_XDOWN
                } else {
                    MOUSEEVENTF_XUP
                },
                XBUTTON1_DATA,
            ),
        ),
        4 => Some(
            (
                if down {
                    MOUSEEVENTF_XDOWN
                } else {
                    MOUSEEVENTF_XUP
                },
                XBUTTON2_DATA,
            ),
        ),
        _ => None,
    }
}

/// The side-specific virtual key a physical-key name selects; any other name
/// passes the client's key code through.
pub open spec fn spec_map_virtual_key(key_code: u16, code: Option<Seq<char>>) -> u16 {
    match code {
        Some(c) => {
            if c == "ShiftLeft"@ {
                VK_LSHIFT
            } else if c == "ShiftRight"@ {
                VK_RSHIFT
            } else if c == "ControlLeft"@ {
                VK_LCONTROL
            } else if c == "ControlRight"@ {
                VK_RCONTROL
            } else if c == "AltLeft"@ {
                VK_LMENU
            } else if c == "AltRight"@ {
                VK_RMENU
            } else if c == "MetaLeft"@ {
                VK_LWIN
            } else if c == "MetaRight"@ {
                VK_RWIN
            } else {
                key_code
            }
        },
        None => key_code,
    }
}

/// The view of an optional borrowed string.
pub open spec fn spec_opt_code_view(code: Option<&str>) -> Option<Seq<char>> {
    match code {
        Some(c) => Some(c@),
        None => None,
    }
}

/// Resolves a key code and optional physical-key name to the virtual key.
pub fn map_virtual_key(key_code: u16, code: Option<&str>) -> (r: u16)
    ensures
        r == spec_map_virtual_key(key_code, spec_opt_code_view(code)),
{
    match code {
        Some(c) => {
            if str_eq(c, "ShiftLeft") {
                VK_LSHIFT
            } else if str_eq(c, "ShiftRight") {
                VK_RSHIFT
            } else if str_eq(c, "ControlLeft") {
                VK_LCONTROL
            } else if str_eq(c, "ControlRight") {
                VK_RCONTROL
            } else if str_eq(c, "AltLeft") {
                VK_LMENU
            } else if str_eq(c, "AltRight") {
                VK_RMENU
            } else if str_eq(c, "MetaLeft") {
                VK_LWIN
            } else if str_eq(c, "MetaRight") {
                VK_RWIN
            } else {
                key_code
            }
        },
        None => key_code,
    }
}

/// The unsigned wheel-data field carrying a signed delta, two's complement.
pub open spec fn spec_wheel_data(delta: i32) -> u32 {
    if delta >= 0 {
        delta as u32
    } else {
        (delta + 0x1_0000_0000) as u32
    }
}

fn wheel_data(delta: i32) -> (r: u32)
    ensures
        r == spec_wheel_data(delta),
{
    if delta >= 0 {
        delta as u32
    } else {
        ((delta as i64) + 0x1_0000_0000) as u32
    }
}

/// Plans input events against the virtual desktop whose geometry was read at
/// construction.
#[derive(Debug, Clone, Copy, PartialEq, Eq, Structural)]
pub struct InputInjector {
    pub virtual_left: i32,
    pub virtual_top: i32,
    pub virtual_width: i32,
    pub virtual_height: i32,
}

/// The absolute-position mouse record the injector plans for a desktop
/// pixel: both axes scaled onto the 16-bit range, the given flags joined
/// with the absolute and virtual-desktop flags.
pub open spec fn spec_mouse_input_absolute(
    inj: InputInjector,
    desktop_x: int,
    desktop_y: int,
    flags: u32,
) -> MouseInputRecord {
    MouseInputRecord {
        dx: spec_sendinput_absolute(
            desktop_x,
            inj.virtual_left as int,
            inj.virtual_width as int,
        ) as i32,
        dy: spec_sendinput_absolute(
            desktop_y,
            inj.virtual_top as int,
            inj.virtual_height as int,
        ) as i32,
        mouse_data: 0,
        flags: flags | MOUSEEVENTF_ABSOLUTE | MOUSEEVENTF_VIRTUALDESK,
    }
}

/// The absolute move the injector plans for a normalized position on a
/// monitor.
pub open spec fn spec_move_record(
    inj: InputInjector,
    monitor: ActiveMonitor,
    x_micro: u32,
    y_micro: u32,
) -> MouseInputRecord {
    let p = spec_desktop_point(monitor, x_micro, y_micro);
    spec_mouse_input_absolute(inj, p.0, p.1, MOUSEEVENTF_MOVE)
}

impl InputInjector {
    /// Binds the planner to the virtual desktop rectangle; a non-positive
    /// virtual size is rejected.
    pub fn new(
        virtual_left: i32,
        virtual_top: i32,
        virtual_width: i32,
        virtual_height: i32,
    ) -> (r: Result<InputInjector, String>)
        ensures
            r is Ok <==> virtual_width > 0 && virtual_height > 0,
            r matches Ok(inj) ==> inj == (InputInjector {
                virtual_left,
                virtual_top,
                virtual_width,
                virtual_height,
            }),
    {
        if virtual_width <= 0 || virtual_height <= 0 {
            return Err("virtual desktop size is not positive".to_owned());
        }
        Ok(InputInjector { virtual_left, virtual_top, virtual_width, virtual_height })
    }

    /// Plans the absolute-position record for a desktop pixel.
    pub fn mouse_input_absolute(&self, desktop_x: i32, desktop_y: i32, flags: u32) -> (r:
        MouseInputRecord)
        ensures
            r == spec_mouse_input_absolute(*self, desktop_x as int, desktop_y as int, flags),
    {
        let abs_x = to_sendinput_absolute(desktop_x, self.virtual_left, self.virtual_width);
        let abs_y = to_sendinput_absolute(desktop_y, self.virtual_top, self.virtual_height);
        MouseInputRecord {
            dx: abs_x,
            dy: abs_y,
            mouse_data: 0,
            flags: flags | MOUSEEVENTF_ABSOLUTE | MOUSEEVENTF_VIRTUALDESK,
        }
    }

    /// Plans the single absolute move for a normalized position on the
    /// monitor.
    pub fn move_mouse(&self, monitor: ActiveMonitor, x_micro: u32, y_micro: u32) -> (r:
        MouseInputRecord)
        requires
            monitor.wf(),
        ensures
            r == spec_move_record(*self, monitor, x_micro, y_micro),
    {
        let (dx, dy) = to_desktop_point(monitor, x_micro, y_micro);
        self.mouse_input_absolute(dx, dy, MOUSEEVENTF_MOVE)
    }

    /// Plans a button event: the absolute move to the position, then the
    /// button change. An unknown button code plans nothing.
    pub fn mouse_button(
        &self,
        monitor: ActiveMonitor,
        x_micro: u32,
        y_micro: u32,
        button: u8,
        down: bool,
    ) -> (r: Vec<MouseInputRecord>)
        requires
            monitor.wf(),
        ensures
            match spec_mouse_button_flags(button, down) {
                Some(fd) => r@ == seq![
                    spec_move_record(*self, monitor, x_micro, y_micro),
                    MouseInputRecord { dx: 0, dy: 0, mouse_data: fd.1, flags: fd.0 },
                ],
                None => r@ == Seq::<MouseInputRecord>::empty(),
            },
    {
        let mut r: Vec<MouseInputRecord> = Vec::new();
        match mouse_button_flags(button, down) {
            Some((button_flags, button_data)) => {
                r.push(self.move_mouse(monitor, x_micro, y_micro));
                r.push(
                    MouseInputRecord { dx: 0, dy: 0, mouse_data: button_data, flags: button_flags },
                );
                proof {
                    assert(r@ =~= seq![
                        spec_move_record(*self, monitor, x_micro, y_micro),
                        MouseInputRecord {
                            dx: 0,
                            dy: 0,
                            mouse_data: spec_mouse_button_flags(button, down)->Some_0.1,
                            flags: spec_mouse_button_flags(button, down)->Some_0.0,
                        },
                    ]);
                }
            },
            None => {
                proof {
                    assert(r@ =~= Seq::<MouseInputRecord>::empty());
                }
            },
        }
        r
    }

    /// Plans a wheel event: the absolute move, a vertical wheel record when
    /// the vertical delta is nonzero, and a horizontal one when the
    /// horizontal delta is nonzero.
    pub fn mouse_wheel(
        &self,
        monitor: ActiveMonitor,
        x_micro: u32,
        y_micro: u32,
        delta_x: i32,
        delta_y: i32,
    ) -> (r: Vec<MouseInputRecord>)
        requires
            monitor.wf(),
        ensures
            r@ == seq![spec_move_record(*self, monitor, x_micro, y_micro)] + (if delta_y != 0 {
                seq![
                    MouseInputRecord {
                        dx: 0,
                        dy: 0,
                        mouse_data: spec_wheel_data(delta_y),
                        flags: MOUSEEVENTF_WHEEL,
                    },
                ]
            } else {
                Seq::<MouseInputRecord>::empty()
            }) + (if delta_x != 0 {
                seq![
                    MouseInputRecord {
                        dx: 0,
                        dy: 0,
                        mouse_data: spec_wheel_data(delta_x),
                        flags: MOUSEEVENTF_HWHEEL,
                    },
                ]
            } else {
                Seq::<MouseInputRecord>::empty()
            }),
    {
        let mut r: Vec<MouseInputRecord> = Vec::new();
        r.push(self.move_mouse(monitor, x_micro, y_micro));
        if delta_y != 0 {
            r.push(
                MouseInputRecord {
                    dx: 0,
                    dy: 0,
                    mouse_data: wheel_data(delta_y),
                    flags: MOUSEEVENTF_WHEEL,
                },
            );
        }
        if delta_x != 0 {
            r.push(
                MouseInputRecord {
                    dx: 0,
                    dy: 0,
                    mouse_data: wheel_data(delta_x),
                    flags: MOUSEEVENTF_HWHEEL,
                },
            );
        }
        proof {
            assert(r@ =~= seq![spec_move_record(*self, monitor, x_micro, y_micro)] + (if delta_y
                != 0 {
                seq![
                    MouseInputRecord {
                        dx: 0,
                        dy: 0,
                        mouse_data: spec_wheel_data(delta_y),
                        flags: MOUSEEVENTF_WHEEL,
                    },
                ]
            } else {
                Seq::<MouseInputRecord>::empty()
            }) + (if delta_x != 0 {
                seq![
                    MouseInputRecord {
                        dx: 0,
                        dy: 0,
                        mouse_data: spec_wheel_data(delta_x),
                        flags: MOUSEEVENTF_HWHEEL,
                    },
                ]
            } else {
                Seq::<MouseInputRecord>::empty()
            }));
        }
        r
    }

    /// Plans a key event; key code 0 plans nothing, and a known physical-key
    /// name picks the side-specific virtual key.
    pub fn keyboard_key(&self, key_code: u16, code: Option<&str>, down: bool) -> (r: Option<
        KeyInputRecord,
    >)
        ensures
            key_code == 0 ==> r is None,
            key_code != 0 ==> r == Some(
                KeyInputRecord {
                    virtual_key: spec_map_virtual_key(key_code, spec_opt_code_view(code)),
                    key_up: !down,
                },
            ),
    {
        if key_code == 0 {
            return None;
        }
        let vk = map_virtual_key(key_code, code);
        Some(KeyInputRecord { virtual_key: vk, key_up: !down })
    }
}

} // verus!
