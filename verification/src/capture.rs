//! The computable part of the capture engine: monitor geometry, rotation
//! correction, cursor-shape decoding and compositing rules, and the packing
//! of the chroma-subsampled readback buffer. The GPU calls that surround
//! these live outside the library.

use vstd::prelude::*;

verus! {

/// Shader rotation code: no rotation.
pub const ROTATION_IDENTITY: u32 = 0;

/// Shader rotation code: display rotated 90 degrees.
pub const ROTATION_90: u32 = 1;

/// Shader rotation code: display rotated 180 degrees.
pub const ROTATION_180: u32 = 2;

/// Shader rotation code: display rotated 270 degrees.
pub const ROTATION_270: u32 = 3;

/// A display as enumerated at process start; immutable afterwards.
#[derive(Debug, Clone, PartialEq, Eq)]
pub struct MonitorInfo {
    /// Dense index, starting at 0, in enumeration order.
    pub index: u32,
    /// Human-readable device name.
    pub name: String,
    /// Logical origin in the virtual desktop.
    pub left: i32,
    pub top: i32,
    /// Logical size; always positive.
    pub width: u32,
    pub height: u32,
    /// Whether this is the primary display.
    pub primary: bool,
}

impl MonitorInfo {
    /// Builds a descriptor from the desktop-coordinate rectangle the OS
    /// reports: size is the rectangle's span, and the display whose origin is
    /// the desktop origin is primary.
    pub fn from_desktop_rect(index: u32, name: String, left: i32, top: i32, right: i32, bottom: i32)
        -> (r: MonitorInfo)
        requires
            left < right,
            top < bottom,
        ensures
            r.index == index,
            r.name == name,
            r.left == left,
            r.top == top,
            r.width == right - left,
            r.height == bottom - top,
            r.primary == (left == 0 && top == 0),
    {
        let width = (right as i64 - left as i64) as u32;
        let height = (bottom as i64 - top as i64) as u32;
        MonitorInfo { index, name, left, top, width, height, primary: left == 0 && top == 0 }
    }
}

/// Maps the OS rotation code (1 identity, 2/3/4 for 90/180/270 degrees) to
/// the shader's rotation constant; unspecified rotations count as identity.
pub fn to_shader_rotation(os_rotation: i32) -> (r: u32)
    ensures
        os_rotation == 2 ==> r == ROTATION_90,
        os_rotation == 3 ==> r == ROTATION_180,
        os_rotation == 4 ==> r == ROTATION_270,
        !(os_rotation == 2 || os_rotation == 3 || os_rotation == 4) ==> r == ROTATION_IDENTITY,
        r <= 3,
{
    if os_rotation == 2 {
        ROTATION_90
    } else if os_rotation == 3 {
        ROTATION_180
    } else if os_rotation == 4 {
        ROTATION_270
    } else {
        ROTATION_IDENTITY
    }
}

/// The physical scan-out size: the mode size when the OS reports one, else
/// the logical size with width and height swapped under 90 or 270 degrees of
/// rotation.
pub fn physical_dimensions(
    mode_width: u32,
    mode_height: u32,
    rotation: u32,
    logical_width: u32,
    logical_height: u32,
) -> (r: (u32, u32))
    ensures
        mode_width > 0 && mode_height > 0 ==> r == (mode_width, mode_height),
        !(mode_width > 0 && mode_height > 0) && (rotation == ROTATION_90 || rotation
            == ROTATION_270) ==> r == (logical_height, logical_width),
        !(mode_width > 0 && mode_height > 0) && !(rotation == ROTATION_90 || rotation
            == ROTATION_270) ==> r == (logical_width, logical_height),
{
    if mode_width > 0 && mode_height > 0 {
        (mode_width, mode_height)
    } else if rotation == ROTATION_90 || rotation == ROTATION_270 {
        (logical_height, logical_width)
    } else {
        (logical_width, logical_height)
    }
}

/// The physical source pixel a logical destination pixel reads from: the
/// inverse of the display rotation. Under 90 or 270 degrees the logical frame
/// is the physical frame with the axes swapped.
pub fn rotate_src_for_dst(rotation: u32, dst_x: u32, dst_y: u32, src_w: u32, src_h: u32) -> (r: (
    u32,
    u32,
))
    requires
        rotation <= 3,
        rotation == ROTATION_90 || rotation == ROTATION_270 ==> dst_x < src_h && dst_y < src_w,
        rotation == ROTATION_IDENTITY || rotation == ROTATION_180 ==> dst_x < src_w && dst_y
            < src_h,
    ensures
        rotation == ROTATION_IDENTITY ==> r == (dst_x, dst_y),
        rotation == ROTATION_90 ==> r.0 == dst_y && r.1 == src_h - 1 - dst_x,
        rotation == ROTATION_180 ==> r.0 == src_w - 1 - dst_x && r.1 == src_h - 1 - dst_y,
        rotation == ROTATION_270 ==> r.0 == src_w - 1 - dst_y && r.1 == dst_x,
        r.0 < src_w,
        r.1 < src_h,
{
    if rotation == ROTATION_90 {
        (dst_y, src_h - 1 - dst_x)
    } else if rotation == ROTATION_180 {
        (src_w - 1 - dst_x, src_h - 1 - dst_y)
    } else if rotation == ROTATION_270 {
        (src_w - 1 - dst_y, dst_x)
    } else {
        (dst_x, dst_y)
    }
}

/// The three cursor shape kinds the capture source reports.
#[derive(Debug, Clone, Copy, PartialEq, Eq, Structural)]
pub enum CursorKind {
    /// Premultiplied-alpha 32-bit color.
    Color,
    /// 32-bit color where alpha 255 means XOR and alpha 0 means keep.
    MaskedColor,
    /// Two stacked 1-bit planes: AND on top, XOR below.
    Monochrome,
}

impl CursorKind {
    /// The discriminant handed to the compositing shader.
    pub open spec fn spec_shader_code(self) -> u32 {
        match self {
            CursorKind::Color => 1,
            CursorKind::MaskedColor => 2,
            CursorKind::Monochrome => 3,
        }
    }

    pub fn shader_code(self) -> (r: u32)
        ensures
            r == self.spec_shader_code(),
    {
        match self {
            CursorKind::Color => 1,
            CursorKind::MaskedColor => 2,
            CursorKind::Monochrome => 3,
        }
    }
}

/// What a reported pointer shape is to be turned into: its kind, the texture
/// size, and how many buffer bytes the shape data must hold.
#[derive(Debug, Clone, Copy, PartialEq, Eq, Structural)]
pub struct CursorPlan {
    pub kind: CursorKind,
    pub width: u32,
    pub height: u32,
    pub required_bytes: usize,
}

/// Classifies a reported pointer shape. The OS type codes are 1 monochrome,
/// 2 color, 4 masked color. A monochrome shape's reported height covers both
/// planes, so the cursor is half as tall. `None` for unknown type codes,
/// degenerate monochrome sizes, or a buffer shorter than `pitch` bytes per
/// reported row.
pub fn classify_cursor_shape(
    shape_type: u32,
    width: u32,
    reported_height: u32,
    pitch: u32,
    buffer_len: usize,
) -> (r: Option<CursorPlan>)
    ensures
        shape_type == 2 ==> r == (if pitch * reported_height <= buffer_len {
            Some(
                CursorPlan {
                    kind: CursorKind::Color,
                    width,
                    height: reported_height,
                    required_bytes: (pitch * reported_height) as usize,
                },
            )
        } else {
            Option::<CursorPlan>::None
        }),
        shape_type == 4 ==> r == (if pitch * reported_height <= buffer_len {
            Some(
                CursorPlan {
                    kind: CursorKind::MaskedColor,
                    width,
                    height: reported_height,
                    required_bytes: (pitch * reported_height) as usize,
                },
            )
        } else {
            Option::<CursorPlan>::None
        }),
        shape_type == 1 ==> r == (if width > 0 && reported_height / 2 > 0 && pitch
            * reported_height <= buffer_len {
            Some(
                CursorPlan {
                    kind: CursorKind::Monochrome,
                    width,
                    height: reported_height / 2,
                    required_bytes: (pitch * reported_height) as usize,
                },
            )
        } else {
            Option::<CursorPlan>::None
        }),
        !(shape_type == 1 || shape_type == 2 || shape_type == 4) ==> r is None,
{
    proof {
        assert(pitch * reported_height <= u32::MAX * u32::MAX) by (nonlinear_arith)
            requires
                pitch <= u32::MAX,
                reported_height <= u32::MAX,
        ;
    }
    let required64 = (pitch as u64) * (reported_height as u64);
    let fits = required64 <= buffer_len as u64;
    if shape_type == 2 {
        if fits {
            Some(
                CursorPlan {
                    kind: CursorKind::Color,
                    width,
                    height: reported_height,
                    required_bytes: required64 as usize,
                },
            )
        } else {
            None
        }
    } else if shape_type == 4 {
        if fits {
            Some(
                CursorPlan {
                    kind: CursorKind::MaskedColor,
                    width,
                    height: reported_height,
                    required_bytes: required64 as usize,
                },
            )
        } else {
            None
        }
    } else if shape_type == 1 {
        let height = reported_height / 2;
        if width > 0 && height > 0 && fits {
            Some(
                CursorPlan {
                    kind: CursorKind::Monochrome,
                    width,
                    height,
                    required_bytes: required64 as usize,
                },
            )
        } else {
            None
        }
    } else {
        None
    }
}

/// The 2-bit opcode of one monochrome cursor pixel, from its AND and XOR
/// plane bits.
pub open spec fn spec_mono_opcode(and_bit: u8, xor_bit: u8) -> u8 {
    (and_bit + 2 * xor_bit) as u8
}

/// Packing the two plane bits: the opcode equals `and | (xor << 1)`.
pub proof fn lemma_mono_opcode_packing(and_bit: u8, xor_bit: u8)
    requires
        and_bit <= 1,
        xor_bit <= 1,
    ensures
        spec_mono_opcode(and_bit, xor_bit) == (and_bit | (xor_bit << 1)),
{
    assert((and_bit | (xor_bit << 1)) == and_bit + 2 * xor_bit) by (bit_vector)
        requires
            and_bit <= 1,
            xor_bit <= 1,
    ;
}

/// The bit of a 1-bit plane at pixel column `x` of the plane row starting at
/// byte `row_off`: bits run from the most significant bit down.
pub open spec fn spec_plane_bit(buf: Seq<u8>, row_off: int, x: int) -> u8 {
    if buf[row_off + x / 8] & (0x80u8 >> ((x % 8) as u8)) != 0 {
        1u8
    } else {
        0u8
    }
}

/// The decoded opcode of monochrome cursor pixel `(x, y)`: the AND plane
/// occupies the first `height` rows of the buffer, the XOR plane the next.
pub open spec fn spec_mono_op_at(buf: Seq<u8>, pitch: int, height: int, x: int, y: int) -> u8 {
    spec_mono_opcode(
        spec_plane_bit(buf, y * pitch, x),
        spec_plane_bit(buf, (y + height) * pitch, x),
    )
}

/// The whole decoded monochrome cursor, row-major.
pub open spec fn spec_mono_ops(buf: Seq<u8>, width: int, height: int, pitch: int) -> Seq<u8> {
    Seq::new(
        (width * height) as nat,
        |i: int| spec_mono_op_at(buf, pitch, height, i % width, i / width),
    )
}

/// Decodes the two stacked 1-bit planes of a monochrome cursor into one byte
/// per pixel, each holding the 2-bit compositing opcode.
pub fn decode_monochrome_cursor(
    shape_buffer: &[u8],
    width: u32,
    height: u32,
    pitch: usize,
) -> (r: Vec<u8>)
    requires
        width >= 1,
        height >= 1,
        width <= pitch * 8,
        2 * height * pitch <= shape_buffer@.len(),
        width * height <= usize::MAX,
    ensures
        r@ == spec_mono_ops(shape_buffer@, width as int, height as int, pitch as int),
{
    let ghost spec_result = spec_mono_ops(shape_buffer@, width as int, height as int, pitch as int);
    let buf_len = shape_buffer.len();
    let mut ops: Vec<u8> = Vec::new();
    let w = width as usize;
    let h = height as usize;
    let mut y: usize = 0;
    while y < h
        invariant
            0 <= y <= h,
            w == width,
            h == height,
            width >= 1,
            height >= 1,
            width <= pitch * 8,
            2 * height * pitch <= shape_buffer@.len(),
            shape_buffer@.len() <= usize::MAX,
            width * height <= usize::MAX,
            spec_result == spec_mono_ops(shape_buffer@, width as int, height as int, pitch as int),
            ops@.len() == y * w,
            forall|j: int| 0 <= j < ops@.len() ==> ops@[j] == spec_result[j],
        decreases h - y,
    {
        let mut x: usize = 0;
        while x < w
            invariant
                0 <= x <= w,
                0 <= y < h,
                w == width,
                h == height,
                width >= 1,
                height >= 1,
                width <= pitch * 8,
                2 * height * pitch <= shape_buffer@.len(),
                shape_buffer@.len() <= usize::MAX,
                width * height <= usize::MAX,
                spec_result == spec_mono_ops(
                    shape_buffer@,
                    width as int,
                    height as int,
                    pitch as int,
                ),
                ops@.len() == y * w + x,
                forall|j: int| 0 <= j < ops@.len() ==> ops@[j] == spec_result[j],
            decreases w - x,
        {
            proof {
                assert(y * pitch + x / 8 < y * pitch + pitch) by (nonlinear_arith)
                    requires
                        x < w,
                        w <= pitch * 8,
                        pitch >= 1,
                ;
                assert(y * pitch + pitch <= h * pitch) by (nonlinear_arith)
                    requires
                        y < h,
                ;
                assert(h * pitch <= 2 * height * pitch) by (nonlinear_arith)
                    requires
                        h == height,
                ;
                assert(y + h <= 2 * height * pitch) by (nonlinear_arith)
                    requires
                        y < h,
                        h == height,
                        pitch >= 1,
                ;
                assert((y + h) * pitch + pitch <= 2 * h * pitch) by (nonlinear_arith)
                    requires
                        y < h,
                ;
                assert((y + h) * pitch + x / 8 < (y + h) * pitch + pitch) by (nonlinear_arith)
                    requires
                        x < w,
                        w <= pitch * 8,
                        pitch >= 1,
                ;
            }
            let byte_off = y * pitch + x / 8;
            let bit_mask: u8 = 0x80u8 >> ((x % 8) as u8);
            let and_bit: u8 = if shape_buffer[byte_off] & bit_mask != 0 {
                1
            } else {
                0
            };
            let xor_off = (y + h) * pitch + x / 8;
            let xor_bit: u8 = if shape_buffer[xor_off] & bit_mask != 0 {
                1
            } else {
                0
            };
            proof {
                assert(y * w + x < w * h) by (nonlinear_arith)
                    requires
                        0 <= x < w,
                        0 <= y < h,
                ;
                assert((y * w + x) % (w as int) == x && (y * w + x) / (w as int) == y)
                    by (nonlinear_arith)
                    requires
                        0 <= x < w,
                        0 <= y,
                        w >= 1,
                ;
                assert(spec_result[y * w + x] == spec_mono_op_at(
                    shape_buffer@,
                    pitch as int,
                    height as int,
                    x as int,
                    y as int,
                ));
            }
            ops.push(and_bit + 2 * xor_bit);
            x += 1;
        }
        y += 1;
        proof {
            assert((y - 1) * w + w == y * w) by (nonlinear_arith);
        }
    }
    proof {
        assert(ops@.len() == width * height) by (nonlinear_arith)
            requires
                ops@.len() == height * width,
        ;
        assert(ops@ =~= spec_result);
    }
    ops
}

/// The shader's rule for a monochrome cursor pixel: opcode 0 paints black,
/// 1 keeps the destination, 2 paints white, 3 inverts the destination.
pub fn mono_composite(op: u8, base_r: u8, base_g: u8, base_b: u8) -> (r: (u8, u8, u8))
    requires
        op <= 3,
    ensures
        op == 0 ==> r == (0u8, 0u8, 0u8),
        op == 1 ==> r == (base_r, base_g, base_b),
        op == 2 ==> r == (255u8, 255u8, 255u8),
        op == 3 ==> r == ((255 - base_r) as u8, (255 - base_g) as u8, (255 - base_b) as u8),
{
    if op == 0 {
        (0, 0, 0)
    } else if op == 2 {
        (255, 255, 255)
    } else if op == 3 {
        (255 - base_r, 255 - base_g, 255 - base_b)
    } else {
        (base_r, base_g, base_b)
    }
}

/// The shader's rule for a masked-color cursor pixel whose alpha is 255:
/// each destination channel is XORed with the cursor channel.
pub fn xor_rgb(base_r: u8, base_g: u8, base_b: u8, mask_r: u8, mask_g: u8, mask_b: u8) -> (r: (
    u8,
    u8,
    u8,
))
    ensures
        r == (base_r ^ mask_r, base_g ^ mask_g, base_b ^ mask_b),
{
    (base_r ^ mask_r, base_g ^ mask_g, base_b ^ mask_b)
}

/// The constant buffer handed to the compositing shader.
#[derive(Debug, Clone, Copy, PartialEq, Eq, Structural)]
pub struct CompositeConstants {
    pub phys_width: u32,
    pub phys_height: u32,
    pub rotation: u32,
    /// 1 when a visible cursor is to be drawn, else 0.
    pub cursor_enabled: u32,
    /// Cursor rectangle: position minus hotspot, then the shape size.
    pub cursor_left: i32,
    pub cursor_top: i32,
    pub cursor_width: i32,
    pub cursor_height: i32,
    /// The shader code of the cursor kind; 0 when no cursor is drawn.
    pub cursor_kind: u32,
}

/// A cursor shape resident on the GPU, as the compositor tracks it.
#[derive(Debug, Clone, Copy, PartialEq, Eq, Structural)]
pub struct CursorState {
    pub kind: CursorKind,
    pub width: u32,
    pub height: u32,
    pub hotspot_x: i32,
    pub hotspot_y: i32,
}

/// Fills the compositing constants for one frame. When the cursor is hidden
/// or no shape is known, the cursor is disabled and no cursor pixel can be
/// written; otherwise the cursor rectangle is the reported position minus
/// the shape's hotspot.
pub fn composite_constants(
    phys_width: u32,
    phys_height: u32,
    rotation: u32,
    cursor: Option<&CursorState>,
    cursor_visible: bool,
    pos_x: i32,
    pos_y: i32,
) -> (r: CompositeConstants)
    requires
        cursor matches Some(c) ==> i32::MIN <= pos_x - c.hotspot_x <= i32::MAX,
        cursor matches Some(c) ==> i32::MIN <= pos_y - c.hotspot_y <= i32::MAX,
        cursor matches Some(c) ==> c.width <= i32::MAX && c.height <= i32::MAX,
    ensures
        r.phys_width == phys_width,
        r.phys_height == phys_height,
        r.rotation == rotation,
        !cursor_visible || cursor is None ==> r.cursor_enabled == 0 && r.cursor_kind == 0,
        cursor_visible ==> (cursor matches Some(c) ==> r.cursor_enabled == 1 && r.cursor_kind
            == c.kind.spec_shader_code() && r.cursor_left == pos_x - c.hotspot_x && r.cursor_top
            == pos_y - c.hotspot_y && r.cursor_width == c.width && r.cursor_height == c.height),
{
    match cursor {
        Some(c) if cursor_visible => CompositeConstants {
            phys_width,
            phys_height,
            rotation,
            cursor_enabled: 1,
            cursor_left: ((pos_x as i64) - (c.hotspot_x as i64)) as i32,
            cursor_top: ((pos_y as i64) - (c.hotspot_y as i64)) as i32,
            cursor_width: c.width as i32,
            cursor_height: c.height as i32,
            cursor_kind: c.kind.shader_code(),
        },
        _ => CompositeConstants {
            phys_width,
            phys_height,
            rotation,
            cursor_enabled: 0,
            cursor_left: 0,
            cursor_top: 0,
            cursor_width: 0,
            cursor_height: 0,
            cursor_kind: 0,
        },
    }
}

/// The packed semi-planar readback: `height` rows of `width` luma bytes,
/// then `height / 2` rows of `width` interleaved chroma bytes, each read
/// from a source buffer whose rows are `row_pitch` bytes apart and whose
/// chroma plane starts at row `height`.
pub open spec fn spec_nv12_luma_byte(
    mapped: Seq<u8>,
    width: int,
    row_pitch: int,
    j: int,
) -> u8 {
    mapped[(j / width) * row_pitch + j % width]
}

pub open spec fn spec_nv12_chroma_byte(
    mapped: Seq<u8>,
    width: int,
    height: int,
    row_pitch: int,
    j: int,
) -> u8 {
    mapped[row_pitch * height + (j / width) * row_pitch + j % width]
}

/// Packs the mapped readback of the staging texture into the contiguous
/// semi-planar layout the encoder consumes: the luma plane row by row, then
/// the interleaved chroma plane row by row.
pub fn pack_nv12(mapped: &[u8], width: usize, height: usize, row_pitch: usize) -> (r: Vec<u8>)
    requires
        1 <= width <= row_pitch,
        row_pitch * (height + height / 2) <= mapped@.len(),
    ensures
        r@.len() == width * height + width * (height / 2),
        forall|j: int|
            0 <= j < width * height ==> #[trigger] r@[j] == spec_nv12_luma_byte(
                mapped@,
                width as int,
                row_pitch as int,
                j,
            ),
        forall|j: int|
            width * height <= j < r@.len() ==> #[trigger] r@[j] == spec_nv12_chroma_byte(
                mapped@,
                width as int,
                height as int,
                row_pitch as int,
                j - width * height,
            ),
{
    let total_len = mapped.len();
    let mut out: Vec<u8> = Vec::new();
    let uv_rows = height / 2;
    let mut row: usize = 0;
    while row < height
        invariant
            0 <= row <= height,
            1 <= width <= row_pitch,
            row_pitch * (height + height / 2) <= mapped@.len(),
            mapped@.len() <= usize::MAX,
            out@.len() == row * width,
            forall|j: int|
                0 <= j < out@.len() ==> #[trigger] out@[j] == spec_nv12_luma_byte(
                    mapped@,
                    width as int,
                    row_pitch as int,
                    j,
                ),
        decreases height - row,
    {
        let mut i: usize = 0;
        while i < width
            invariant
                0 <= i <= width,
                0 <= row < height,
                1 <= width <= row_pitch,
                row_pitch * (height + height / 2) <= mapped@.len(),
                mapped@.len() <= usize::MAX,
                out@.len() == row * width + i,
                forall|j: int|
                    0 <= j < out@.len() ==> #[trigger] out@[j] == spec_nv12_luma_byte(
                        mapped@,
                        width as int,
                        row_pitch as int,
                        j,
                    ),
            decreases width - i,
        {
            proof {
                assert(row * row_pitch + i < row_pitch * (height + height / 2))
                    by (nonlinear_arith)
                    requires
                        0 <= row < height,
                        0 <= i < width,
                        width <= row_pitch,
                ;
                assert(row * width + i < usize::MAX) by (nonlinear_arith)
                    requires
                        0 <= row < height,
                        0 <= i < width,
                        width <= row_pitch,
                        row_pitch * (height + height / 2) <= usize::MAX,
                ;
                assert((row * width + i) / (width as int) == row && (row * width + i) % (
                width as int) == i) by (nonlinear_arith)
                    requires
                        0 <= i < width,
                        0 <= row,
                        width >= 1,
                ;
            }
            out.push(mapped[row * row_pitch + i]);
            i += 1;
        }
        proof {
            assert(row * width + width == (row + 1) * width) by (nonlinear_arith);
        }
        row += 1;
    }
    let ghost y_len = (width * height) as int;
    proof {
        assert(out@.len() == y_len) by (nonlinear_arith)
            requires
                out@.len() == height * width,
                y_len == width * height,
        ;
    }
    let mut row2: usize = 0;
    while row2 < uv_rows
        invariant
            0 <= row2 <= uv_rows,
            uv_rows == height / 2,
            1 <= width <= row_pitch,
            row_pitch * (height + height / 2) <= mapped@.len(),
            mapped@.len() <= usize::MAX,
            y_len == width * height,
            out@.len() == y_len + row2 * width,
            forall|j: int|
                0 <= j < y_len ==> #[trigger] out@[j] == spec_nv12_luma_byte(
                    mapped@,
                    width as int,
                    row_pitch as int,
                    j,
                ),
            forall|j: int|
                y_len <= j < out@.len() ==> #[trigger] out@[j] == spec_nv12_chroma_byte(
                    mapped@,
                    width as int,
                    height as int,
                    row_pitch as int,
                    j - y_len,
                ),
        decreases uv_rows - row2,
    {
        let mut i: usize = 0;
        while i < width
            invariant
                0 <= i <= width,
                0 <= row2 < uv_rows,
                uv_rows == height / 2,
                1 <= width <= row_pitch,
                row_pitch * (height + height / 2) <= mapped@.len(),
                mapped@.len() <= usize::MAX,
                y_len == width * height,
                out@.len() == y_len + row2 * width + i,
                forall|j: int|
                    0 <= j < y_len ==> #[trigger] out@[j] == spec_nv12_luma_byte(
                        mapped@,
                        width as int,
                        row_pitch as int,
                        j,
                    ),
                forall|j: int|
                    y_len <= j < out@.len() ==> #[trigger] out@[j] == spec_nv12_chroma_byte(
                        mapped@,
                        width as int,
                        height as int,
                        row_pitch as int,
                        j - y_len,
                    ),
            decreases width - i,
        {
            proof {
                assert(row_pitch * height + row2 * row_pitch + i < row_pitch * (height + height
                    / 2)) by (nonlinear_arith)
                    requires
                        0 <= row2 < height / 2,
                        0 <= i < width,
                        width <= row_pitch,
                ;
                assert(y_len + row2 * width + i < usize::MAX) by (nonlinear_arith)
                    requires
                        y_len == width * height,
                        0 <= row2 < height / 2,
                        0 <= i < width,
                        width <= row_pitch,
                        row_pitch * (height + height / 2) <= usize::MAX,
                ;
                assert((row2 * width + i) / (width as int) == row2 && (row2 * width + i) % (
                width as int) == i) by (nonlinear_arith)
                    requires
                        0 <= i < width,
                        0 <= row2,
                        width >= 1,
                ;
            }
            out.push(mapped[row_pitch * height + row2 * row_pitch + i]);
            i += 1;
        }
        proof {
            assert(row2 * width + width == (row2 + 1) * width) by (nonlinear_arith);
        }
        row2 += 1;
    }
    proof {
        assert(out@.len() == width * height + width * (height / 2)) by (nonlinear_arith)
            requires
                out@.len() == y_len + (height / 2) * width,
                y_len == width * height,
        ;
    }
    out
}

} // verus!
