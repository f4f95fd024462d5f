use streamcore::capture::{
    classify_cursor_shape, composite_constants, decode_monochrome_cursor, mono_composite,
    pack_nv12, physical_dimensions, rotate_src_for_dst, to_shader_rotation, xor_rgb, CursorKind,
    CursorState, MonitorInfo, ROTATION_180, ROTATION_270, ROTATION_90, ROTATION_IDENTITY,
};

#[test]
fn shader_rotation_codes() {
    assert_eq!(to_shader_rotation(1), ROTATION_IDENTITY);
    assert_eq!(to_shader_rotation(2), ROTATION_90);
    assert_eq!(to_shader_rotation(3), ROTATION_180);
    assert_eq!(to_shader_rotation(4), ROTATION_270);
    assert_eq!(to_shader_rotation(0), ROTATION_IDENTITY);
    assert_eq!(to_shader_rotation(-1), ROTATION_IDENTITY);
}

#[test]
fn physical_dimensions_prefer_mode_size() {
    assert_eq!(physical_dimensions(1080, 1920, ROTATION_90, 1920, 1080), (1080, 1920));
    assert_eq!(physical_dimensions(0, 0, ROTATION_90, 1920, 1080), (1080, 1920));
    assert_eq!(physical_dimensions(0, 0, ROTATION_270, 1920, 1080), (1080, 1920));
    assert_eq!(physical_dimensions(0, 0, ROTATION_180, 1920, 1080), (1920, 1080));
    assert_eq!(physical_dimensions(0, 0, ROTATION_IDENTITY, 1920, 1080), (1920, 1080));
}

#[test]
fn rotation_inverse_mapping() {
    // A 4x3 physical frame.
    assert_eq!(rotate_src_for_dst(ROTATION_IDENTITY, 1, 2, 4, 3), (1, 2));
    // Logical frame is 3x4 under 90 degrees: dst (0,0) reads src (0, h-1).
    assert_eq!(rotate_src_for_dst(ROTATION_90, 0, 0, 4, 3), (0, 2));
    assert_eq!(rotate_src_for_dst(ROTATION_90, 2, 3, 4, 3), (3, 0));
    assert_eq!(rotate_src_for_dst(ROTATION_180, 0, 0, 4, 3), (3, 2));
    assert_eq!(rotate_src_for_dst(ROTATION_270, 0, 0, 4, 3), (3, 0));
    assert_eq!(rotate_src_for_dst(ROTATION_270, 2, 3, 4, 3), (0, 2));
}

#[test]
fn monochrome_opcode_packing() {
    // Two stacked 1-bit planes, 8x1 pixels, pitch 1: AND plane 1000_0000, XOR plane 0100_0001.
    let buffer = [0b1000_0000u8, 0b0100_0001u8];
    let ops = decode_monochrome_cursor(&buffer, 8, 1, 1);
    assert_eq!(ops, vec![1, 2, 0, 0, 0, 0, 0, 2]);
    // Wider shape crossing a byte boundary: 16x2, pitch 2.
    let buffer = [
        0xFF, 0x00, // AND row 0
        0x0F, 0xF0, // AND row 1
        0x00, 0xFF, // XOR row 0
        0xF0, 0x0F, // XOR row 1
    ];
    let ops = decode_monochrome_cursor(&buffer, 16, 2, 2);
    assert_eq!(ops.len(), 32);
    assert_eq!(&ops[0..8], &[1, 1, 1, 1, 1, 1, 1, 1]);
    assert_eq!(&ops[8..16], &[2, 2, 2, 2, 2, 2, 2, 2]);
    assert_eq!(&ops[16..24], &[2, 2, 2, 2, 1, 1, 1, 1]);
    assert_eq!(&ops[24..32], &[1, 1, 1, 1, 2, 2, 2, 2]);
}

#[test]
fn monochrome_composite_rules() {
    assert_eq!(mono_composite(0, 10, 20, 30), (0, 0, 0));
    assert_eq!(mono_composite(1, 10, 20, 30), (10, 20, 30));
    assert_eq!(mono_composite(2, 10, 20, 30), (255, 255, 255));
    assert_eq!(mono_composite(3, 10, 20, 30), (245, 235, 225));
}

#[test]
fn masked_color_xor_rule() {
    assert_eq!(xor_rgb(0xF0, 0x0F, 0xAA, 0xFF, 0xFF, 0xFF), (0x0F, 0xF0, 0x55));
}

#[test]
fn cursor_shape_classification() {
    let plan = classify_cursor_shape(2, 32, 32, 128, 4096).unwrap();
    assert_eq!(plan.kind, CursorKind::Color);
    assert_eq!((plan.width, plan.height, plan.required_bytes), (32, 32, 4096));
    let plan = classify_cursor_shape(4, 32, 32, 128, 4096).unwrap();
    assert_eq!(plan.kind, CursorKind::MaskedColor);
    // Monochrome: reported height covers both planes.
    let plan = classify_cursor_shape(1, 32, 64, 4, 256).unwrap();
    assert_eq!(plan.kind, CursorKind::Monochrome);
    assert_eq!((plan.width, plan.height), (32, 32));
    // Short buffers and unknown types are rejected.
    assert_eq!(classify_cursor_shape(2, 32, 32, 128, 4095), None);
    assert_eq!(classify_cursor_shape(1, 0, 64, 4, 256), None);
    assert_eq!(classify_cursor_shape(3, 32, 32, 128, 4096), None);
}

#[test]
fn hidden_cursor_composes_no_cursor_pixels() {
    let shape = CursorState { kind: CursorKind::Color, width: 32, height: 32, hotspot_x: 4, hotspot_y: 2 };
    let visible = composite_constants(1920, 1080, ROTATION_IDENTITY, Some(&shape), true, 100, 200);
    assert_eq!(visible.cursor_enabled, 1);
    assert_eq!(visible.cursor_kind, 1);
    assert_eq!((visible.cursor_left, visible.cursor_top), (96, 198));
    assert_eq!((visible.cursor_width, visible.cursor_height), (32, 32));

    let hidden = composite_constants(1920, 1080, ROTATION_IDENTITY, Some(&shape), false, 100, 200);
    assert_eq!(hidden.cursor_enabled, 0);
    assert_eq!(hidden.cursor_kind, 0);

    let no_shape = composite_constants(1920, 1080, ROTATION_IDENTITY, None, true, 100, 200);
    assert_eq!(no_shape.cursor_enabled, 0);
}

#[test]
fn nv12_packing_strips_row_pitch() {
    // 2x2 frame with a row pitch of 4: Y rows at 0 and 4, UV row at 8.
    let mapped = [
        1, 2, 99, 99, // Y row 0
        3, 4, 99, 99, // Y row 1
        5, 6, 99, 99, // UV row 0
    ];
    let packed = pack_nv12(&mapped, 2, 2, 4);
    assert_eq!(packed, vec![1, 2, 3, 4, 5, 6]);
}

#[test]
fn nv12_packing_contiguous_source() {
    let mapped = [10, 11, 12, 13, 14, 15];
    let packed = pack_nv12(&mapped, 2, 2, 2);
    assert_eq!(packed, vec![10, 11, 12, 13, 14, 15]);
}

#[test]
fn monitor_from_desktop_rect() {
    let m = MonitorInfo::from_desktop_rect(0, "A".to_string(), 0, 0, 1920, 1080);
    assert_eq!((m.width, m.height), (1920, 1080));
    assert!(m.primary);
    let m = MonitorInfo::from_desktop_rect(1, "B".to_string(), -2560, -100, 0, 1340);
    assert_eq!((m.left, m.top, m.width, m.height), (-2560, -100, 2560, 1440));
    assert!(!m.primary);
}
