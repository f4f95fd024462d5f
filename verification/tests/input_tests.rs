use streamcore::input::{
    map_virtual_key, mouse_button_flags, norm_micro_from_f64_bits, to_desktop_point,
    to_sendinput_absolute, ActiveMonitor, InputInjector, MOUSEEVENTF_ABSOLUTE, MOUSEEVENTF_HWHEEL,
    MOUSEEVENTF_LEFTDOWN, MOUSEEVENTF_LEFTUP, MOUSEEVENTF_MIDDLEDOWN, MOUSEEVENTF_MIDDLEUP,
    MOUSEEVENTF_MOVE, MOUSEEVENTF_RIGHTDOWN, MOUSEEVENTF_RIGHTUP, MOUSEEVENTF_VIRTUALDESK,
    MOUSEEVENTF_WHEEL, MOUSEEVENTF_XDOWN, MOUSEEVENTF_XUP, VK_LCONTROL, VK_LMENU, VK_LSHIFT,
    VK_LWIN, VK_RCONTROL, VK_RMENU, VK_RSHIFT, VK_RWIN, XBUTTON1_DATA, XBUTTON2_DATA,
};

#[test]
fn float_bits_decode_to_micro_units() {
    assert_eq!(norm_micro_from_f64_bits(0.5f64.to_bits()), 500_000);
    assert_eq!(norm_micro_from_f64_bits(0.25f64.to_bits()), 250_000);
    assert_eq!(norm_micro_from_f64_bits(0.0f64.to_bits()), 0);
    assert_eq!(norm_micro_from_f64_bits(1.0f64.to_bits()), 1_000_000);
    assert_eq!(norm_micro_from_f64_bits((-0.3f64).to_bits()), 0);
    assert_eq!(norm_micro_from_f64_bits(2.5f64.to_bits()), 1_000_000);
    assert_eq!(norm_micro_from_f64_bits(f64::INFINITY.to_bits()), 1_000_000);
    assert_eq!(norm_micro_from_f64_bits(f64::NEG_INFINITY.to_bits()), 0);
    assert_eq!(norm_micro_from_f64_bits(f64::NAN.to_bits()), 0);
    assert_eq!(norm_micro_from_f64_bits(f64::MIN_POSITIVE.to_bits()), 0);
    assert_eq!(norm_micro_from_f64_bits(5e-324f64.to_bits()), 0);
    // Exact rounding across the scale.
    for (value, micro) in [
        (0.1f64, 100_000u32),
        (0.123456f64, 123_456),
        (0.9999994f64, 999_999),
        (0.9999996f64, 1_000_000),
        (0.0000004f64, 0),
        (0.0000006f64, 1),
    ] {
        assert_eq!(norm_micro_from_f64_bits(value.to_bits()), micro, "value {value}");
    }
    // The decode agrees with float arithmetic on a spread of values.
    for i in 0..1000u32 {
        let v = (i as f64) / 999.0;
        let expected = (v.clamp(0.0, 1.0) * 1_000_000.0).round() as u32;
        assert_eq!(norm_micro_from_f64_bits(v.to_bits()), expected, "value {v}");
    }
}

#[test]
fn coordinate_mapping_center_of_monitor() {
    // A monitor at (left, top) = (100, 50), 1920x1080.
    let monitor = ActiveMonitor { left: 100, top: 50, width: 1920, height: 1080 };
    let (x, y) = to_desktop_point(monitor, 500_000, 500_000);
    assert_eq!(x, 100 + (0.5f64 * 1919.0).round() as i32);
    assert_eq!(y, 50 + (0.5f64 * 1079.0).round() as i32);
    assert_eq!((x, y), (1060, 590));
}

#[test]
fn coordinate_mapping_corners_and_clamping() {
    let monitor = ActiveMonitor { left: -1920, top: 0, width: 1920, height: 1080 };
    assert_eq!(to_desktop_point(monitor, 0, 0), (-1920, 0));
    assert_eq!(to_desktop_point(monitor, 1_000_000, 1_000_000), (-1, 1079));
    // Out-of-range coordinates clamp to the monitor edge.
    assert_eq!(to_desktop_point(monitor, 2_000_000, 2_000_000), (-1, 1079));
}

#[test]
fn degenerate_monitor_maps_to_origin() {
    let monitor = ActiveMonitor { left: 7, top: 9, width: 0, height: 0 };
    assert_eq!(to_desktop_point(monitor, 500_000, 900_000), (7, 9));
}

#[test]
fn sendinput_absolute_scale() {
    assert_eq!(to_sendinput_absolute(0, 0, 65536), 0);
    assert_eq!(to_sendinput_absolute(65535, 0, 65536), 65535);
    assert_eq!(to_sendinput_absolute(960, 0, 1920), 960 * 65535 / 1919);
    // Points outside the virtual desktop clamp to the axis ends.
    assert_eq!(to_sendinput_absolute(-10, 0, 1920), 0);
    assert_eq!(to_sendinput_absolute(5000, 0, 1920), 65535);
    // A degenerate virtual desktop maps everything to zero.
    assert_eq!(to_sendinput_absolute(500, 0, 1), 0);
    assert_eq!(to_sendinput_absolute(500, 0, 0), 0);
    // A negative origin shifts the scale.
    assert_eq!(to_sendinput_absolute(0, -1920, 3840), 1920 * 65535 / 3839);
}

#[test]
fn button_flags_table() {
    assert_eq!(mouse_button_flags(0, true), Some((MOUSEEVENTF_LEFTDOWN, 0)));
    assert_eq!(mouse_button_flags(0, false), Some((MOUSEEVENTF_LEFTUP, 0)));
    assert_eq!(mouse_button_flags(1, true), Some((MOUSEEVENTF_MIDDLEDOWN, 0)));
    assert_eq!(mouse_button_flags(1, false), Some((MOUSEEVENTF_MIDDLEUP, 0)));
    assert_eq!(mouse_button_flags(2, true), Some((MOUSEEVENTF_RIGHTDOWN, 0)));
    assert_eq!(mouse_button_flags(2, false), Some((MOUSEEVENTF_RIGHTUP, 0)));
    assert_eq!(mouse_button_flags(3, true), Some((MOUSEEVENTF_XDOWN, XBUTTON1_DATA)));
    assert_eq!(mouse_button_flags(3, false), Some((MOUSEEVENTF_XUP, XBUTTON1_DATA)));
    assert_eq!(mouse_button_flags(4, true), Some((MOUSEEVENTF_XDOWN, XBUTTON2_DATA)));
    assert_eq!(mouse_button_flags(4, false), Some((MOUSEEVENTF_XUP, XBUTTON2_DATA)));
    assert_eq!(mouse_button_flags(5, true), None);
    assert_eq!(mouse_button_flags(255, false), None);
}

#[test]
fn virtual_key_modifier_sides() {
    assert_eq!(map_virtual_key(16, Some("ShiftLeft")), VK_LSHIFT);
    assert_eq!(map_virtual_key(16, Some("ShiftRight")), VK_RSHIFT);
    assert_eq!(map_virtual_key(17, Some("ControlLeft")), VK_LCONTROL);
    assert_eq!(map_virtual_key(17, Some("ControlRight")), VK_RCONTROL);
    assert_eq!(map_virtual_key(18, Some("AltLeft")), VK_LMENU);
    assert_eq!(map_virtual_key(18, Some("AltRight")), VK_RMENU);
    assert_eq!(map_virtual_key(91, Some("MetaLeft")), VK_LWIN);
    assert_eq!(map_virtual_key(92, Some("MetaRight")), VK_RWIN);
    assert_eq!(map_virtual_key(65, Some("KeyA")), 65);
    assert_eq!(map_virtual_key(65, None), 65);
}

#[test]
fn injector_rejects_degenerate_desktop() {
    assert!(InputInjector::new(0, 0, 0, 1080).is_err());
    assert!(InputInjector::new(0, 0, 1920, 0).is_err());
    assert!(InputInjector::new(0, 0, -1920, 1080).is_err());
    assert!(InputInjector::new(-100, -100, 1920, 1080).is_ok());
}

#[test]
fn move_plan_flags_and_scale() {
    let inj = InputInjector::new(0, 0, 1920, 1080).unwrap();
    let monitor = ActiveMonitor { left: 0, top: 0, width: 1920, height: 1080 };
    let rec = inj.move_mouse(monitor, 0, 0);
    assert_eq!(rec.flags, MOUSEEVENTF_MOVE | MOUSEEVENTF_ABSOLUTE | MOUSEEVENTF_VIRTUALDESK);
    assert_eq!((rec.dx, rec.dy), (0, 0));
    let rec = inj.move_mouse(monitor, 1_000_000, 1_000_000);
    assert_eq!((rec.dx, rec.dy), (65535, 65535));
}

#[test]
fn wheel_plan_axes() {
    let inj = InputInjector::new(0, 0, 1920, 1080).unwrap();
    let monitor = ActiveMonitor { left: 0, top: 0, width: 1920, height: 1080 };
    let recs = inj.mouse_wheel(monitor, 0, 0, -120, 120);
    assert_eq!(recs.len(), 3);
    assert_eq!(recs[1].flags, MOUSEEVENTF_WHEEL);
    assert_eq!(recs[1].mouse_data, 120);
    assert_eq!(recs[2].flags, MOUSEEVENTF_HWHEEL);
    assert_eq!(recs[2].mouse_data, (-120i32) as u32);
    // Zero deltas plan no wheel records.
    let recs = inj.mouse_wheel(monitor, 0, 0, 0, 0);
    assert_eq!(recs.len(), 1);
}

#[test]
fn keyboard_plan() {
    let inj = InputInjector::new(0, 0, 1920, 1080).unwrap();
    assert_eq!(inj.keyboard_key(0, None, true), None);
    let rec = inj.keyboard_key(65, None, true).unwrap();
    assert_eq!(rec.virtual_key, 65);
    assert!(!rec.key_up);
    let rec = inj.keyboard_key(16, Some("ShiftLeft"), false).unwrap();
    assert_eq!(rec.virtual_key, VK_LSHIFT);
    assert!(rec.key_up);
}
