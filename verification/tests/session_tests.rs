use streamcore::capture::MonitorInfo;
use streamcore::encoder::{EncodingSettings, VideoCodec};
use streamcore::input::{
    ActiveMonitor, InputInjector, MOUSEEVENTF_ABSOLUTE, MOUSEEVENTF_LEFTDOWN, MOUSEEVENTF_MOVE,
    MOUSEEVENTF_VIRTUALDESK, MOUSEEVENTF_WHEEL,
};
use streamcore::protocol::{FrameFlags, FrameHeader, FrameType, FLAG_END_OF_FRAME, FLAG_KEYFRAME};
use streamcore::session::{
    apply_encoding_settings, build_video_packet, capture_timeout_ms_for_fps, classify_recv,
    encoding_settings_state_packet, frame_interval_for_fps, handle_binary_control_message,
    monitor_list_packet, pace_sleep_micros, parse_monitor_index, resolve_active_monitor,
    DrainStep, PlannedInput, SessionState,
};

fn packet(frame_type: FrameType, payload: &[u8]) -> Vec<u8> {
    let header = FrameHeader {
        frame_type,
        flags: FrameFlags { bits: 0 },
        sequence: 0,
        pts: 0,
        payload_len: payload.len() as u32,
    };
    let mut p = header.to_bytes().to_vec();
    p.extend_from_slice(payload);
    p
}

fn monitors() -> Vec<MonitorInfo> {
    vec![
        MonitorInfo {
            index: 0,
            name: "Display 0".to_string(),
            left: 0,
            top: 0,
            width: 1920,
            height: 1080,
            primary: true,
        },
        MonitorInfo {
            index: 1,
            name: "Display 1".to_string(),
            left: 1920,
            top: 0,
            width: 2560,
            height: 1440,
            primary: false,
        },
    ]
}

fn injector() -> InputInjector {
    InputInjector::new(0, 0, 4480, 1440).unwrap()
}

fn run_handler(
    data: &[u8],
    force_keyframe: &mut bool,
    pending_monitor: &mut Option<u32>,
    pending_settings: &mut Option<streamcore::encoder::SettingsRequest>,
) -> PlannedInput {
    let inj = injector();
    let monitor = ActiveMonitor { left: 0, top: 0, width: 1920, height: 1080 };
    handle_binary_control_message(
        data,
        force_keyframe,
        pending_monitor,
        pending_settings,
        Some(&inj),
        monitor,
    )
}

#[test]
fn keyframe_request_sets_latch() {
    // Header: tag 0x02, everything else zero.
    let mut data = vec![0u8; 16];
    data[0] = 0x02;
    let mut kf = false;
    let mut pm = None;
    let mut ps = None;
    let planned = run_handler(&data, &mut kf, &mut pm, &mut ps);
    assert!(kf);
    assert_eq!(pm, None);
    assert_eq!(ps, None);
    assert_eq!(planned, PlannedInput::Nothing);
}

#[test]
fn monitor_select_records_deferred_index() {
    let data = packet(FrameType::MonitorSelect, br#"{"index": 1}"#);
    let mut kf = false;
    let mut pm = None;
    let mut ps = None;
    run_handler(&data, &mut kf, &mut pm, &mut ps);
    assert!(!kf);
    assert_eq!(pm, Some(1));
}

#[test]
fn malformed_monitor_select_is_dropped() {
    let data = packet(FrameType::MonitorSelect, br#"{"index": -3}"#);
    let mut kf = false;
    let mut pm = None;
    let mut ps = None;
    run_handler(&data, &mut kf, &mut pm, &mut ps);
    assert_eq!(pm, None);

    let data = packet(FrameType::MonitorSelect, b"not json");
    run_handler(&data, &mut kf, &mut pm, &mut ps);
    assert_eq!(pm, None);
}

#[test]
fn truncated_payload_is_dropped() {
    // Header declares more payload than the packet carries.
    let mut data = packet(FrameType::MonitorSelect, br#"{"index": 1}"#);
    data[10] = 200;
    let mut kf = false;
    let mut pm = None;
    let mut ps = None;
    run_handler(&data, &mut kf, &mut pm, &mut ps);
    assert_eq!(pm, None);
}

#[test]
fn short_packet_is_ignored() {
    let data = [0x02u8; 7];
    let mut kf = false;
    let mut pm = None;
    let mut ps = None;
    let planned = run_handler(&data, &mut kf, &mut pm, &mut ps);
    assert!(!kf);
    assert_eq!(planned, PlannedInput::Nothing);
}

#[test]
fn unknown_tag_changes_nothing() {
    let mut data = vec![0u8; 16];
    data[0] = 0x42;
    let mut kf = false;
    let mut pm = None;
    let mut ps = None;
    let planned = run_handler(&data, &mut kf, &mut pm, &mut ps);
    assert!(!kf);
    assert_eq!(pm, None);
    assert_eq!(ps, None);
    assert_eq!(planned, PlannedInput::Nothing);
}

#[test]
fn encoding_settings_payload_is_deferred() {
    let data = packet(
        FrameType::EncodingSettings,
        br#"{"fps": 30, "bitrate": 5000000, "keyframe_interval": 2, "codec": "h264"}"#,
    );
    let mut kf = false;
    let mut pm = None;
    let mut ps = None;
    run_handler(&data, &mut kf, &mut pm, &mut ps);
    let req = ps.expect("settings payload parses");
    assert_eq!(req.fps, 30);
    assert_eq!(req.bitrate, 5_000_000);
    assert_eq!(req.keyframe_interval, 2);
    assert_eq!(req.codec.as_deref(), Some("h264"));
}

#[test]
fn settings_change_echoes_clamped_values_and_forces_keyframe() {
    let mons = monitors();
    let mut state = SessionState::new(&mons, 1920, 1080);
    assert!(state.take_force_keyframe());
    assert!(!state.take_force_keyframe());

    let data = packet(
        FrameType::EncodingSettings,
        br#"{"fps": 5, "bitrate": 1, "keyframe_interval": 0}"#,
    );
    let inj = injector();
    handle_binary_control_message(
        &data,
        &mut state.force_keyframe,
        &mut state.pending_monitor_switch,
        &mut state.pending_encoding_settings,
        Some(&inj),
        state.active_monitor,
    );
    let req = state.take_pending_encoding_settings().unwrap();
    let next = apply_encoding_settings(&state.settings, &req).unwrap();
    assert_eq!(next.fps, 24);
    assert_eq!(next.bitrate, 2_000_000);
    assert_eq!(next.keyframe_interval_secs, 1);
    state.confirm_encoding_settings(next);
    assert!(state.force_keyframe);
    let echo = encoding_settings_state_packet(&state.settings);
    assert_eq!(echo[0], 0x06);
    let json = &echo[16..];
    assert_eq!(
        std::str::from_utf8(json).unwrap(),
        r#"{"fps":24,"bitrate":2000000,"keyframe_interval":1,"codec":"av1"}"#
    );
}

#[test]
fn monitor_switch_updates_geometry_and_forces_keyframe() {
    let mons = monitors();
    let mut state = SessionState::new(&mons, 1920, 1080);
    state.take_force_keyframe();
    assert_eq!(state.active_monitor.left, 0);

    let data = packet(FrameType::MonitorSelect, br#"{"index": 1}"#);
    let inj = injector();
    handle_binary_control_message(
        &data,
        &mut state.force_keyframe,
        &mut state.pending_monitor_switch,
        &mut state.pending_encoding_settings,
        Some(&inj),
        state.active_monitor,
    );
    let new_index = state.take_pending_monitor_switch().unwrap();
    assert_eq!(new_index, 1);
    assert!(state.switch_monitor_needed(new_index));
    state.confirm_monitor_switch(new_index, 2560, 1440, &mons);
    assert_eq!(state.current_monitor_index, 1);
    assert!(state.force_keyframe);
    assert_eq!(state.active_monitor.left, 1920);
    assert_eq!(state.active_monitor.width, 2560);
    assert_eq!(state.active_monitor.height, 1440);
    // Selecting the current monitor again is a no-op.
    assert!(!state.switch_monitor_needed(1));
}

#[test]
fn mouse_move_plans_absolute_move() {
    // Monitor at origin, 1920x1080; virtual desktop 4480x1440.
    let data = packet(FrameType::MouseInput, br#"{"kind": "move", "x": 0.5, "y": 0.5}"#);
    let mut kf = false;
    let mut pm = None;
    let mut ps = None;
    let planned = run_handler(&data, &mut kf, &mut pm, &mut ps);
    let recs = match planned {
        PlannedInput::Mouse(recs) => recs,
        other => panic!("expected mouse plan, got {other:?}"),
    };
    assert_eq!(recs.len(), 1);
    let rec = recs[0];
    assert_eq!(rec.flags, MOUSEEVENTF_MOVE | MOUSEEVENTF_ABSOLUTE | MOUSEEVENTF_VIRTUALDESK);
    // Desktop pixel: (round(0.5 * 1919), round(0.5 * 1079)) = (960, 540).
    // 16-bit scale: 960 * 65535 / 4479 and 540 * 65535 / 1439.
    assert_eq!(rec.dx, (960i64 * 65535 / 4479) as i32);
    assert_eq!(rec.dy, (540i64 * 65535 / 1439) as i32);
}

#[test]
fn mouse_button_plans_move_then_button() {
    let data = packet(
        FrameType::MouseInput,
        br#"{"kind": "button", "x": 0.0, "y": 0.0, "button": 0, "down": true}"#,
    );
    let mut kf = false;
    let mut pm = None;
    let mut ps = None;
    let planned = run_handler(&data, &mut kf, &mut pm, &mut ps);
    let recs = match planned {
        PlannedInput::Mouse(recs) => recs,
        other => panic!("expected mouse plan, got {other:?}"),
    };
    assert_eq!(recs.len(), 2);
    assert_eq!(recs[0].flags, MOUSEEVENTF_MOVE | MOUSEEVENTF_ABSOLUTE | MOUSEEVENTF_VIRTUALDESK);
    assert_eq!(recs[1].flags, MOUSEEVENTF_LEFTDOWN);
    assert_eq!(recs[1].mouse_data, 0);
}

#[test]
fn mouse_wheel_plans_move_then_wheel() {
    let data = packet(
        FrameType::MouseInput,
        br#"{"kind": "wheel", "x": 0.5, "y": 0.5, "delta_x": 0, "delta_y": -120}"#,
    );
    let mut kf = false;
    let mut pm = None;
    let mut ps = None;
    let planned = run_handler(&data, &mut kf, &mut pm, &mut ps);
    let recs = match planned {
        PlannedInput::Mouse(recs) => recs,
        other => panic!("expected mouse plan, got {other:?}"),
    };
    assert_eq!(recs.len(), 2);
    assert_eq!(recs[1].flags, MOUSEEVENTF_WHEEL);
    assert_eq!(recs[1].mouse_data, (-120i32) as u32);
}

#[test]
fn unknown_mouse_button_plans_nothing() {
    let data = packet(
        FrameType::MouseInput,
        br#"{"kind": "button", "x": 0.0, "y": 0.0, "button": 9, "down": true}"#,
    );
    let mut kf = false;
    let mut pm = None;
    let mut ps = None;
    let planned = run_handler(&data, &mut kf, &mut pm, &mut ps);
    match planned {
        PlannedInput::Mouse(recs) => assert!(recs.is_empty()),
        other => panic!("expected empty mouse plan, got {other:?}"),
    }
}

#[test]
fn keyboard_input_plans_key_event() {
    let data = packet(FrameType::KeyboardInput, br#"{"key_code": 65, "down": true}"#);
    let mut kf = false;
    let mut pm = None;
    let mut ps = None;
    let planned = run_handler(&data, &mut kf, &mut pm, &mut ps);
    match planned {
        PlannedInput::Key(rec) => {
            assert_eq!(rec.virtual_key, 65);
            assert!(!rec.key_up);
        },
        other => panic!("expected key plan, got {other:?}"),
    }
}

#[test]
fn keyboard_modifier_side_resolves() {
    let data = packet(
        FrameType::KeyboardInput,
        br#"{"key_code": 16, "down": false, "code": "ShiftRight"}"#,
    );
    let mut kf = false;
    let mut pm = None;
    let mut ps = None;
    let planned = run_handler(&data, &mut kf, &mut pm, &mut ps);
    match planned {
        PlannedInput::Key(rec) => {
            assert_eq!(rec.virtual_key, 0xA1);
            assert!(rec.key_up);
        },
        other => panic!("expected key plan, got {other:?}"),
    }
}

#[test]
fn keyboard_key_code_zero_is_no_op() {
    let data = packet(FrameType::KeyboardInput, br#"{"key_code": 0, "down": true}"#);
    let mut kf = false;
    let mut pm = None;
    let mut ps = None;
    let planned = run_handler(&data, &mut kf, &mut pm, &mut ps);
    assert_eq!(planned, PlannedInput::Nothing);
}

#[test]
fn parse_monitor_index_reads_whole_packet() {
    let data = packet(FrameType::MonitorSelect, br#"{"index": 3}"#);
    assert_eq!(parse_monitor_index(&data, (data.len() - 16) as u32), Some(3));
    assert_eq!(parse_monitor_index(&data, 1000), None);
}

#[test]
fn video_packet_flags_and_sequence() {
    let mons = monitors();
    let mut state = SessionState::new(&mons, 1920, 1080);
    let p0 = state.next_video_packet(&[1, 2, 3], 0, true);
    let p1 = state.next_video_packet(&[4, 5], 1, false);
    let h0 = FrameHeader::from_bytes(&p0[..16].try_into().unwrap()).unwrap();
    let h1 = FrameHeader::from_bytes(&p1[..16].try_into().unwrap()).unwrap();
    assert_eq!(h0.frame_type, FrameType::VideoFrame);
    assert_eq!(h0.sequence, 0);
    assert_eq!(h1.sequence, 1);
    assert!(h0.flags.end_of_frame());
    assert!(h1.flags.end_of_frame());
    assert!(h0.flags.keyframe());
    assert!(!h1.flags.keyframe());
    assert_eq!(h0.payload_len, 3);
    assert_eq!(&p0[16..], &[1, 2, 3]);
}

#[test]
fn sequence_wraps_at_32_bits() {
    let mons = monitors();
    let mut state = SessionState::new(&mons, 1920, 1080);
    state.frame_seq = u32::MAX;
    let p = state.next_video_packet(&[0], 7, false);
    let h = FrameHeader::from_bytes(&p[..16].try_into().unwrap()).unwrap();
    assert_eq!(h.sequence, u32::MAX);
    assert_eq!(state.frame_seq, 0);
}

#[test]
fn build_video_packet_sets_end_of_frame() {
    let p = build_video_packet(&[9, 9], 5, 6, false);
    assert_eq!(p[0], 0x01);
    assert_eq!(p[1], FLAG_END_OF_FRAME);
    let p = build_video_packet(&[9, 9], 5, 6, true);
    assert_eq!(p[1], FLAG_END_OF_FRAME | FLAG_KEYFRAME);
}

#[test]
fn first_two_packets_are_monitor_list_then_settings() {
    let mons = monitors();
    let list_json = streamcore::json::monitor_list_json(&mons);
    let first = monitor_list_packet(&list_json);
    let second = encoding_settings_state_packet(&EncodingSettings::default());
    assert_eq!(first[0], 0x04);
    assert_eq!(second[0], 0x06);
    let h = FrameHeader::from_bytes(&first[..16].try_into().unwrap()).unwrap();
    assert_eq!(h.payload_len as usize, list_json.len());
    assert_eq!(&first[16..], &list_json[..]);
}

#[test]
fn resolve_active_monitor_falls_back_to_capture_size() {
    let mons = monitors();
    let m = resolve_active_monitor(&mons, 1, 640, 480);
    assert_eq!((m.left, m.top, m.width, m.height), (1920, 0, 2560, 1440));
    let fb = resolve_active_monitor(&mons, 7, 640, 480);
    assert_eq!((fb.left, fb.top, fb.width, fb.height), (0, 0, 640, 480));
}

#[test]
fn recv_outcomes_classify() {
    assert_eq!(classify_recv(&Ok(Some(vec![1]))), DrainStep::Deliver);
    assert_eq!(classify_recv(&Ok(None)), DrainStep::Alive);
    assert_eq!(classify_recv(&Err("closed".to_string())), DrainStep::Closed);
}

#[test]
fn pacing_arithmetic() {
    assert_eq!(frame_interval_for_fps(60), 16_666);
    assert_eq!(frame_interval_for_fps(30), 33_333);
    assert_eq!(capture_timeout_ms_for_fps(60), 18);
    assert_eq!(capture_timeout_ms_for_fps(24), 43);
    assert_eq!(pace_sleep_micros(0, 16_666), 15_166);
    assert_eq!(pace_sleep_micros(16_000, 16_666), 0);
    assert_eq!(pace_sleep_micros(20_000, 16_666), 0);
    assert_eq!(pace_sleep_micros(1_000, 16_666), 14_166);
}

#[test]
fn session_starts_with_defaults_and_forced_keyframe() {
    let mons = monitors();
    let state = SessionState::new(&mons, 1920, 1080);
    assert!(state.force_keyframe);
    assert_eq!(state.frame_seq, 0);
    assert_eq!(state.current_monitor_index, 0);
    assert_eq!(state.settings.codec, VideoCodec::Av1);
    assert_eq!(state.pending_monitor_switch, None);
    assert!(state.pending_encoding_settings.is_none());
}

#[test]
fn stats_window_accounts_frames() {
    let mut w = streamcore::session::StatsWindow::new();
    assert_eq!(w.mean_encode_time_us(), 0);
    w.record(3000);
    w.record(1000);
    assert_eq!(w.frames_encoded, 2);
    assert_eq!(w.total_encode_time_us, 4000);
    assert_eq!(w.mean_encode_time_us(), 2000);
    assert!(!w.should_report(4_999_999));
    assert!(w.should_report(5_000_000));
    w.reset();
    assert_eq!(w.frames_encoded, 0);
    assert_eq!(w.mean_encode_time_us(), 0);
}

#[test]
fn capture_loss_rebuilds_once_then_closes() {
    let mons = monitors();
    let mut state = SessionState::new(&mons, 1920, 1080);
    assert_eq!(state.on_capture_failure(), streamcore::session::CaptureRecovery::Rebuild);
    assert_eq!(state.on_capture_failure(), streamcore::session::CaptureRecovery::CloseSession);
    state.on_capture_recovered();
    assert_eq!(state.on_capture_failure(), streamcore::session::CaptureRecovery::Rebuild);
}

#[test]
fn settings_payload_with_null_codec_keeps_current() {
    let data = packet(
        FrameType::EncodingSettings,
        br#"{"fps": 48, "bitrate": 9000000, "keyframe_interval": 3, "codec": null}"#,
    );
    let mut kf = false;
    let mut pm = None;
    let mut ps = None;
    run_handler(&data, &mut kf, &mut pm, &mut ps);
    let req = ps.expect("null codec still parses");
    assert_eq!(req.codec, None);
    let current = EncodingSettings::default();
    let next = apply_encoding_settings(&current, &req).unwrap();
    assert_eq!(next.codec, VideoCodec::Av1);
    assert_eq!(next.fps, 48);
}
