use streamcore::encoder::{
    clamp_settings, encoder_config, encoder_options, EncoderConfig, EncodingSettings,
    SettingsRequest, VideoCodec,
};
use streamcore::session::apply_encoding_settings;

#[test]
fn codec_names_round() {
    assert_eq!(VideoCodec::from_client_name("av1"), Some(VideoCodec::Av1));
    assert_eq!(VideoCodec::from_client_name("avc"), Some(VideoCodec::Avc));
    assert_eq!(VideoCodec::from_client_name("h264"), Some(VideoCodec::Avc));
    assert_eq!(VideoCodec::from_client_name("hevc"), Some(VideoCodec::Hevc));
    assert_eq!(VideoCodec::from_client_name("h265"), Some(VideoCodec::Hevc));
    assert_eq!(VideoCodec::from_client_name("vp9"), None);
    assert_eq!(VideoCodec::from_client_name(""), None);
    // The name is trimmed and ASCII-case-folded before matching.
    assert_eq!(VideoCodec::from_client_name("AV1"), Some(VideoCodec::Av1));
    assert_eq!(VideoCodec::from_client_name(" h264 "), Some(VideoCodec::Avc));
    assert_eq!(VideoCodec::from_client_name("\tHeVc\n"), Some(VideoCodec::Hevc));
    assert_eq!(VideoCodec::from_client_name("\u{3000}H265\u{2028}"), Some(VideoCodec::Hevc));
    assert_eq!(VideoCodec::from_client_name("a v1"), None);
    assert_eq!(VideoCodec::from_client_name("   "), None);
    assert_eq!(VideoCodec::Av1.as_client_name(), "av1");
    assert_eq!(VideoCodec::Avc.as_client_name(), "avc");
    assert_eq!(VideoCodec::Hevc.as_client_name(), "hevc");
    assert_eq!(VideoCodec::Av1.display_name(), "AV1");
    assert_eq!(VideoCodec::Avc.display_name(), "AVC");
    assert_eq!(VideoCodec::Hevc.display_name(), "HEVC");
    assert_eq!(VideoCodec::Av1.ffmpeg_encoder_name(), "av1_amf");
    assert_eq!(VideoCodec::Avc.ffmpeg_encoder_name(), "h264_amf");
    assert_eq!(VideoCodec::Hevc.ffmpeg_encoder_name(), "hevc_amf");
}

#[test]
fn defaults() {
    let s = EncodingSettings::default();
    assert_eq!(s.codec, VideoCodec::Av1);
    assert_eq!(s.fps, 60);
    assert_eq!(s.bitrate, 20_000_000);
    assert_eq!(s.keyframe_interval_secs, 2);
    let c = EncoderConfig::default();
    assert_eq!((c.width, c.height, c.fps, c.bitrate, c.keyframe_interval), (1920, 1080, 60, 10_000_000, 2));
}

#[test]
fn settings_clamp_low_values() {
    let current = EncodingSettings::default();
    let req = SettingsRequest { fps: 5, bitrate: 1, keyframe_interval: 0, codec: None };
    let clamped = clamp_settings(&current, &req);
    assert_eq!(clamped.fps, 24);
    assert_eq!(clamped.bitrate, 2_000_000);
    assert_eq!(clamped.keyframe_interval_secs, 1);
    assert_eq!(clamped.codec, VideoCodec::Av1);
}

#[test]
fn settings_clamp_high_values() {
    let current = EncodingSettings::default();
    let req = SettingsRequest {
        fps: 500,
        bitrate: u32::MAX,
        keyframe_interval: 99,
        codec: Some("h265".to_string()),
    };
    let clamped = clamp_settings(&current, &req);
    assert_eq!(clamped.fps, 120);
    assert_eq!(clamped.bitrate, 80_000_000);
    assert_eq!(clamped.keyframe_interval_secs, 10);
    assert_eq!(clamped.codec, VideoCodec::Hevc);
}

#[test]
fn folded_codec_name_is_applied() {
    let current = EncodingSettings::default();
    let req = SettingsRequest {
        fps: 60,
        bitrate: 20_000_000,
        keyframe_interval: 2,
        codec: Some(" H264 ".to_string()),
    };
    let clamped = clamp_settings(&current, &req);
    assert_eq!(clamped.codec, VideoCodec::Avc);
}

#[test]
fn unknown_codec_keeps_current() {
    let mut current = EncodingSettings::default();
    current.codec = VideoCodec::Hevc;
    let req = SettingsRequest { fps: 60, bitrate: 20_000_000, keyframe_interval: 2, codec: Some("mpeg2".to_string()) };
    let clamped = clamp_settings(&current, &req);
    assert_eq!(clamped.codec, VideoCodec::Hevc);
}

#[test]
fn identical_post_clamp_values_skip_rebuild() {
    let current = EncodingSettings::default();
    let req = SettingsRequest { fps: 5, bitrate: 1, keyframe_interval: 0, codec: None };
    let first = apply_encoding_settings(&current, &req).expect("clamped values differ from defaults");
    assert_eq!(first.fps, 24);
    assert_eq!(first.bitrate, 2_000_000);
    assert_eq!(first.keyframe_interval_secs, 1);
    // The same request against the already-clamped settings is a no-op.
    assert_eq!(apply_encoding_settings(&first, &req), None);
}

#[test]
fn encoder_config_carries_session_settings() {
    let s = EncodingSettings { codec: VideoCodec::Avc, fps: 30, bitrate: 5_000_000, keyframe_interval_secs: 2 };
    let c = encoder_config(2560, 1440, s);
    assert_eq!(c.codec, VideoCodec::Avc);
    assert_eq!((c.width, c.height), (2560, 1440));
    assert_eq!(c.fps, 30);
    assert_eq!(c.bitrate, 5_000_000);
    assert_eq!(c.keyframe_interval, 2);
    assert_eq!(c.gop(), 60);
}

#[test]
fn encoder_options_per_codec() {
    let common: Vec<(&str, &str)> = vec![
        ("quality", "speed"),
        ("rc", "vbr_latency"),
        ("frame_skipping", "false"),
        ("preanalysis", "false"),
        ("preencode", "false"),
        ("filler_data", "false"),
        ("log_to_dbg", "false"),
    ];
    let av1 = encoder_options(VideoCodec::Av1);
    assert_eq!(&av1[..7], &common[..]);
    assert_eq!(&av1[7..], &[("usage", "lowlatency"), ("header_insertion_mode", "gop")]);
    let avc = encoder_options(VideoCodec::Avc);
    assert_eq!(
        &avc[7..],
        &[
            ("usage", "ultralowlatency"),
            ("vbaq", "false"),
            ("bf", "0"),
            ("forced_idr", "true"),
            ("header_spacing", "1"),
        ]
    );
    let hevc = encoder_options(VideoCodec::Hevc);
    assert_eq!(
        &hevc[7..],
        &[("usage", "ultralowlatency"), ("vbaq", "false"), ("header_insertion_mode", "gop")]
    );
}

#[test]
fn frame_clock_increments() {
    let mut clock = streamcore::encoder::FrameClock::new();
    assert_eq!(clock.stamp(), 0);
    assert_eq!(clock.stamp(), 1);
    assert_eq!(clock.stamp(), 2);
    assert_eq!(clock.next_pts, 3);
}
