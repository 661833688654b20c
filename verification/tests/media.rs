use video_compare::media::{
    channel_label, discover, nominal_kbps, short_codec, AudioStream, MediaInfo, Probe, VideoStream,
};

fn video(codec: &str) -> VideoStream {
    VideoStream {
        codec: Some(codec.to_string()),
        width: 1920,
        height: 1080,
        fps_numer: 24000,
        fps_denom: 1001,
        depth: 24,
        bitrate: 4_000_000,
        max_bitrate: 5_000_999,
    }
}

fn audio(codec: &str) -> AudioStream {
    AudioStream {
        codec: Some(codec.to_string()),
        sample_rate: 44_100,
        channels: 2,
        bitrate: 128_000,
        max_bitrate: 0,
    }
}

#[test]
fn codec_names_lose_their_annotations() {
    assert_eq!(short_codec("H.265 (Main)"), "H.265");
    assert_eq!(short_codec("H.264 / AVC (High Profile)"), "H.264 / AVC");
    assert_eq!(short_codec("VP9"), "VP9");
    assert_eq!(short_codec("(odd)"), "");
}

#[test]
fn the_maximum_rate_is_preferred() {
    assert_eq!(nominal_kbps(150_000, 192_000), Some("192 kb/s".to_string()));
    assert_eq!(nominal_kbps(150_999, 0), Some("150 kb/s".to_string()));
    assert_eq!(nominal_kbps(999, 0), Some("0 kb/s".to_string()));
    assert_eq!(nominal_kbps(0, 0), None);
}

#[test]
fn channel_counts_have_names() {
    assert_eq!(channel_label(1), "Mono");
    assert_eq!(channel_label(2), "Stereo");
    assert_eq!(channel_label(6), "5.1");
    assert_eq!(channel_label(8), "7.1");
    assert_eq!(channel_label(3), "3 ch");
    assert_eq!(channel_label(0), "0 ch");
}

#[test]
fn a_full_report_fills_every_field() {
    let info = discover(Some(Probe {
        container: Some("Matroska".to_string()),
        video: vec![video("H.264 (High)"), video("VP9")],
        audio: vec![audio("MPEG-4 AAC (LC)"), audio("Opus")],
        encoder: Some("x264".to_string()),
    }));
    assert_eq!(
        info,
        Some(MediaInfo {
            container: "Matroska".to_string(),
            video: "1920×1080  ·  23.976 fps  ·  24-bit  ·  5000 kb/s".to_string(),
            video_codec: "H.264".to_string(),
            audio: "44.1 kHz  ·  Stereo  ·  128 kb/s".to_string(),
            audio_codec: "MPEG-4 AAC".to_string(),
            encoder: "x264".to_string(),
        })
    );
}

#[test]
fn unknown_numbers_are_left_out() {
    let info = discover(Some(Probe {
        container: None,
        video: vec![VideoStream {
            codec: None,
            width: 640,
            height: 0,
            fps_numer: 0,
            fps_denom: 1,
            depth: 8,
            bitrate: 0,
            max_bitrate: 0,
        }],
        audio: vec![AudioStream {
            codec: None,
            sample_rate: 0,
            channels: 0,
            bitrate: 0,
            max_bitrate: 0,
        }],
        encoder: None,
    }))
    .unwrap();
    assert_eq!(info.video, "8-bit");
    assert_eq!(info.video_codec, "");
    assert_eq!(info.audio, "");
}

#[test]
fn a_silent_file_shows_no_audio() {
    let info = discover(Some(Probe {
        container: Some("Quicktime".to_string()),
        video: vec![video("H.264")],
        audio: vec![],
        encoder: None,
    }))
    .unwrap();
    assert_eq!(info.audio, "");
    assert_eq!(info.audio_codec, "");
    assert_eq!(info.container, "Quicktime");
    let info = discover(Some(Probe {
        container: None,
        video: vec![],
        audio: vec![audio("Opus")],
        encoder: None,
    }))
    .unwrap();
    assert_eq!(info.video, "");
    assert_eq!(info.video_codec, "");
    assert_eq!(info.audio_codec, "Opus");
}

#[test]
fn a_raw_stream_shows_no_container() {
    let raw = |container: &str| {
        discover(Some(Probe {
            container: Some(container.to_string()),
            video: vec![video("H.264 (Main)")],
            audio: vec![],
            encoder: None,
        }))
        .unwrap()
        .container
    };
    assert_eq!(raw("H.264"), "");
    assert_eq!(raw("H.26"), "");
    assert_eq!(raw("H.264 (Main)"), "");
    assert_eq!(raw("H.264 (High)"), "H.264 (High)");
    assert_eq!(raw("Matroska"), "Matroska");
}

#[test]
fn a_raw_stream_shows_its_codec() {
    let info = discover(Some(Probe {
        container: Some("H.265 (Main)".to_string()),
        video: vec![video("H.265 (Main)"), video("VP9")],
        audio: vec![],
        encoder: None,
    }))
    .unwrap();
    assert_eq!(info.video_codec, "H.265");
    assert_eq!(info.container, "");
    let bare = discover(Some(Probe {
        container: Some("H.265 (Main)".to_string()),
        video: vec![],
        audio: vec![],
        encoder: None,
    }))
    .unwrap();
    assert_eq!(bare.container, "H.265 (Main)");
}

#[test]
fn a_failed_probe_yields_nothing() {
    assert_eq!(discover(None), None);
}

#[test]
fn facts_are_empty_by_default_and_clone_whole() {
    let empty = MediaInfo::default();
    assert_eq!(empty.container, "");
    assert_eq!(empty.encoder, "");
    let info = MediaInfo { video: "v".to_string(), encoder: "e".to_string(), ..empty };
    assert_eq!(info.clone(), info);
}
