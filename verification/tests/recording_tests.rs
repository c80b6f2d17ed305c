use kiss3d::recording::{
    EncoderSettings, Recording, RecordingConfig, VideoCodec, VideoSettings, PIX_FMT_YUV420P,
};

#[test]
fn recording_config_defaults() {
    assert_eq!(RecordingConfig::new().frame_skip, 1);
    assert_eq!(RecordingConfig::default(), RecordingConfig::new());
    assert_eq!(RecordingConfig::new().with_frame_skip(3).frame_skip, 3);
    assert_eq!(RecordingConfig::new().with_frame_skip(0).frame_skip, 1);
}

#[test]
fn capture_every_other_frame() {
    let mut r = Recording::new();
    assert!(!r.is_recording());
    assert!(!r.should_capture_frame());
    r.begin_recording_with_config(4, 2, RecordingConfig::new().with_frame_skip(2));
    assert!(r.is_recording());
    let captured: Vec<bool> = (0..5).map(|_| r.should_capture_frame()).collect();
    assert_eq!(captured, vec![true, false, true, false, true]);
}

#[test]
fn paused_frames_are_not_captured_nor_counted() {
    let mut r = Recording::new();
    r.begin_recording(2, 2);
    r.pause_recording();
    assert!(r.is_recording_paused());
    assert!(!r.should_capture_frame());
    r.resume_recording();
    assert!(!r.is_recording_paused());
    assert!(r.should_capture_frame());
}

#[test]
fn finish_without_recording_is_an_error() {
    let mut r = Recording::new();
    assert_eq!(r.finish_recording().err().unwrap(), "No recording in progress");
}

#[test]
fn finish_without_frames_is_an_error_and_stops() {
    let mut r = Recording::new();
    r.begin_recording(2, 2);
    assert_eq!(r.finish_recording().err().unwrap(), "No frames were recorded");
    assert!(!r.is_recording());
}

#[test]
fn finish_hands_over_frames_and_follows_resize() {
    let mut r = Recording::new();
    r.begin_recording(2, 2);
    r.push_captured_frame(vec![1, 2, 3], 2, 2);
    r.push_captured_frame(vec![4, 5, 6], 4, 6);
    let s = r.finish_recording().ok().unwrap();
    assert_eq!(s.frames, vec![vec![1, 2, 3], vec![4, 5, 6]]);
    assert_eq!((s.width, s.height), (4, 6));
    assert!(!r.is_recording());
}

#[test]
fn video_settings_defaults_and_even_size() {
    let v = VideoSettings::new(641, 480);
    assert_eq!((v.width, v.height), (642, 480));
    assert_eq!(v.bit_rate, 400000);
    assert_eq!(v.time_base, (1, 60));
    assert_eq!(v.gop_size, 10);
    assert_eq!(v.max_b_frames, 1);
    assert_eq!(v.pix_fmt, PIX_FMT_YUV420P);
    let w = VideoSettings::new_with_params(3, 5, Some(1000), Some((1, 25)), Some(12), Some(0), Some(7));
    assert_eq!((w.width, w.height), (4, 6));
    assert_eq!(w.bit_rate, 1000);
    assert_eq!(w.time_base, (1, 25));
    assert_eq!(w.gop_size, 12);
    assert_eq!(w.max_b_frames, 0);
    assert_eq!(w.pix_fmt, 7);
}

#[test]
fn encoder_settings_defaults() {
    let e = EncoderSettings::new(3, 4);
    assert_eq!(e.codec, VideoCodec::H264);
    assert_eq!(e.video.time_base, (1, 25));
    assert_eq!((e.video.width, e.video.height), (4, 4));
    let f = EncoderSettings::new_with_params(8, 8, Some(VideoCodec::Id(5)), None, Some((1, 30)), None, None, None);
    assert_eq!(f.codec, VideoCodec::Id(5));
    assert_eq!(f.video.time_base, (1, 30));
    assert_eq!(f.video.bit_rate, 400000);
}

#[test]
fn frame_counting_is_allowed_until_the_counter_is_full() {
    let mut r = Recording::new();
    assert!(r.can_count_frame());
    r.begin_recording(4, 4);
    assert!(r.can_count_frame());
    r.begin_recording_with_config(4, 4, RecordingConfig { frame_skip: 0 });
    assert!(!r.can_count_frame());
    r.pause_recording();
    assert!(!r.can_count_frame());
}
