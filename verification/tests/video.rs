use webrtc_camera_server::camera::{CameraCap, CameraDevice};
use webrtc_camera_server::launch::{build_pipeline, capture_encode_head, device_path_arg, TEE_NAME};
use webrtc_camera_server::selection::{caps_for, pick_default_config};
use webrtc_camera_server::video::{
    default_format, format_message, Platform, VideoConfig, VideoConfigError, VideoSource,
};

fn mode(width: i32, height: i32, framerate: u32) -> CameraCap {
    CameraCap { format: None, media: "image/jpeg".to_string(), width, height, framerate }
}

fn config(width: u32, height: u32, framerate: u32) -> VideoConfig {
    VideoConfig {
        width,
        height,
        framerate,
        bitrate_kbps: 6000,
        format: "I420".to_string(),
        device_id: None,
    }
}

fn camera(id: &str, caps: Vec<CameraCap>) -> CameraDevice {
    CameraDevice { id: id.to_string(), name: "cam".to_string(), api: "v4l2".to_string(), caps }
}

#[test]
fn defaults() {
    let linux = VideoConfig::default_for(Platform::Other);
    assert_eq!(linux, config(1920, 1080, 30));
    let windows = VideoConfig::default_for(Platform::Windows);
    assert_eq!(windows.format, "NV12");
    assert_eq!(default_format(Platform::Other), "I420");
    assert!(linux.validate(&[]).is_ok());
    assert!(windows.validate(&[]).is_ok());
}

#[test]
fn zero_sizes_are_refused() {
    assert_eq!(config(0, 1080, 30).validate(&[]), Err(VideoConfigError::ZeroSize));
    assert_eq!(config(1920, 0, 30).validate(&[]), Err(VideoConfigError::ZeroSize));
    assert_eq!(VideoConfigError::ZeroSize.message(), "width/height must be non-zero");
}

#[test]
fn framerates_out_of_bounds_are_refused() {
    assert_eq!(config(1, 1, 0).validate(&[]), Err(VideoConfigError::Framerate));
    assert_eq!(config(1, 1, 241).validate(&[]), Err(VideoConfigError::Framerate));
    assert!(config(1, 1, 240).validate(&[]).is_ok());
    assert!(config(1, 1, 1).validate(&[]).is_ok());
    assert_eq!(VideoConfigError::Framerate.message(), "framerate must be 1..=240");
}

#[test]
fn bitrates_out_of_bounds_are_refused() {
    let mut c = config(1, 1, 1);
    c.bitrate_kbps = 0;
    assert_eq!(c.validate(&[]), Err(VideoConfigError::Bitrate));
    c.bitrate_kbps = 100_001;
    assert_eq!(c.validate(&[]), Err(VideoConfigError::Bitrate));
    c.bitrate_kbps = 100_000;
    assert!(c.validate(&[]).is_ok());
    assert_eq!(VideoConfigError::Bitrate.message(), "bitrate_kbps must be 1..=100000");
}

#[test]
fn formats_that_the_encoder_does_not_take_are_refused() {
    let mut c = config(1, 1, 1);
    for f in ["I420", "NV12", "YUY2", "BGRA"] {
        c.format = f.to_string();
        assert!(c.validate(&[]).is_ok());
    }
    c.format = "RGB\"x\"\n".to_string();
    let e = c.validate(&[]).unwrap_err();
    assert_eq!(e, VideoConfigError::Format("RGB\"x\"\n".to_string()));
    assert_eq!(
        e.message(),
        "format must be one of [\"I420\", \"NV12\", \"YUY2\", \"BGRA\"], got \"RGB\\\"x\\\"\\n\""
    );
    assert_eq!(
        format_message("\"x\""),
        format!("format must be one of {:?}, got {:?}", ["I420", "NV12", "YUY2", "BGRA"], "x")
    );
}

#[test]
fn modes_that_are_not_listed_are_refused() {
    let caps = [mode(640, 480, 30), mode(1280, 720, 10)];
    assert!(config(640, 480, 30).validate(&caps).is_ok());
    assert!(config(1280, 720, 10).validate(&caps).is_ok());
    let e = config(1280, 720, 30).validate(&caps).unwrap_err();
    assert_eq!(e, VideoConfigError::Unsupported { width: 1280, height: 720, framerate: 30 });
    assert_eq!(
        e.message(),
        "camera does not support 1280x720 @ 30fps; pick a listed mode"
    );
    assert!(config(8000, 8000, 30).validate(&[mode(8000, 8000, 30)]).is_ok());
}

#[test]
fn sizes_above_8k_are_refused_where_no_modes_are_known() {
    assert!(config(7680, 4320, 30).validate(&[]).is_ok());
    assert_eq!(config(7681, 4320, 30).validate(&[]), Err(VideoConfigError::TooLarge));
    assert_eq!(config(7680, 4321, 30).validate(&[]), Err(VideoConfigError::TooLarge));
    assert_eq!(VideoConfigError::TooLarge.message(), "resolution above 8K is not allowed");
}

#[test]
fn checks_come_in_order() {
    let mut c = config(0, 0, 0);
    c.bitrate_kbps = 0;
    c.format = String::new();
    assert_eq!(c.validate(&[]), Err(VideoConfigError::ZeroSize));
    c.width = 9000;
    c.height = 9000;
    assert_eq!(c.validate(&[]), Err(VideoConfigError::Framerate));
    c.framerate = 30;
    assert_eq!(c.validate(&[]), Err(VideoConfigError::Bitrate));
    c.bitrate_kbps = 1;
    assert_eq!(c.validate(&[]), Err(VideoConfigError::Format(String::new())));
    c.format = "NV12".to_string();
    assert_eq!(c.validate(&[]), Err(VideoConfigError::TooLarge));
}

#[test]
fn configurations_are_compared() {
    let a = config(1, 2, 3);
    let mut b = a.clone();
    assert!(a.same(&b));
    b.device_id = Some(String::new());
    assert!(!a.same(&b));
    b = a.clone();
    b.format = "NV12".to_string();
    assert!(!a.same(&b));
    b = a.clone();
    b.bitrate_kbps = 1;
    assert!(!a.same(&b));
}

#[test]
fn the_base_mode_is_kept_where_it_is_listed() {
    let base = config(1920, 1080, 30);
    let caps = [mode(3840, 2160, 30), mode(1920, 1080, 30)];
    assert_eq!(pick_default_config(&caps, &base), base);
    assert_eq!(pick_default_config(&[], &base), base);
}

#[test]
fn else_the_largest_mode_at_the_base_framerate_is_taken() {
    let base = config(1920, 1080, 30);
    let caps = [mode(3840, 2160, 15), mode(640, 480, 30), mode(1280, 720, 30), mode(320, 240, 30)];
    let picked = pick_default_config(&caps, &base);
    assert_eq!(picked, config(1280, 720, 30));
    assert_eq!(picked.format, "I420");
    // Of two modes with as many pixels the last one.
    let caps = [mode(400, 300, 30), mode(300, 400, 30)];
    assert_eq!(pick_default_config(&caps, &base), config(300, 400, 30));
}

#[test]
fn else_the_largest_mode_of_all_is_taken() {
    let base = config(1920, 1080, 30);
    let caps = [mode(640, 480, 120), mode(1280, 720, 10), mode(1280, 720, 15), mode(320, 240, 60)];
    assert_eq!(pick_default_config(&caps, &base), config(1280, 720, 15));
    // The number of pixels is not limited to 32 bits.
    let caps = [mode(1, 1, 60), mode(i32::MAX, i32::MAX, 60)];
    assert_eq!(
        pick_default_config(&caps, &base),
        config(2147483647, 2147483647, 60)
    );
}

#[test]
fn modes_of_the_selected_camera() {
    let devices = vec![
        camera("a", vec![mode(1, 1, 1)]),
        camera("b", vec![mode(2, 2, 2)]),
        camera("b", vec![mode(3, 3, 3)]),
    ];
    assert_eq!(caps_for(&devices, Some("b")), &[mode(2, 2, 2)][..]);
    assert!(caps_for(&devices, None).is_empty());
    assert!(caps_for(&devices, Some("")).is_empty());
    assert!(caps_for(&devices, Some("gone")).is_empty());
    assert!(caps_for(&[], None).is_empty());
    let unnamed = vec![camera("a", vec![mode(1, 1, 1)]), camera("", vec![mode(4, 4, 4)])];
    assert_eq!(caps_for(&unnamed, None), &[mode(4, 4, 4)][..]);
}

#[test]
fn head_on_linux() {
    let mut c = config(1280, 720, 30);
    assert_eq!(
        capture_encode_head(&c, Platform::Other, VideoSource::Camera),
        "v4l2src device=/dev/video0 ! image/jpeg,width=1280,height=720,framerate=30/1 ! jpegdec ! \
         videoconvert ! video/x-raw,format=I420 ! x264enc bitrate=6000 tune=zerolatency \
         speed-preset=ultrafast"
    );
    let default = capture_encode_head(&c, Platform::Other, VideoSource::Camera);
    c.device_id = Some(String::new());
    assert_eq!(capture_encode_head(&c, Platform::Other, VideoSource::Camera), default);
    c.device_id = Some("/dev/video2".to_string());
    assert!(capture_encode_head(&c, Platform::Other, VideoSource::Camera)
        .starts_with("v4l2src device=/dev/video2 ! image/jpeg,"));
}

#[test]
fn head_on_windows() {
    let mut c = config(1280, 720, 30);
    c.format = "NV12".to_string();
    assert_eq!(
        capture_encode_head(&c, Platform::Windows, VideoSource::Camera),
        "mfvideosrc ! video/x-raw,width=1280,height=720,framerate=30/1 ! videoconvert ! \
         video/x-raw,format=NV12 ! mfh264enc bitrate=6000 low-latency=true"
    );
    c.device_id = Some(r#"\\?\usb#"x""#.to_string());
    assert_eq!(
        capture_encode_head(&c, Platform::Windows, VideoSource::Camera),
        r#"mfvideosrc device-path="\\\\?\\usb#\"x\"" ! video/x-raw,width=1280,height=720,framerate=30/1 ! videoconvert ! video/x-raw,format=NV12 ! mfh264enc bitrate=6000 low-latency=true"#
    );
}

#[test]
fn head_with_the_test_pattern() {
    let mut c = config(640, 480, 15);
    let head = capture_encode_head(&c, Platform::Other, VideoSource::TestPattern);
    assert_eq!(
        head,
        "videotestsrc is-live=true ! video/x-raw,width=640,height=480,framerate=15/1 ! \
         videoconvert ! video/x-raw,format=I420 ! x264enc bitrate=6000 tune=zerolatency \
         speed-preset=ultrafast"
    );
    c.device_id = Some("/dev/video7".to_string());
    assert_eq!(capture_encode_head(&c, Platform::Other, VideoSource::TestPattern), head);
    assert!(capture_encode_head(&c, Platform::Windows, VideoSource::TestPattern)
        .ends_with("mfh264enc bitrate=6000 low-latency=true"));
}

#[test]
fn device_paths_are_quoted() {
    assert_eq!(device_path_arg(None), "");
    assert_eq!(device_path_arg(Some("")), "");
    assert_eq!(device_path_arg(Some("abc")), " device-path=\"abc\"");
    assert_eq!(device_path_arg(Some("a\\b")), " device-path=\"a\\\\b\"");
    assert_eq!(device_path_arg(Some("a\"b")), " device-path=\"a\\\"b\"");
    assert_eq!(device_path_arg(Some("\\\"")), " device-path=\"\\\\\\\"\"");
}

#[test]
fn whole_pipeline() {
    let c = config(640, 480, 15);
    let head = capture_encode_head(&c, Platform::Other, VideoSource::Camera);
    assert_eq!(
        build_pipeline(&c, Platform::Other, VideoSource::Camera),
        format!(
            "{head} ! h264parse config-interval=-1 ! rtph264pay pt=96 mtu=1200 \
             aggregate-mode=zero-latency ! \
             application/x-rtp,media=video,encoding-name=H264,payload=96 ! \
             tee name=videotee allow-not-linked=true"
        )
    );
    assert_eq!(TEE_NAME, "videotee");
}
