use webrtc_camera_server::camera::{CameraCap, CameraDevice};
use webrtc_camera_server::modes::normalize_caps;
use webrtc_camera_server::probe::{
    collect_caps, frac_fps, probe_cameras, read_framerates, read_ints, CapsStructure, DeviceReport,
    FormatField, Fraction, IntField, RateField,
};

fn cap(format: Option<&str>, media: &str, width: i32, height: i32, framerate: u32) -> CameraCap {
    CameraCap {
        format: format.map(|f| f.to_string()),
        media: media.to_string(),
        width,
        height,
        framerate,
    }
}

fn frac(numer: i32, denom: i32) -> Fraction {
    Fraction { numer, denom }
}

#[test]
fn framerates_are_rounded() {
    assert_eq!(frac_fps(frac(30, 1)), 30);
    assert_eq!(frac_fps(frac(30000, 1001)), 30);
    assert_eq!(frac_fps(frac(24000, 1001)), 24);
    assert_eq!(frac_fps(frac(15, 2)), 8);
    assert_eq!(frac_fps(frac(1, 2)), 1);
    assert_eq!(frac_fps(frac(1, 3)), 0);
    assert_eq!(frac_fps(frac(7, 0)), 0);
    assert_eq!(frac_fps(frac(-30, 1)), 0);
    assert_eq!(frac_fps(frac(i32::MIN, -1)), 2147483648);
    assert_eq!(frac_fps(frac(i32::MAX, 1)), 2147483647);
}

#[test]
fn framerates_are_rounded_as_in_floating_point() {
    let samples = [
        i32::MIN, -1001, -2, -1, 0, 1, 2, 3, 5, 7, 15, 29, 30, 31, 1001, 30000, 60000, i32::MAX,
    ];
    for n in samples {
        for d in samples {
            let expected = if d == 0 { 0 } else { (n as f64 / d as f64).round().max(0.0) as u32 };
            assert_eq!(frac_fps(frac(n, d)), expected, "{n}/{d}");
        }
    }
}

#[test]
fn integer_fields_are_read() {
    assert_eq!(read_ints(&IntField::Missing), Vec::<i32>::new());
    assert_eq!(read_ints(&IntField::Other), Vec::<i32>::new());
    assert_eq!(read_ints(&IntField::Fixed(640)), vec![640]);
    assert_eq!(read_ints(&IntField::Range { min: 1, max: 1920 }), vec![1, 1920]);
    assert_eq!(read_ints(&IntField::List(vec![Some(1), None, Some(3)])), vec![1, 3]);
}

#[test]
fn framerate_fields_are_read() {
    assert_eq!(read_framerates(&RateField::Missing), Vec::<u32>::new());
    assert_eq!(read_framerates(&RateField::Other), Vec::<u32>::new());
    assert_eq!(read_framerates(&RateField::Fixed(frac(25, 1))), vec![25]);
    assert_eq!(
        read_framerates(&RateField::Range { min: frac(1, 1), max: frac(60, 1) }),
        vec![60]
    );
    assert_eq!(
        read_framerates(&RateField::List(vec![Some(frac(30, 1)), None, Some(frac(15, 2))])),
        vec![30, 8]
    );
}

#[test]
fn structures_are_expanded_to_positive_combinations() {
    let s = CapsStructure {
        media: "video/x-raw".to_string(),
        format: FormatField::Fixed("NV12".to_string()),
        width: IntField::Range { min: 0, max: 640 },
        height: IntField::List(vec![Some(480), Some(-1), Some(360)]),
        framerate: RateField::List(vec![Some(frac(30, 1)), Some(frac(1, 3)), Some(frac(5, 1))]),
    };
    let mut out = vec![cap(None, "image/jpeg", 1, 1, 1)];
    collect_caps(&s, &mut out);
    assert_eq!(
        out,
        vec![
            cap(None, "image/jpeg", 1, 1, 1),
            cap(Some("NV12"), "video/x-raw", 640, 480, 30),
            cap(Some("NV12"), "video/x-raw", 640, 480, 5),
            cap(Some("NV12"), "video/x-raw", 640, 360, 30),
            cap(Some("NV12"), "video/x-raw", 640, 360, 5),
        ]
    );
}

fn one_size(format: FormatField, width: IntField, height: IntField) -> CapsStructure {
    CapsStructure {
        media: "video/x-raw".to_string(),
        format,
        width,
        height,
        framerate: RateField::Fixed(frac(30, 1)),
    }
}

#[test]
fn ranges_are_flattened_to_their_maximum() {
    let mut out = Vec::new();
    collect_caps(
        &one_size(
            FormatField::Fixed("NV12".to_string()),
            IntField::Range { min: 320, max: 1920 },
            IntField::Range { min: 240, max: 1080 },
        ),
        &mut out,
    );
    assert_eq!(out, vec![cap(Some("NV12"), "video/x-raw", 1920, 1080, 30)]);
}

#[test]
fn each_format_of_a_list_gives_a_mode() {
    let mut out = Vec::new();
    collect_caps(
        &one_size(
            FormatField::List(vec![Some("NV12".to_string()), None, Some("YUY2".to_string())]),
            IntField::Fixed(640),
            IntField::Fixed(480),
        ),
        &mut out,
    );
    assert_eq!(
        out,
        vec![
            cap(Some("NV12"), "video/x-raw", 640, 480, 30),
            cap(Some("YUY2"), "video/x-raw", 640, 480, 30),
        ]
    );
    for format in [FormatField::Missing, FormatField::Other, FormatField::List(vec![None])] {
        let mut out = Vec::new();
        collect_caps(&one_size(format, IntField::Fixed(640), IntField::Fixed(480)), &mut out);
        assert_eq!(out, vec![cap(None, "video/x-raw", 640, 480, 30)]);
    }
}

#[test]
fn modes_are_listed_once_and_in_order() {
    let mut caps = vec![
        cap(Some("NV12"), "video/x-raw", 640, 480, 30),
        cap(None, "image/jpeg", 640, 480, 30),
        cap(Some("YUY2"), "video/x-raw", 640, 480, 30),
        cap(Some("NV12"), "video/x-raw", 1920, 1080, 30),
        cap(Some("NV12"), "video/x-raw", 640, 480, 60),
        cap(Some("NV12"), "video/x-raw", 640, 480, 30),
        cap(Some("NV12"), "video/x-raw", 640, 360, 30),
    ];
    normalize_caps(&mut caps);
    assert_eq!(
        caps,
        vec![
            cap(Some("NV12"), "video/x-raw", 1920, 1080, 30),
            cap(Some("NV12"), "video/x-raw", 640, 480, 60),
            cap(Some("YUY2"), "video/x-raw", 640, 480, 30),
            cap(Some("NV12"), "video/x-raw", 640, 480, 30),
            cap(None, "image/jpeg", 640, 480, 30),
            cap(Some("NV12"), "video/x-raw", 640, 360, 30),
        ]
    );
}

#[test]
fn equal_modes_collapse_even_when_others_of_their_rank_stand_between() {
    let mut caps = vec![
        cap(None, "image/jpeg", 640, 480, 30),
        cap(None, "video/x-h264", 640, 480, 30),
        cap(None, "image/jpeg", 640, 480, 30),
    ];
    normalize_caps(&mut caps);
    assert_eq!(
        caps,
        vec![cap(None, "image/jpeg", 640, 480, 30), cap(None, "video/x-h264", 640, 480, 30)]
    );
}

#[test]
fn normalizing_again_changes_nothing() {
    let mut caps = vec![
        cap(None, "b", 1, 2, 3),
        cap(None, "a", 1, 2, 3),
        cap(Some("x"), "a", 1, 2, 3),
        cap(None, "b", 1, 2, 3),
    ];
    normalize_caps(&mut caps);
    let once = caps.clone();
    normalize_caps(&mut caps);
    assert_eq!(caps, once);
    assert_eq!(caps.len(), 3);
    let mut empty: Vec<CameraCap> = Vec::new();
    normalize_caps(&mut empty);
    assert!(empty.is_empty());
}

fn report(api: Option<&str>, path: Option<&str>, name: &str, caps: bool) -> DeviceReport {
    DeviceReport {
        api: api.map(|s| s.to_string()),
        path: path.map(|s| s.to_string()),
        name: name.to_string(),
        caps: if caps {
            Some(vec![
                CapsStructure {
                    media: "image/jpeg".to_string(),
                    format: FormatField::Missing,
                    width: IntField::Fixed(640),
                    height: IntField::Fixed(480),
                    framerate: RateField::Fixed(frac(30, 1)),
                },
                CapsStructure {
                    media: "video/x-raw".to_string(),
                    format: FormatField::Fixed("NV12".to_string()),
                    width: IntField::Fixed(1280),
                    height: IntField::Fixed(720),
                    framerate: RateField::Fixed(frac(30000, 1001)),
                },
            ])
        } else {
            None
        },
    }
}

#[test]
fn all_cameras_are_listed() {
    let reports = vec![report(Some("v4l2"), Some("/dev/video0"), "A", true), report(None, None, "B", false)];
    assert_eq!(
        probe_cameras(&reports, None),
        vec![
            CameraDevice {
                id: "/dev/video0".to_string(),
                name: "A".to_string(),
                api: "v4l2".to_string(),
                caps: vec![
                    cap(Some("NV12"), "video/x-raw", 1280, 720, 30),
                    cap(None, "image/jpeg", 640, 480, 30),
                ],
            },
            CameraDevice {
                id: String::new(),
                name: "B".to_string(),
                api: String::new(),
                caps: Vec::new(),
            },
        ]
    );
}

#[test]
fn only_the_wanted_backend_is_listed() {
    let reports = vec![
        report(Some("ks"), Some("p"), "A", true),
        report(Some("mediafoundation"), Some("q"), "A", true),
        report(None, Some("r"), "A", true),
    ];
    let listed = probe_cameras(&reports, Some("mediafoundation"));
    assert_eq!(listed.len(), 1);
    assert_eq!(listed[0].id, "q");
    assert!(probe_cameras(&Vec::new(), None).is_empty());
    let clone = listed[0].clone();
    assert_eq!(clone, listed[0]);
}
