use webrtc_camera_server::branch::{release_steps, AttachStep, ReleaseStep};
use webrtc_camera_server::config::{
    bind_message, port_message, BindVar, Config, ConfigError, EnvVar, EnvVars, IpAddress, Variable,
};
use webrtc_camera_server::filter::{
    filter_from, filter_message, is_misaligned, log_filter, misaligned_message, FilterError,
    FilterVar, DEFAULT_LOG_FILTER, LOG_FILTER_VARIABLE,
};
use webrtc_camera_server::health::{
    on_metrics_event, process_metrics, readiness, MetricsAction, MetricsEvent, ProcessSample, LIVE,
};
use webrtc_camera_server::peer::{
    candidate_messages, emulator_aliases, on_offer, OfferAction, OfferReply, EMULATOR_HOST_ALIAS,
};
use webrtc_camera_server::pipeline::{device_api, BuildError, ReconfigureError, SharedPipeline};
use webrtc_camera_server::probe::{
    CapsStructure, DeviceReport, FormatField, Fraction, IntField, RateField,
};
use webrtc_camera_server::signaling::{
    on_received, on_reconfigured, Ignored, Received, Session, SessionAction, SessionEvent,
    SignalingMessage,
};
use webrtc_camera_server::video::{Platform, VideoConfig, VideoConfigError, VideoSource};

fn unset() -> EnvVars {
    EnvVars {
        bind: BindVar::Unset,
        port: EnvVar::Unset,
        stun: EnvVar::Unset,
        emulator_lan_ip: EnvVar::Unset,
        static_dir: EnvVar::Unset,
        test_source: EnvVar::Unset,
    }
}

#[test]
fn defaults_of_the_configuration() {
    let c = Config::from_env(unset()).unwrap();
    assert_eq!(c.bind, IpAddress::V4([0, 0, 0, 0]));
    assert_eq!(c.port, 8090);
    assert_eq!(c.stun_server, "stun://stun.l.google.com:19302");
    assert_eq!(c.emulator_lan_ip, None);
    assert_eq!(c.static_dir, "templates");
    assert_eq!(c.source, VideoSource::Camera);
}

#[test]
fn variables_are_taken() {
    let mut vars = unset();
    vars.bind = BindVar::Text {
        text: "127.0.0.1".to_string(),
        address: Some(IpAddress::V4([127, 0, 0, 1])),
    };
    vars.port = EnvVar::Text("9000".to_string());
    vars.stun = EnvVar::Text("".to_string());
    vars.emulator_lan_ip = EnvVar::Text(" 192.168.1.2 ".to_string());
    vars.static_dir = EnvVar::Text("www".to_string());
    vars.test_source = EnvVar::Text("1".to_string());
    let c = Config::from_env(vars).unwrap();
    assert_eq!(c.bind, IpAddress::V4([127, 0, 0, 1]));
    assert_eq!(c.port, 9000);
    assert_eq!(c.stun_server, "");
    assert_eq!(c.emulator_lan_ip, Some(" 192.168.1.2 ".to_string()));
    assert_eq!(c.static_dir, "www");
    assert_eq!(c.source, VideoSource::TestPattern);
}

#[test]
fn blank_addresses_disable_the_emulator_workaround() {
    for s in ["", " ", "\t\n"] {
        let mut vars = unset();
        vars.emulator_lan_ip = EnvVar::Text(s.to_string());
        assert_eq!(Config::from_env(vars).unwrap().emulator_lan_ip, None);
    }
}

#[test]
fn only_one_selects_the_test_pattern() {
    for s in ["", "0", "11", " 1"] {
        let mut vars = unset();
        vars.test_source = EnvVar::Text(s.to_string());
        assert_eq!(Config::from_env(vars).unwrap().source, VideoSource::Camera);
    }
}

#[test]
fn bad_addresses_fail() {
    let mut vars = unset();
    vars.bind = BindVar::Text { text: "nowhere\t".to_string(), address: None };
    vars.port = EnvVar::Text("x".to_string());
    let e = Config::from_env(vars).unwrap_err();
    assert_eq!(e, ConfigError::Bind("nowhere\t".to_string()));
    assert_eq!(e.message(), "WCS_BIND is not a valid IP address: \"nowhere\\t\"");
    assert_eq!(bind_message("'x'"), "WCS_BIND is not a valid IP address: 'x'");
}

#[test]
fn bad_ports_fail() {
    for s in ["", "abc", "65536", "-1"] {
        let mut vars = unset();
        vars.port = EnvVar::Text(s.to_string());
        let e = Config::from_env(vars).unwrap_err();
        assert_eq!(e, ConfigError::Port(s.to_string()));
        assert_eq!(e.message(), format!("WCS_PORT is not a valid port: {s:?}"));
    }
    assert_eq!(port_message("\"x\""), "WCS_PORT is not a valid port: \"x\"");
}

#[test]
fn variables_that_are_no_unicode_fail() {
    let mut vars = unset();
    vars.port = EnvVar::NotUnicode;
    let e = Config::from_env(vars).unwrap_err();
    assert_eq!(e, ConfigError::NotUnicode(Variable::Port));
    assert_eq!(e.message(), "WCS_PORT is not valid Unicode");
    let mut vars = unset();
    vars.bind = BindVar::NotUnicode;
    vars.port = EnvVar::NotUnicode;
    assert_eq!(Config::from_env(vars).unwrap_err(), ConfigError::NotUnicode(Variable::Bind));
    let mut vars = unset();
    vars.stun = EnvVar::NotUnicode;
    assert_eq!(Config::from_env(vars).unwrap_err(), ConfigError::NotUnicode(Variable::Stun));
    let mut vars = unset();
    vars.emulator_lan_ip = EnvVar::NotUnicode;
    assert_eq!(
        Config::from_env(vars).unwrap_err(),
        ConfigError::NotUnicode(Variable::EmulatorLanIp)
    );
    let mut vars = unset();
    vars.static_dir = EnvVar::NotUnicode;
    assert_eq!(Config::from_env(vars).unwrap_err(), ConfigError::NotUnicode(Variable::StaticDir));
    let mut vars = unset();
    vars.test_source = EnvVar::NotUnicode;
    assert_eq!(Config::from_env(vars).unwrap_err(), ConfigError::NotUnicode(Variable::TestSource));
    for (variable, name) in [
        (Variable::Bind, "WCS_BIND"),
        (Variable::Stun, "WCS_STUN"),
        (Variable::EmulatorLanIp, "WCS_EMULATOR_LAN_IP"),
        (Variable::StaticDir, "WCS_STATIC_DIR"),
        (Variable::TestSource, "WCS_TEST_SOURCE"),
    ] {
        assert_eq!(variable.name(), name);
        assert_eq!(
            ConfigError::NotUnicode(variable).message(),
            format!("{name} is not valid Unicode")
        );
    }
}

#[test]
fn log_filters_are_taken_or_fail() {
    assert_eq!(LOG_FILTER_VARIABLE, "RUST_LOG");
    assert_eq!(DEFAULT_LOG_FILTER, "webrtc_camera_server=info,tower_http=info");
    assert_eq!(log_filter(FilterVar::Unset), Ok(DEFAULT_LOG_FILTER.to_string()));
    assert_eq!(
        log_filter(FilterVar::Text { text: "debug".to_string(), readable: true }),
        Ok("debug".to_string())
    );
    let e = log_filter(FilterVar::Text { text: "a=\"b".to_string(), readable: false }).unwrap_err();
    assert_eq!(e, FilterError::NotAFilter("a=\"b".to_string()));
    assert_eq!(e.message(), "RUST_LOG is not a valid filter: \"a=\\\"b\"");
    assert_eq!(filter_message("'x'"), "RUST_LOG is not a valid filter: 'x'");
    let e = log_filter(FilterVar::NotUnicode).unwrap_err();
    assert_eq!(e, FilterError::NotUnicode);
    assert_eq!(e.message(), "RUST_LOG is not valid Unicode");
}

fn filter(text: &str) -> Result<String, FilterError> {
    filter_from(EnvVar::Text(text.to_string()))
}

#[test]
fn log_filters_are_read() {
    assert_eq!(filter_from(EnvVar::Unset), Ok(DEFAULT_LOG_FILTER.to_string()));
    assert_eq!(filter_from(EnvVar::NotUnicode), Err(FilterError::NotUnicode));
    for text in ["", "debug", DEFAULT_LOG_FILTER, "[span{field=1}]=trace", "ä=info", " info,ä=debug"]
    {
        assert_eq!(filter(text), Ok(text.to_string()), "{text:?}");
    }
    for text in ["a=loud", "a=info=b", "[span", "info,[{}]", "=", "a=info, b=info"] {
        assert_eq!(filter(text), Err(FilterError::NotAFilter(text.to_string())), "{text:?}");
    }
}

#[test]
fn misaligned_filters_fail() {
    for text in [" ä=info", "\u{3000}a=info", "info, [ä]", "\u{a0}["] {
        assert!(is_misaligned(text), "{text:?}");
        assert_eq!(filter(text), Err(FilterError::Misaligned(text.to_string())));
    }
    for text in ["", "ä=info", " a=info", " ä", "ä=info, b=info", "a ä=info", ",,"] {
        assert!(!is_misaligned(text), "{text:?}");
    }
    assert_eq!(
        FilterError::Misaligned(" ä=x".to_string()).message(),
        "RUST_LOG has a directive that starts with white space: \" ä=x\""
    );
    assert_eq!(
        misaligned_message("'x'"),
        "RUST_LOG has a directive that starts with white space: 'x'"
    );
}

fn structure(width: i32, height: i32, fps: i32) -> CapsStructure {
    CapsStructure {
        media: "image/jpeg".to_string(),
        format: FormatField::Missing,
        width: IntField::Fixed(width),
        height: IntField::Fixed(height),
        framerate: RateField::Fixed(Fraction { numer: fps, denom: 1 }),
    }
}

fn report(path: &str, caps: Vec<CapsStructure>) -> DeviceReport {
    DeviceReport {
        api: Some("v4l2".to_string()),
        path: Some(path.to_string()),
        name: "cam".to_string(),
        caps: Some(caps),
    }
}

fn two_cameras() -> SharedPipeline {
    SharedPipeline::new(
        Platform::Other,
        VideoSource::Camera,
        Some(vec![
            report("/dev/video0", vec![structure(1920, 1080, 30), structure(640, 480, 60)]),
            report("/dev/video1", vec![structure(320, 240, 15)]),
        ]),
    )
    .unwrap()
}

#[test]
fn starts_without_cameras() {
    for reports in [None, Some(Vec::new())] {
        let p = SharedPipeline::new(Platform::Other, VideoSource::TestPattern, reports).unwrap();
        assert!(p.devices().is_empty());
        assert_eq!(p.config(), VideoConfig::default_for(Platform::Other));
        assert!(p.description().starts_with("videotestsrc "));
    }
}

#[test]
fn starts_on_the_first_camera() {
    let p = two_cameras();
    assert_eq!(p.devices().len(), 2);
    assert_eq!(p.config().device_id, Some("/dev/video0".to_string()));
    assert_eq!((p.config().width, p.config().height, p.config().framerate), (1920, 1080, 30));
    assert!(p.description().starts_with("v4l2src device=/dev/video0 ! "));
    let unnamed = SharedPipeline::new(
        Platform::Other,
        VideoSource::Camera,
        Some(vec![report("", vec![structure(640, 480, 30)])]),
    )
    .unwrap();
    assert_eq!(unnamed.config().device_id, None);
    assert_eq!(unnamed.config().width, 640);
    let bare = SharedPipeline::new(
        Platform::Other,
        VideoSource::Camera,
        Some(vec![report("/dev/video3", Vec::new())]),
    )
    .unwrap();
    assert_eq!((bare.config().width, bare.config().height), (1920, 1080));
}

#[test]
fn starts_at_the_largest_mode_where_none_has_thirty_frames() {
    let p = SharedPipeline::new(
        Platform::Other,
        VideoSource::Camera,
        Some(vec![report("/dev/video0", vec![structure(640, 480, 240), structure(1280, 720, 15)])]),
    )
    .unwrap();
    assert_eq!((p.config().width, p.config().height, p.config().framerate), (1280, 720, 15));
}

#[test]
fn a_replacement_can_be_undone() {
    let mut p = two_cameras();
    let before = p.config();
    let mut c = before.clone();
    (c.width, c.height, c.framerate) = (640, 480, 60);
    assert_eq!(p.reconfigure_with(c.clone(), Ok(()), true), Ok(true));
    assert_eq!(p.config(), c);
    assert_eq!(p.reconfigure_with(before.clone(), Ok(()), true), Ok(true));
    assert_eq!(p.config(), before);
}

#[test]
fn does_not_start_at_a_framerate_that_is_out_of_bounds() {
    let e = SharedPipeline::new(
        Platform::Other,
        VideoSource::Camera,
        Some(vec![report("/dev/video0", vec![structure(640, 480, 300)])]),
    )
    .unwrap_err();
    assert_eq!(e, VideoConfigError::Framerate);
}

#[test]
fn only_media_foundation_cameras_are_listed_on_windows() {
    let mut mf = report("path", vec![structure(640, 480, 30)]);
    mf.api = Some("mediafoundation".to_string());
    let p = SharedPipeline::new(
        Platform::Windows,
        VideoSource::Camera,
        Some(vec![report("other", vec![structure(1920, 1080, 30)]), mf]),
    )
    .unwrap();
    assert_eq!(p.devices().len(), 1);
    assert_eq!(p.devices()[0].api, "mediafoundation");
    assert_eq!(device_api(Platform::Windows), Some("mediafoundation"));
    assert_eq!(device_api(Platform::Other), None);
}

#[test]
fn the_same_parameters_need_no_rebuild() {
    let mut p = two_cameras();
    let current = p.config();
    assert!(p.reconfigure(current.clone()).unwrap().is_none());
    assert_eq!(p.reconfigure_with(current.clone(), Err(BuildError::Launch), false), Ok(false));
    assert_eq!(p.config(), current);
}

#[test]
fn unknown_cameras_are_refused() {
    let mut p = two_cameras();
    let mut c = p.config();
    c.device_id = Some("/dev/video9".to_string());
    let e = p.reconfigure(c.clone()).unwrap_err();
    assert_eq!(e, ReconfigureError::UnknownDevice("/dev/video9".to_string()));
    assert_eq!(e.message(), "unknown camera device: /dev/video9");
    let before = p.config();
    assert!(p.reconfigure_with(c.clone(), Ok(()), true).is_err());
    assert_eq!(p.config(), before);
    // Where no cameras are known, any handle is taken.
    let none = SharedPipeline::new(Platform::Other, VideoSource::Camera, None).unwrap();
    assert!(none.reconfigure(c).unwrap().is_some());
}

#[test]
fn parameters_are_held_against_the_selected_camera() {
    let p = two_cameras();
    let mut c = p.config();
    c.device_id = Some("/dev/video1".to_string());
    assert_eq!(
        p.reconfigure(c.clone()).unwrap_err(),
        ReconfigureError::Invalid(VideoConfigError::Unsupported {
            width: 1920,
            height: 1080,
            framerate: 30
        })
    );
    c.width = 320;
    c.height = 240;
    c.framerate = 15;
    let rebuild = p.reconfigure(c).unwrap().unwrap();
    assert!(rebuild
        .description()
        .starts_with("v4l2src device=/dev/video1 ! image/jpeg,width=320,height=240,framerate=15/1 "));
}

#[test]
fn a_replacement_is_built_started_and_installed() {
    let mut p = two_cameras();
    let old = p.config();
    let mut c = old.clone();
    c.bitrate_kbps = 1000;
    let rebuild = p.reconfigure(c.clone()).unwrap().unwrap();
    let built = rebuild.built(Ok(())).unwrap();
    let started = built.started(true).unwrap();
    assert_eq!(p.config(), old);
    assert_eq!(p.install(started), Ok(old.clone()));
    assert_eq!(p.config(), c);
    // And undone.
    assert_eq!(p.reconfigure_with(old.clone(), Ok(()), true), Ok(true));
    assert_eq!(p.config(), old);
}

#[test]
fn a_replacement_for_other_cameras_is_not_installed() {
    let p = two_cameras();
    let mut c = p.config();
    c.bitrate_kbps = 1000;
    let started =
        p.reconfigure(c).unwrap().unwrap().built(Ok(())).unwrap().started(true).unwrap();
    let mut other = SharedPipeline::new(
        Platform::Other,
        VideoSource::Camera,
        Some(vec![report("/dev/video7", vec![structure(640, 480, 30)])]),
    )
    .unwrap();
    let before = other.config();
    assert_eq!(
        other.install(started),
        Err(ReconfigureError::UnknownDevice("/dev/video0".to_string()))
    );
    assert_eq!(other.config(), before);
}

#[test]
fn without_a_handle_only_bounds_are_checked() {
    let p = two_cameras();
    let mut c = p.config();
    c.device_id = None;
    (c.width, c.height) = (800, 600);
    assert!(p.reconfigure(c.clone()).unwrap().is_some());
    c.width = 7681;
    assert_eq!(
        p.reconfigure(c).unwrap_err(),
        ReconfigureError::Invalid(VideoConfigError::TooLarge)
    );
}

#[test]
fn a_replacement_that_fails_changes_nothing() {
    let mut p = two_cameras();
    let old = p.config();
    let mut c = old.clone();
    c.bitrate_kbps = 1000;
    for (cause, message) in [
        (BuildError::Launch, "Failed to build shared pipeline"),
        (BuildError::NotAPipeline, "Parsed element is not a Pipeline"),
        (BuildError::NoTee, "tee element missing from pipeline"),
    ] {
        let e = p.reconfigure_with(c.clone(), Err(cause), true).unwrap_err();
        assert_eq!(e, ReconfigureError::Build(cause));
        assert_eq!(e.message(), message);
        assert_eq!(cause.message(), message);
    }
    let e = p.reconfigure_with(c, Ok(()), false).unwrap_err();
    assert_eq!(e, ReconfigureError::Start);
    assert_eq!(e.message(), "Failed to start reconfigured pipeline");
    assert_eq!(p.config(), old);
    assert_eq!(
        ReconfigureError::Invalid(VideoConfigError::ZeroSize).message(),
        "width/height must be non-zero"
    );
}

#[test]
fn branches_are_set_up_in_order() {
    let (settings, first) = two_cameras().attach_peer("stun://x");
    assert_eq!(settings.stun_server, "stun://x");
    assert_eq!(settings.tee_pad_template, "src_%u");
    assert_eq!(settings.sink_pad_template, "sink_%u");
    assert_eq!(settings.queue_leaky, "downstream");
    assert_eq!(settings.queue_max_time, 200_000_000);
    assert_eq!((settings.queue_max_buffers, settings.queue_max_bytes), (0, 0));
    assert_eq!(settings.bundle_policy, "max-bundle");
    assert_eq!(settings.key_frame_event, "GstForceKeyUnit");
    assert!(settings.key_frame_all_headers);
    let mut steps = vec![first];
    let mut step = first;
    while let Some(next) = step.after(Ok(())).unwrap() {
        steps.push(next);
        step = next;
    }
    assert_eq!(
        steps,
        vec![
            AttachStep::RequestTeePad,
            AttachStep::MakeQueue,
            AttachStep::MakeWebrtcbin,
            AttachStep::AddElements,
            AttachStep::FindQueueSource,
            AttachStep::RequestWebrtcSink,
            AttachStep::LinkQueue,
            AttachStep::Configure,
            AttachStep::SyncQueue,
            AttachStep::SyncWebrtcbin,
            AttachStep::FindQueueSink,
            AttachStep::LinkTee,
            AttachStep::ForceKeyUnit,
        ]
    );
}

#[test]
fn failures_end_the_setup_of_a_branch() {
    for (step, message) in [
        (AttachStep::RequestTeePad, "Failed to request tee src pad"),
        (AttachStep::MakeQueue, "Failed to create queue"),
        (AttachStep::MakeWebrtcbin, "Failed to create webrtcbin"),
        (AttachStep::AddElements, "cause"),
        (AttachStep::FindQueueSource, "queue has no src pad"),
        (AttachStep::RequestWebrtcSink, "webrtcbin denied sink pad request"),
        (AttachStep::LinkQueue, "cause"),
        (AttachStep::SyncQueue, "cause"),
        (AttachStep::SyncWebrtcbin, "cause"),
        (AttachStep::FindQueueSink, "queue has no sink pad"),
        (AttachStep::LinkTee, "cause"),
    ] {
        assert_eq!(step.after(Err("cause".to_string())), Err(message.to_string()));
    }
    assert_eq!(AttachStep::ForceKeyUnit.after(Err("x".to_string())), Ok(None));
    assert_eq!(AttachStep::Configure.after(Err("x".to_string())), Ok(Some(AttachStep::SyncQueue)));
}

#[test]
fn branches_are_taken_down_in_order() {
    let rest = vec![
        ReleaseStep::StopQueue,
        ReleaseStep::StopWebrtcbin,
        ReleaseStep::RemoveQueue,
        ReleaseStep::RemoveWebrtcbin,
        ReleaseStep::ReleaseTeePad,
    ];
    assert_eq!(release_steps(false), rest);
    let all = release_steps(true);
    assert_eq!(all[0], ReleaseStep::UnlinkTee);
    assert_eq!(all[1..], rest[..]);
}

#[test]
fn taking_a_branch_down_undoes_its_setup() {
    let mut there: Vec<&str> = Vec::new();
    let (_, mut step) = two_cameras().attach_peer("stun://x");
    loop {
        match step {
            AttachStep::RequestTeePad => there.push("tee pad"),
            AttachStep::AddElements => there.extend(["queue", "webrtcbin"]),
            AttachStep::SyncQueue => there.push("queue runs"),
            AttachStep::SyncWebrtcbin => there.push("webrtcbin runs"),
            AttachStep::LinkTee => there.push("tee link"),
            _ => {}
        }
        match step.after(Ok(())).unwrap() {
            Some(next) => step = next,
            None => break,
        }
    }
    assert_eq!(there.len(), 6);
    for step in release_steps(true) {
        let gone = match step {
            ReleaseStep::UnlinkTee => "tee link",
            ReleaseStep::StopQueue => "queue runs",
            ReleaseStep::StopWebrtcbin => "webrtcbin runs",
            ReleaseStep::RemoveQueue => "queue",
            ReleaseStep::RemoveWebrtcbin => "webrtcbin",
            ReleaseStep::ReleaseTeePad => "tee pad",
        };
        assert!(there.contains(&gone));
        there.retain(|part| *part != gone);
    }
    assert!(there.is_empty());
}

fn server() -> Config {
    let mut vars = unset();
    vars.stun = EnvVar::Text("stun://s".to_string());
    vars.emulator_lan_ip = EnvVar::Text("192.168.1.103".to_string());
    Config::from_env(vars).unwrap()
}

#[test]
fn a_client_without_a_peer() {
    let p = two_cameras();
    let c = server();
    let mut s = Session::new();
    assert!(!s.has_peer());
    let answer = SessionEvent::Message(SignalingMessage::Answer { sdp: "x".to_string() });
    assert_eq!(s.on_event(answer, &p, &c), vec![SessionAction::Ignore(Ignored::AnswerBeforeStart)]);
    let candidate = SessionEvent::Message(SignalingMessage::IceCandidate {
        candidate: "y".to_string(),
        sdp_mline_index: 0,
    });
    assert_eq!(
        s.on_event(candidate, &p, &c),
        vec![SessionAction::Ignore(Ignored::CandidateBeforeStart)]
    );
    assert_eq!(
        s.on_event(SessionEvent::Message(SignalingMessage::Start), &p, &c),
        vec![SessionAction::Attach {
            stun_server: "stun://s".to_string(),
            emulator_lan_ip: Some("192.168.1.103".to_string()),
        }]
    );
    assert!(s.on_event(SessionEvent::AttachFailed, &p, &c).is_empty());
    assert!(!s.has_peer());
}

#[test]
fn a_client_with_a_peer() {
    let p = two_cameras();
    let c = server();
    let mut s = Session::new();
    assert!(s.on_event(SessionEvent::Attached, &p, &c).is_empty());
    assert!(s.has_peer());
    let answer = SessionEvent::Message(SignalingMessage::Answer { sdp: "x".to_string() });
    assert_eq!(s.on_event(answer, &p, &c), vec![SessionAction::ApplyAnswer { sdp: "x".to_string() }]);
    let candidate = SessionEvent::Message(SignalingMessage::IceCandidate {
        candidate: "y".to_string(),
        sdp_mline_index: 3,
    });
    assert_eq!(
        s.on_event(candidate, &p, &c),
        vec![SessionAction::AddCandidate { candidate: "y".to_string(), sdp_mline_index: 3 }]
    );
    // A second branch that cannot be attached leaves the first in place.
    s.on_event(SessionEvent::Message(SignalingMessage::Start), &p, &c);
    s.on_event(SessionEvent::AttachFailed, &p, &c);
    assert!(s.has_peer());
    assert_eq!(
        s.on_event(SessionEvent::Closed, &p, &c),
        vec![SessionAction::DropPeer, SessionAction::Stop]
    );
    assert!(!s.has_peer());
}

#[test]
fn questions_are_answered() {
    let p = two_cameras();
    let c = server();
    let mut s = Session::new();
    assert_eq!(
        s.on_event(SessionEvent::Message(SignalingMessage::GetConfig), &p, &c),
        vec![SessionAction::Send(SignalingMessage::Config { config: p.config() })]
    );
    assert_eq!(
        s.on_event(SessionEvent::Message(SignalingMessage::GetDevices), &p, &c),
        vec![SessionAction::Send(SignalingMessage::Devices { devices: p.devices() })]
    );
    let set = SignalingMessage::SetConfig { config: p.config() };
    assert_eq!(
        s.on_event(SessionEvent::Message(set), &p, &c),
        vec![SessionAction::Reconfigure(p.config())]
    );
}

#[test]
fn what_a_client_should_not_send_has_no_effect() {
    let p = two_cameras();
    let c = server();
    let mut s = Session::new();
    s.on_event(SessionEvent::Attached, &p, &c);
    assert_eq!(
        s.on_event(SessionEvent::Message(SignalingMessage::Offer { sdp: String::new() }), &p, &c),
        vec![SessionAction::Ignore(Ignored::UnexpectedOffer)]
    );
    for m in [
        SignalingMessage::Config { config: p.config() },
        SignalingMessage::Devices { devices: Vec::new() },
        SignalingMessage::Reconfigured,
        SignalingMessage::Error { message: String::new() },
    ] {
        assert_eq!(
            s.on_event(SessionEvent::Message(m), &p, &c),
            vec![SessionAction::Ignore(Ignored::ServerOnly)]
        );
    }
    assert_eq!(
        s.on_event(SessionEvent::Malformed, &p, &c),
        vec![SessionAction::Ignore(Ignored::Malformed)]
    );
    assert!(s.on_event(SessionEvent::OtherFrame, &p, &c).is_empty());
    assert!(s.has_peer());
}

#[test]
fn a_replacement_is_announced() {
    let mut p = two_cameras();
    let c = server();
    let mut s = Session::new();
    s.on_event(SessionEvent::Attached, &p, &c);
    let mut new = p.config();
    new.bitrate_kbps = 2500;
    let answer = p.reconfigure_with(new.clone(), Ok(()), true);
    let event = on_reconfigured(answer);
    assert_eq!(
        s.on_event(event, &p, &c),
        vec![
            SessionAction::DropPeer,
            SessionAction::Send(SignalingMessage::Config { config: new }),
            SessionAction::Broadcast,
        ]
    );
    assert!(!s.has_peer());
    assert_eq!(
        s.on_event(SessionEvent::Announced, &p, &c),
        vec![SessionAction::Send(SignalingMessage::Reconfigured)]
    );
}

#[test]
fn a_client_that_fell_behind_is_still_told() {
    let (p, c) = (two_cameras(), server());
    let mut s = Session::new();
    for received in [Received::Announcement, Received::FellBehind] {
        let event = on_received(received).unwrap();
        assert_eq!(
            s.on_event(event, &p, &c),
            vec![SessionAction::Send(SignalingMessage::Reconfigured)]
        );
    }
    assert!(on_received(Received::Ended).is_none());
}

#[test]
fn no_change_is_answered_and_keeps_the_peer() {
    let mut p = two_cameras();
    let c = server();
    let mut s = Session::new();
    s.on_event(SessionEvent::Attached, &p, &c);
    let same = p.config();
    let event = on_reconfigured(p.reconfigure_with(same.clone(), Ok(()), true));
    assert_eq!(
        s.on_event(event, &p, &c),
        vec![SessionAction::Send(SignalingMessage::Config { config: same })]
    );
    assert!(s.has_peer());
}

#[test]
fn a_refusal_is_answered_and_keeps_the_peer() {
    let mut p = two_cameras();
    let c = server();
    let mut s = Session::new();
    s.on_event(SessionEvent::Attached, &p, &c);
    let mut bad = p.config();
    bad.framerate = 0;
    let event = on_reconfigured(p.reconfigure_with(bad, Ok(()), true));
    assert_eq!(
        s.on_event(event, &p, &c),
        vec![SessionAction::Send(SignalingMessage::Error {
            message: "Reconfigure failed: framerate must be 1..=240".to_string(),
        })]
    );
    assert!(s.has_peer());
}

#[test]
fn candidates_are_repeated_for_the_emulator() {
    let lan = Some("192.168.1.103");
    assert_eq!(EMULATOR_HOST_ALIAS, "10.0.2.2");
    assert!(emulator_aliases("candidate:1 1 UDP 1 10.1.1.1 9 typ host", lan).is_empty());
    assert!(emulator_aliases("candidate:1 1 UDP 1 192.168.1.103 9 typ host", None).is_empty());
    assert_eq!(
        emulator_aliases("candidate:1 192.168.1.103 9 raddr 192.168.1.103", lan),
        vec!["candidate:1 10.0.2.2 9 raddr 10.0.2.2".to_string()]
    );
    assert_eq!(
        candidate_messages("a 192.168.1.103 b", 2, lan),
        vec![
            SignalingMessage::IceCandidate {
                candidate: "a 192.168.1.103 b".to_string(),
                sdp_mline_index: 2
            },
            SignalingMessage::IceCandidate {
                candidate: "a 10.0.2.2 b".to_string(),
                sdp_mline_index: 2
            },
        ]
    );
    assert_eq!(
        candidate_messages("a", 0, None),
        vec![SignalingMessage::IceCandidate { candidate: "a".to_string(), sdp_mline_index: 0 }]
    );
}

#[test]
fn offers_are_set_and_sent() {
    assert_eq!(
        on_offer(OfferReply::Offer { sdp: Some("v=0".to_string()) }),
        vec![
            OfferAction::SetLocalDescription,
            OfferAction::Send(SignalingMessage::Offer { sdp: "v=0".to_string() }),
        ]
    );
    assert_eq!(
        on_offer(OfferReply::Offer { sdp: None })[1],
        OfferAction::Send(SignalingMessage::Offer { sdp: String::new() })
    );
    assert!(on_offer(OfferReply::NoReply).is_empty());
    assert!(on_offer(OfferReply::Failed).is_empty());
    assert!(on_offer(OfferReply::NoOffer).is_empty());
}

#[test]
fn probes() {
    assert_eq!(LIVE, "ok");
    assert_eq!(readiness(true), (200, "ready"));
    assert_eq!(readiness(false), (503, "not ready"));
}

#[test]
fn metrics() {
    let m = process_metrics(
        Some("host".to_string()),
        Some(ProcessSample { memory: 3 * 1024 * 1024 - 1, tasks: Some(7) }),
    );
    assert_eq!((m.host.as_str(), m.ram.as_str(), m.threads), ("host", "2 MB", 7));
    let m = process_metrics(None, Some(ProcessSample { memory: u64::MAX, tasks: None }));
    assert_eq!((m.host.as_str(), m.threads), ("unknown-host", 0));
    assert_eq!(m.ram, "17592186044415 MB");
    let m = process_metrics(None, None);
    assert_eq!((m.ram.as_str(), m.threads), ("0 MB", 0));
}

#[test]
fn metrics_are_logged_every_five_seconds() {
    let mut event = MetricsEvent::PidKnown;
    for _ in 0..10 {
        assert_eq!(on_metrics_event(event), MetricsAction::LogRound);
        assert_eq!(on_metrics_event(MetricsEvent::Logged), MetricsAction::Sleep { seconds: 5 });
        event = MetricsEvent::Slept;
    }
}

#[test]
fn without_a_process_no_metrics_are_logged() {
    assert_eq!(on_metrics_event(MetricsEvent::PidUnknown), MetricsAction::End);
}
