//! The shared pipeline: what it starts with, how it is reconfigured, and what never
//! changes while it runs.

use vstd::prelude::*;

use crate::branch::{plan_branch, settings_for, AttachStep, BranchSettings};
use crate::camera::{devices_view, CameraDevice, CameraDeviceView};
use crate::launch::{build_pipeline, pipeline_text};
use crate::probe::{describes, is_probe_of, law_every_wanted_camera_is_listed};
use crate::probe::law_listed_modes_are_positive;
use crate::probe::{law_only_the_wanted_backend_is_listed, law_probe_is_unique, probe_cameras};
use crate::probe::{wanted_reports, DeviceReport};
use crate::selection::{caps_for, find_device, is_first_with_id, is_known, pick_default_config};
use crate::selection::{law_listed_base_is_kept, law_picked_framerate_is_kept};
use crate::selection::law_picked_mode_is_listed;
use crate::selection::{law_picking_keeps_the_rest, picked_config, selected_caps};
use crate::text::{opt_str, text_or_empty};
use crate::video::{default_config, law_accepted_config_can_be_delivered};
use crate::video::{law_default_config_is_accepted, lists_mode, mode_matches, validation};
use crate::video::{video_error_text, Platform, VideoConfig, VideoConfigError};
use crate::video::{VideoConfigErrorView, VideoConfigView, VideoSource};

verus! {

/// Why a pipeline could not be built from its text.
#[derive(Debug, Clone, Copy, PartialEq, Eq, Structural)]
pub enum BuildError {
    /// The text could not be launched.
    Launch,
    /// What was launched is no pipeline.
    NotAPipeline,
    /// The pipeline has no element that fans the stream out.
    NoTee,
}

/// The message for a pipeline that could not be built.
pub open spec fn build_error_text(e: BuildError) -> Seq<char> {
    match e {
        BuildError::Launch => "Failed to build shared pipeline"@,
        BuildError::NotAPipeline => "Parsed element is not a Pipeline"@,
        BuildError::NoTee => "tee element missing from pipeline"@,
    }
}

impl BuildError {
    /// The message for this failure.
    pub fn message(&self) -> (r: String)
        ensures
            r@ == build_error_text(*self),
    {
        match self {
            BuildError::Launch => "Failed to build shared pipeline".to_owned(),
            BuildError::NotAPipeline => "Parsed element is not a Pipeline".to_owned(),
            BuildError::NoTee => "tee element missing from pipeline".to_owned(),
        }
    }
}

/// Why the shared pipeline was not reconfigured.
#[derive(Debug, PartialEq, Eq)]
pub enum ReconfigureError {
    /// No connected camera has this handle.
    UnknownDevice(String),
    /// The selected camera cannot deliver the parameters.
    Invalid(VideoConfigError),
    /// The replacement could not be built.
    Build(BuildError),
    /// The replacement could not be started.
    Start,
}

/// What a `ReconfigureError` holds.
pub enum ReconfigureErrorView {
    UnknownDevice(Seq<char>),
    Invalid(VideoConfigErrorView),
    Build(BuildError),
    Start,
}

impl View for ReconfigureError {
    type V = ReconfigureErrorView;

    open spec fn view(&self) -> ReconfigureErrorView {
        match *self {
            ReconfigureError::UnknownDevice(id) => ReconfigureErrorView::UnknownDevice(id@),
            ReconfigureError::Invalid(e) => ReconfigureErrorView::Invalid(e@),
            ReconfigureError::Build(e) => ReconfigureErrorView::Build(e),
            ReconfigureError::Start => ReconfigureErrorView::Start,
        }
    }
}

/// The message for a reconfiguration that failed.
pub open spec fn reconfigure_error_text(e: ReconfigureErrorView) -> Seq<char> {
    match e {
        ReconfigureErrorView::UnknownDevice(id) => "unknown camera device: "@ + id,
        ReconfigureErrorView::Invalid(e) => video_error_text(e),
        ReconfigureErrorView::Build(e) => build_error_text(e),
        ReconfigureErrorView::Start => "Failed to start reconfigured pipeline"@,
    }
}

impl ReconfigureError {
    /// The message for this failure.
    pub fn message(&self) -> (r: String)
        ensures
            r@ == reconfigure_error_text(self@),
    {
        match self {
            ReconfigureError::UnknownDevice(id) => {
                let mut s = "unknown camera device: ".to_owned();
                s.append(id.as_str());
                s
            },
            ReconfigureError::Invalid(e) => e.message(),
            ReconfigureError::Build(e) => e.message(),
            ReconfigureError::Start => "Failed to start reconfigured pipeline".to_owned(),
        }
    }
}

/// The backend whose cameras the pipeline's source can open, `None` for any.
pub open spec fn source_api(platform: Platform) -> Option<Seq<char>> {
    match platform {
        Platform::Windows => Some("mediafoundation"@),
        Platform::Other => None,
    }
}

/// The backend whose cameras the pipeline's source can open.
pub fn device_api(platform: Platform) -> (r: Option<&'static str>)
    ensures
        opt_str(r) == source_api(platform),
{
    match platform {
        Platform::Windows => Some("mediafoundation"),
        Platform::Other => None,
    }
}

/// The default parameters, on the camera `first`.
pub open spec fn default_config_on(first: CameraDeviceView, platform: Platform) -> VideoConfigView {
    VideoConfigView {
        device_id: if first.id.len() > 0 {
            Some(first.id)
        } else {
            None
        },
        ..default_config(platform)
    }
}

/// The parameters that the server starts with: the default ones on the first
/// camera, at a mode that it lists if it lists any.
pub open spec fn initial_config(
    devices: Seq<CameraDeviceView>,
    platform: Platform,
) -> VideoConfigView {
    if devices.len() == 0 {
        default_config(platform)
    } else {
        let first = devices[0];
        let base = default_config_on(first, platform);
        if first.caps.len() > 0 {
            picked_config(first.caps, base)
        } else {
            base
        }
    }
}

/// Why `cfg` is refused when the cameras `devices` are connected, or `None` if it is
/// accepted. A handle that no camera has is refused, unless no cameras are known;
/// then the parameters are held against the modes of the selected camera.
pub open spec fn refusal(devices: Seq<CameraDeviceView>, cfg: VideoConfigView) -> Option<
    ReconfigureErrorView,
> {
    let id = text_or_empty(cfg.device_id);
    if id.len() > 0 && devices.len() > 0 && !is_known(devices, id) {
        Some(ReconfigureErrorView::UnknownDevice(id))
    } else {
        match validation(cfg, selected_caps(devices, cfg.device_id)) {
            Some(e) => Some(ReconfigureErrorView::Invalid(e)),
            None => None,
        }
    }
}

/// What a `SharedPipeline` holds.
pub struct SharedPipelineView {
    pub platform: Platform,
    pub source: VideoSource,
    pub devices: Seq<CameraDeviceView>,
    pub config: VideoConfigView,
}

/// Whether the running parameters are ones that are accepted.
pub open spec fn is_sound(p: SharedPipelineView) -> bool {
    refusal(p.devices, p.config) is None
}

/// Whether `devices` is what the probe on `platform` lists. A probe that failed
/// lists nothing.
pub open spec fn is_probe_result(
    reports: Option<Vec<DeviceReport>>,
    platform: Platform,
    devices: Seq<CameraDeviceView>,
) -> bool {
    match reports {
        Some(reports) => is_probe_of(reports@, source_api(platform), devices),
        None => devices.len() == 0,
    }
}

/// The cameras that the probe on `platform` lists.
pub open spec fn probed_devices(
    reports: Option<Vec<DeviceReport>>,
    platform: Platform,
) -> Seq<CameraDeviceView> {
    choose|devices: Seq<CameraDeviceView>| is_probe_result(reports, platform, devices)
}

proof fn lemma_probed_devices(
    reports: Option<Vec<DeviceReport>>,
    platform: Platform,
    devices: Seq<CameraDeviceView>,
)
    requires
        is_probe_result(reports, platform, devices),
    ensures
        devices == probed_devices(reports, platform),
        is_probe_result(reports, platform, probed_devices(reports, platform)),
{
    let chosen = probed_devices(reports, platform);
    if let Some(r) = reports {
        law_probe_is_unique(r@, source_api(platform), devices, chosen);
    }
}

/// The state that the server starts with on `platform` with the cameras `devices`.
pub open spec fn initial_state(
    platform: Platform,
    source: VideoSource,
    devices: Seq<CameraDeviceView>,
) -> SharedPipelineView {
    SharedPipelineView { platform, source, devices, config: initial_config(devices, platform) }
}

/// The state of the shared capture and encode chain: the connected cameras and the
/// parameters that it runs with.
#[derive(Debug)]
pub struct SharedPipeline {
    platform: Platform,
    source: VideoSource,
    devices: Vec<CameraDevice>,
    config: VideoConfig,
}

impl View for SharedPipeline {
    type V = SharedPipelineView;

    closed spec fn view(&self) -> SharedPipelineView {
        SharedPipelineView {
            platform: self.platform,
            source: self.source,
            devices: devices_view(self.devices@),
            config: self.config@,
        }
    }
}

/// A request for new parameters, and how the outside work that it may need goes:
/// building the replacement, and starting it.
pub struct ReconfigureRequest {
    pub config: VideoConfigView,
    pub build: Result<(), BuildError>,
    pub starts: bool,
}

/// What comes of a request: the state after it, and the answer. `Ok(true)` stands
/// for a pipeline that was replaced, `Ok(false)` for one that was left as it is.
pub open spec fn reconfigured(p: SharedPipelineView, request: ReconfigureRequest) -> (
    SharedPipelineView,
    Result<bool, ReconfigureErrorView>,
) {
    match refusal(p.devices, request.config) {
        Some(e) => (p, Err(e)),
        None => if request.config == p.config {
            (p, Ok(false))
        } else {
            match request.build {
                Err(e) => (p, Err(ReconfigureErrorView::Build(e))),
                Ok(_) => if request.starts {
                    (SharedPipelineView { config: request.config, ..p }, Ok(true))
                } else {
                    (p, Err(ReconfigureErrorView::Start))
                },
            }
        },
    }
}

/// The text that the pipeline in the state `p` is built from.
pub open spec fn running_text(p: SharedPipelineView) -> Seq<char> {
    pipeline_text(p.config, p.platform, p.source)
}

/// What is decided on new parameters: they are refused, or nothing is to be done, or a
/// replacement with these parameters is to be built from this text.
pub open spec fn decision(p: SharedPipelineView, config: VideoConfigView) -> Result<
    Option<(VideoConfigView, Seq<char>)>,
    ReconfigureErrorView,
> {
    match refusal(p.devices, config) {
        Some(e) => Err(e),
        None => if config == p.config {
            Ok(None)
        } else {
            Ok(Some((config, running_text(SharedPipelineView { config, ..p }))))
        },
    }
}

/// A replacement pipeline that is to be built.
#[derive(Debug)]
pub struct Rebuild {
    config: VideoConfig,
    description: String,
}

/// A replacement pipeline that is built and is to be started.
#[derive(Debug)]
pub struct BuiltPipeline {
    config: VideoConfig,
}

/// A replacement pipeline that runs and is to take the place of the old one.
#[derive(Debug)]
pub struct StartedPipeline {
    config: VideoConfig,
}

impl View for BuiltPipeline {
    type V = VideoConfigView;

    closed spec fn view(&self) -> VideoConfigView {
        self.config@
    }
}

impl View for StartedPipeline {
    type V = VideoConfigView;

    closed spec fn view(&self) -> VideoConfigView {
        self.config@
    }
}

impl Rebuild {
    /// The parameters of the replacement.
    pub closed spec fn config(&self) -> VideoConfigView {
        self.config@
    }

    /// The text that the replacement is built from.
    pub closed spec fn text(&self) -> Seq<char> {
        self.description@
    }

    /// The text that the replacement is built from.
    pub fn description(&self) -> (r: &str)
        ensures
            r@ == self.text(),
    {
        self.description.as_str()
    }

    /// Goes on once the replacement was built, or gives up.
    pub fn built(self, outcome: Result<(), BuildError>) -> (r: Result<
        BuiltPipeline,
        ReconfigureError,
    >)
        ensures
            match r {
                Ok(next) => outcome is Ok && next@ == self.config(),
                Err(e) => outcome matches Err(cause) && e@ == ReconfigureErrorView::Build(cause),
            },
    {
        match outcome {
            Ok(()) => Ok(BuiltPipeline { config: self.config }),
            Err(cause) => Err(ReconfigureError::Build(cause)),
        }
    }
}

impl BuiltPipeline {
    /// Goes on once the replacement was started, or gives up.
    pub fn started(self, started: bool) -> (r: Result<StartedPipeline, ReconfigureError>)
        ensures
            match r {
                Ok(next) => started && next@ == self@,
                Err(e) => !started && e@ == ReconfigureErrorView::Start,
            },
    {
        if started {
            Ok(StartedPipeline { config: self.config })
        } else {
            Err(ReconfigureError::Start)
        }
    }
}

impl SharedPipeline {
    /// The state that the server starts with, from what the connected cameras
    /// report. `None` stands for a probe that failed: the server then runs without a
    /// list of cameras.
    pub fn new(
        platform: Platform,
        source: VideoSource,
        reports: Option<Vec<DeviceReport>>,
    ) -> (r: Result<SharedPipeline, VideoConfigError>)
        ensures
            is_probe_result(reports, platform, probed_devices(reports, platform)),
            match r {
                Ok(p) => p@ == initial_state(
                    platform,
                    source,
                    probed_devices(reports, platform),
                ) && is_sound(p@),
                Err(e) => refusal(
                    probed_devices(reports, platform),
                    initial_config(probed_devices(reports, platform), platform),
                ) == Some(ReconfigureErrorView::Invalid(e@)),
            },
    {
        let devices = match &reports {
            Some(reports) => probe_cameras(reports, device_api(platform)),
            None => Vec::new(),
        };
        let ghost listed = devices_view(devices@);
        proof {
            lemma_probed_devices(reports, platform, listed);
        }
        let mut config = VideoConfig::default_for(platform);
        if devices.len() > 0 {
            if !devices[0].id.as_str().is_empty() {
                config.device_id = Some(devices[0].id.clone());
            }
            if devices[0].caps.len() > 0 {
                config = pick_default_config(devices[0].caps.as_slice(), &config);
            }
        }
        let device_id: Option<&str> = match &config.device_id {
            Some(id) => Some(id.as_str()),
            None => None,
        };
        assert(text_or_empty(config@.device_id).len() > 0 && listed.len() > 0 ==> is_known(
            listed,
            text_or_empty(config@.device_id),
        ));
        match config.validate(caps_for(devices.as_slice(), device_id)) {
            Ok(()) => Ok(SharedPipeline { platform, source, devices, config }),
            Err(e) => Err(e),
        }
    }

    /// The connected cameras and their capture modes.
    pub fn devices(&self) -> (r: Vec<CameraDevice>)
        ensures
            devices_view(r@) == self@.devices,
    {
        self.devices.clone()
    }

    /// The current parameters.
    pub fn config(&self) -> (r: VideoConfig)
        ensures
            r@ == self@.config,
    {
        self.config.clone()
    }

    /// The text that the pipeline with the current parameters is built from.
    pub fn description(&self) -> (r: String)
        ensures
            r@ == running_text(self@),
            r@ == pipeline_text(self@.config, self@.platform, self@.source),
    {
        build_pipeline(&self.config, self.platform, self.source)
    }

    /// Refuses parameters with which no pipeline can run on the connected cameras.
    fn accept(&self, config: &VideoConfig) -> (r: Result<(), ReconfigureError>)
        ensures
            match r {
                Ok(_) => refusal(self@.devices, config@) is None,
                Err(e) => refusal(self@.devices, config@) == Some(e@),
            },
    {
        let device_id: Option<&str> = match &config.device_id {
            Some(id) => Some(id.as_str()),
            None => None,
        };
        if let Some(id) = device_id {
            if !id.is_empty() && self.devices.len() > 0 {
                if find_device(self.devices.as_slice(), id).is_none() {
                    return Err(ReconfigureError::UnknownDevice(id.to_owned()));
                }
            }
        }
        match config.validate(caps_for(self.devices.as_slice(), device_id)) {
            Ok(()) => Ok(()),
            Err(e) => Err(ReconfigureError::Invalid(e)),
        }
    }

    /// Decides on new parameters. `Ok(None)` if they are the current ones: the
    /// running pipeline stays as it is. Otherwise the replacement is to be built and
    /// started before it is installed, so that parameters that turn out bad leave
    /// the running pipeline intact.
    pub fn reconfigure(&self, new_config: VideoConfig) -> (r: Result<
        Option<Rebuild>,
        ReconfigureError,
    >)
        ensures
            match r {
                Err(e) => refusal(self@.devices, new_config@) == Some(e@),
                Ok(None) => refusal(self@.devices, new_config@) is None && new_config@
                    == self@.config,
                Ok(Some(rebuild)) => {
                    &&& refusal(self@.devices, new_config@) is None
                    &&& new_config@ != self@.config
                    &&& rebuild.config() == new_config@
                    &&& rebuild.text() == pipeline_text(
                        new_config@,
                        self@.platform,
                        self@.source,
                    )
                },
            },
            match r {
                Err(e) => decision(self@, new_config@) == Err::<
                    Option<(VideoConfigView, Seq<char>)>,
                    ReconfigureErrorView,
                >(e@),
                Ok(None) => decision(self@, new_config@) == Ok::<
                    Option<(VideoConfigView, Seq<char>)>,
                    ReconfigureErrorView,
                >(None),
                Ok(Some(rebuild)) => decision(self@, new_config@) == Ok::<
                    Option<(VideoConfigView, Seq<char>)>,
                    ReconfigureErrorView,
                >(Some((rebuild.config(), rebuild.text()))),
            },
    {
        self.accept(&new_config)?;
        if self.config.same(&new_config) {
            return Ok(None);
        }
        let description = build_pipeline(&new_config, self.platform, self.source);
        Ok(Some(Rebuild { config: new_config, description }))
    }

    /// Puts a started replacement in the place of the running pipeline, which is
    /// then to be stopped, and returns the parameters of the latter. A replacement
    /// that was decided on for the same cameras is always taken; one that is refused
    /// leaves the running pipeline as it is.
    pub fn install(&mut self, started: StartedPipeline) -> (r: Result<
        VideoConfig,
        ReconfigureError,
    >)
        ensures
            match r {
                Ok(retired) => {
                    &&& refusal(old(self)@.devices, started@) is None
                    &&& final(self)@ == (SharedPipelineView { config: started@, ..old(self)@ })
                    &&& is_sound(final(self)@)
                    &&& retired@ == old(self)@.config
                },
                Err(e) => {
                    &&& refusal(old(self)@.devices, started@) == Some(e@)
                    &&& final(self)@ == old(self)@
                },
            },
    {
        self.accept(&started.config)?;
        let retired = self.config.clone();
        self.config = started.config;
        Ok(retired)
    }

    /// The whole of a reconfiguration, given how the outside work goes: building the
    /// replacement, and starting it. `Ok(true)` if the pipeline was replaced,
    /// `Ok(false)` if it was left as it is.
    pub fn reconfigure_with(
        &mut self,
        new_config: VideoConfig,
        build: Result<(), BuildError>,
        starts: bool,
    ) -> (r: Result<bool, ReconfigureError>)
        ensures
            final(self)@ == reconfigured(
                old(self)@,
                ReconfigureRequest { config: new_config@, build, starts },
            ).0,
            match r {
                Ok(replaced) => reconfigured(
                    old(self)@,
                    ReconfigureRequest { config: new_config@, build, starts },
                ).1 == Ok::<bool, ReconfigureErrorView>(replaced),
                Err(e) => reconfigured(
                    old(self)@,
                    ReconfigureRequest { config: new_config@, build, starts },
                ).1 == Err::<bool, ReconfigureErrorView>(e@),
            },
            is_sound(old(self)@) ==> is_sound(final(self)@),
    {
        let rebuild = match self.reconfigure(new_config)? {
            Some(rebuild) => rebuild,
            None => {
                return Ok(false);
            },
        };
        let started = rebuild.built(build)?.started(starts)?;
        self.install(started)?;
        Ok(true)
    }

    /// How the branch of a new peer that uses the STUN server `stun` is set up.
    pub fn attach_peer(&self, stun: &str) -> (r: (BranchSettings, AttachStep))
        ensures
            settings_for(r.0, stun@),
            r.1 == AttachStep::RequestTeePad,
    {
        plan_branch(stun)
    }
}

/// The state after a run of requests.
pub open spec fn after_requests(
    p: SharedPipelineView,
    requests: Seq<ReconfigureRequest>,
) -> SharedPipelineView
    decreases requests.len(),
{
    if requests.len() == 0 {
        p
    } else {
        reconfigured(after_requests(p, requests.drop_last()), requests.last()).0
    }
}

/// A request that fails, for whatever reason, leaves the pipeline as it was.
pub proof fn law_failed_request_leaves_the_pipeline(
    p: SharedPipelineView,
    request: ReconfigureRequest,
)
    requires
        reconfigured(p, request).1 is Err,
    ensures
        reconfigured(p, request).0 == p,
{
}

/// A request for the current parameters changes nothing, and needs no outside work:
/// the answer is the same however that would go.
pub proof fn law_same_parameters_change_nothing(p: SharedPipelineView, request: ReconfigureRequest)
    requires
        is_sound(p),
        request.config == p.config,
    ensures
        reconfigured(p, request) == (p, Ok::<bool, ReconfigureErrorView>(false)),
{
}

/// The pipeline is replaced if and only if the parameters are accepted and new, and
/// the replacement is built and started. It then runs with those parameters, on the
/// same cameras.
pub proof fn law_replaced_exactly_when_all_goes_well(
    p: SharedPipelineView,
    request: ReconfigureRequest,
)
    ensures
        reconfigured(p, request).1 == Ok::<bool, ReconfigureErrorView>(true) <==> {
            &&& refusal(p.devices, request.config) is None
            &&& request.config != p.config
            &&& request.build is Ok
            &&& request.starts
        },
        reconfigured(p, request).1 == Ok::<bool, ReconfigureErrorView>(true) ==> reconfigured(
            p,
            request,
        ).0 == (SharedPipelineView { config: request.config, ..p }),
{
}

/// Whatever is requested, the pipeline always runs with accepted parameters, and the
/// list of cameras stays the same.
pub proof fn law_pipeline_stays_sound(p: SharedPipelineView, requests: Seq<ReconfigureRequest>)
    requires
        is_sound(p),
    ensures
        is_sound(after_requests(p, requests)),
        after_requests(p, requests).devices == p.devices,
        after_requests(p, requests).platform == p.platform,
        after_requests(p, requests).source == p.source,
    decreases requests.len(),
{
    if requests.len() > 0 {
        law_pipeline_stays_sound(p, requests.drop_last());
    }
}

/// Whatever is requested, if the selected camera lists modes then the pipeline runs
/// at one of them.
pub proof fn law_pipeline_runs_at_a_listed_mode(
    p: SharedPipelineView,
    requests: Seq<ReconfigureRequest>,
)
    requires
        is_sound(p),
    ensures
        ({
            let config = after_requests(p, requests).config;
            let caps = selected_caps(p.devices, config.device_id);
            caps.len() > 0 ==> lists_mode(caps, config.width, config.height, config.framerate)
        }),
{
    law_pipeline_stays_sound(p, requests);
    let config = after_requests(p, requests).config;
    law_accepted_config_can_be_delivered(config, selected_caps(p.devices, config.device_id));
}

/// On Windows every camera that is listed is one of Media Foundation, which the
/// pipeline's source can open.
pub proof fn law_listed_cameras_can_be_opened(
    reports: Option<Vec<DeviceReport>>,
    devices: Seq<CameraDeviceView>,
    i: int,
)
    requires
        is_probe_result(reports, Platform::Windows, devices),
        0 <= i < devices.len(),
    ensures
        devices[i].api == "mediafoundation"@,
{
    law_only_the_wanted_backend_is_listed(reports->0@, "mediafoundation"@, devices, i);
}

/// With no cameras, or where the probe failed, the server starts all the same.
pub proof fn law_server_starts_without_cameras(platform: Platform, source: VideoSource)
    ensures
        is_sound(initial_state(platform, source, Seq::empty())),
{
    law_default_config_is_accepted(platform);
}

proof fn lemma_first_camera_is_selected(devices: Seq<CameraDeviceView>, platform: Platform)
    requires
        devices.len() > 0,
    ensures
        ({
            let config = initial_config(devices, platform);
            &&& selected_caps(devices, config.device_id) == devices[0].caps
            &&& text_or_empty(config.device_id) == devices[0].id
            &&& is_known(devices, devices[0].id)
        }),
{
    let config = initial_config(devices, platform);
    let id = text_or_empty(config.device_id);
    assert(id =~= devices[0].id);
    assert(is_first_with_id(devices, id, 0));
}

/// On a camera that lists no modes the server starts with the default parameters.
pub proof fn law_server_starts_on_a_camera_without_modes(
    platform: Platform,
    source: VideoSource,
    devices: Seq<CameraDeviceView>,
)
    requires
        devices.len() > 0,
        devices[0].caps.len() == 0,
    ensures
        is_sound(initial_state(platform, source, devices)),
{
    lemma_first_camera_is_selected(devices, platform);
}

/// On a probed camera that lists a mode at 30 frames per second the server starts,
/// at 30 frames per second and at a mode that the camera lists.
pub proof fn law_server_starts_at_thirty_frames(
    reports: Option<Vec<DeviceReport>>,
    platform: Platform,
    source: VideoSource,
    devices: Seq<CameraDeviceView>,
    k: int,
)
    requires
        is_probe_result(reports, platform, devices),
        devices.len() > 0,
        0 <= k < devices[0].caps.len(),
        devices[0].caps[k].framerate == 30,
    ensures
        is_sound(initial_state(platform, source, devices)),
        initial_config(devices, platform).framerate == 30,
{
    lemma_first_camera_is_selected(devices, platform);
    let caps = devices[0].caps;
    let base = default_config_on(devices[0], platform);
    let config = initial_config(devices, platform);
    law_picked_mode_is_listed(caps, base);
    law_picked_framerate_is_kept(caps, base, k);
    law_picking_keeps_the_rest(caps, base);
    let i = choose|i: int|
        0 <= i < caps.len() && mode_matches(
            #[trigger] caps[i],
            config.width,
            config.height,
            config.framerate,
        );
    law_listed_modes_are_positive(reports->0@, source_api(platform), devices, 0, i);
}

/// On a probed camera that lists modes, all at no more than 240 frames per second,
/// the server starts, at a mode that the camera lists.
pub proof fn law_server_starts_at_a_listed_mode(
    reports: Option<Vec<DeviceReport>>,
    platform: Platform,
    source: VideoSource,
    devices: Seq<CameraDeviceView>,
)
    requires
        is_probe_result(reports, platform, devices),
        devices.len() > 0,
        devices[0].caps.len() > 0,
        forall|k: int|
            0 <= k < devices[0].caps.len() ==> (#[trigger] devices[0].caps[k]).framerate <= 240,
    ensures
        is_sound(initial_state(platform, source, devices)),
        ({
            let config = initial_config(devices, platform);
            lists_mode(devices[0].caps, config.width, config.height, config.framerate)
        }),
{
    lemma_first_camera_is_selected(devices, platform);
    let caps = devices[0].caps;
    let base = default_config_on(devices[0], platform);
    let config = initial_config(devices, platform);
    law_picked_mode_is_listed(caps, base);
    law_picking_keeps_the_rest(caps, base);
    let i = choose|i: int|
        0 <= i < caps.len() && mode_matches(
            #[trigger] caps[i],
            config.width,
            config.height,
            config.framerate,
        );
    law_listed_modes_are_positive(reports->0@, source_api(platform), devices, 0, i);
}

/// A replacement is undone by asking for the parameters before it.
pub proof fn law_replacement_can_be_undone(p: SharedPipelineView, request: ReconfigureRequest)
    requires
        is_sound(p),
        reconfigured(p, request).1 == Ok::<bool, ReconfigureErrorView>(true),
    ensures
        reconfigured(
            reconfigured(p, request).0,
            ReconfigureRequest { config: p.config, build: Ok(()), starts: true },
        ) == (p, Ok::<bool, ReconfigureErrorView>(true)),
{
}

/// Parameters are accepted if and only if a camera with their handle is connected, or
/// they have none, or no cameras are known, and they are valid for the modes of the
/// camera that they select. A handle that no camera has is refused as such, before
/// anything else is looked at; every other refusal is that of the validation.
pub proof fn law_accepted_exactly_when_the_camera_can_deliver(
    devices: Seq<CameraDeviceView>,
    cfg: VideoConfigView,
)
    ensures
        ({
            let known = cfg.device_id is None || cfg.device_id->0.len() == 0 || devices.len() == 0
                || exists|i: int|
                0 <= i < devices.len() && (#[trigger] devices[i]).id == cfg.device_id->0;
            let fault = validation(cfg, selected_caps(devices, cfg.device_id));
            &&& refusal(devices, cfg) is None <==> known && fault is None
            &&& !known ==> refusal(devices, cfg) == Some(
                ReconfigureErrorView::UnknownDevice(cfg.device_id->0),
            )
            &&& known && fault is Some ==> refusal(devices, cfg) == Some(
                ReconfigureErrorView::Invalid(fault->0),
            )
        }),
{
}

/// What comes of a request, step by step: parameters that are refused are answered with
/// the refusal, the current ones with `Ok(false)`, a replacement that cannot be built or
/// started with that failure; and only where none of these holds is the pipeline
/// replaced, by one with the parameters asked for and nothing else changed.
pub proof fn law_outcome_of_a_request(p: SharedPipelineView, request: ReconfigureRequest)
    ensures
        ({
            let (after, answer) = reconfigured(p, request);
            let fault = refusal(p.devices, request.config);
            let same = request.config == p.config;
            &&& fault is Some ==> answer == Err::<bool, ReconfigureErrorView>(fault->0)
            &&& fault is None && same ==> answer == Ok::<bool, ReconfigureErrorView>(false)
            &&& fault is None && !same && request.build is Err ==> answer == Err::<
                bool,
                ReconfigureErrorView,
            >(ReconfigureErrorView::Build(request.build->Err_0))
            &&& fault is None && !same && request.build is Ok && !request.starts ==> answer
                == Err::<bool, ReconfigureErrorView>(ReconfigureErrorView::Start)
            &&& fault is None && !same && request.build is Ok && request.starts ==> answer == Ok::<
                bool,
                ReconfigureErrorView,
            >(true)
            &&& after.platform == p.platform && after.source == p.source && after.devices
                == p.devices
            &&& after.config == (if answer == Ok::<bool, ReconfigureErrorView>(true) {
                request.config
            } else {
                p.config
            })
        }),
{
}

/// Requests take effect one after the other.
pub proof fn law_requests_take_effect_in_turn(
    p: SharedPipelineView,
    requests: Seq<ReconfigureRequest>,
    request: ReconfigureRequest,
)
    ensures
        after_requests(p, Seq::empty()) == p,
        after_requests(p, requests.push(request)) == reconfigured(
            after_requests(p, requests),
            request,
        ).0,
{
    assert(requests.push(request).drop_last() =~= requests);
}

/// The server starts on the first camera, by its handle if it has one, with the
/// bitrate and the format of the default parameters; at 1080p and 30 frames per second
/// if the camera lists that or lists nothing, and without cameras with the default
/// parameters.
pub proof fn law_server_starts_on_the_first_camera(
    devices: Seq<CameraDeviceView>,
    platform: Platform,
    k: int,
)
    ensures
        ({
            let config = initial_config(devices, platform);
            &&& devices.len() == 0 ==> config.device_id is None
            &&& devices.len() > 0 && devices[0].id.len() > 0 ==> config.device_id == Some(
                devices[0].id,
            )
            &&& devices.len() > 0 && devices[0].id.len() == 0 ==> config.device_id is None
            &&& config.bitrate_kbps == 6000
            &&& config.format == (if platform == Platform::Windows {
                "NV12"@
            } else {
                "I420"@
            })
            &&& devices.len() == 0 || devices[0].caps.len() == 0 || (0 <= k
                < devices[0].caps.len() && devices[0].caps[k].width == 1920
                && devices[0].caps[k].height == 1080 && devices[0].caps[k].framerate == 30)
                ==> config.width == 1920 && config.height == 1080 && config.framerate == 30
        }),
{
    if devices.len() > 0 {
        let base = default_config_on(devices[0], platform);
        law_picking_keeps_the_rest(devices[0].caps, base);
        if 0 <= k < devices[0].caps.len() && devices[0].caps[k].width == 1920
            && devices[0].caps[k].height == 1080 && devices[0].caps[k].framerate == 30 {
            law_listed_base_is_kept(devices[0].caps, base, k);
        }
    }
}

/// On a camera that lists modes, but not 1080p at 30 frames per second, the server
/// starts at the mode that is picked from them, with the default parameters for base.
pub proof fn law_server_starts_at_the_picked_mode(
    devices: Seq<CameraDeviceView>,
    platform: Platform,
    base: VideoConfigView,
)
    requires
        devices.len() > 0,
        devices[0].caps.len() > 0,
        base.width == 1920 && base.height == 1080 && base.framerate == 30,
        base.bitrate_kbps == 6000,
        base.format == default_config(platform).format,
        base.device_id == (if devices[0].id.len() > 0 {
            Some(devices[0].id)
        } else {
            None
        }),
    ensures
        initial_config(devices, platform) == picked_config(devices[0].caps, base),
{
    assert(base == default_config_on(devices[0], platform));
}

/// The state that the server starts with holds the platform, the source and all the
/// cameras that were probed.
pub proof fn law_server_starts_with_all_cameras(
    platform: Platform,
    source: VideoSource,
    devices: Seq<CameraDeviceView>,
)
    ensures
        initial_state(platform, source, devices).platform == platform,
        initial_state(platform, source, devices).source == source,
        initial_state(platform, source, devices).devices == devices,
        initial_state(platform, source, devices).config == initial_config(devices, platform),
{
}

/// A probe lists every camera of the backend that the pipeline can open: on Windows
/// those of Media Foundation, elsewhere all. One that failed lists none.
pub proof fn law_every_camera_that_can_be_opened_is_listed(
    reports: Option<Vec<DeviceReport>>,
    platform: Platform,
    devices: Seq<CameraDeviceView>,
    k: int,
)
    requires
        is_probe_result(reports, platform, devices),
    ensures
        reports is None ==> devices.len() == 0,
        reports is Some && 0 <= k < reports->0@.len() && (platform == Platform::Other || (
        reports->0@[k].api is Some && reports->0@[k].api->0@ == "mediafoundation"@)) ==> exists|
            j: int,
        |
            0 <= j < devices.len() && (#[trigger] devices[j]).name == reports->0@[k].name@ && (
            match reports->0@[k].path {
                Some(path) => devices[j].id == path@,
                None => devices[j].id.len() == 0,
            }),
        reports is Some && platform == Platform::Other ==> devices.len() == reports->0@.len(),
{
    if let Some(r) = reports {
        law_every_wanted_camera_is_listed(r@, source_api(platform), devices);
        let pick = choose|pick: Seq<int>| #![trigger pick.len()]
            {
                &&& pick.len() == devices.len()
                &&& forall|i: int, j: int|
                    0 <= i < j < pick.len() ==> #[trigger] pick[i] < #[trigger] pick[j]
                &&& forall|k: int|
                    0 <= k < r@.len() ==> (#[trigger] pick.contains(k) <==> match source_api(
                        platform,
                    ) {
                        Some(wanted) => match r@[k].api {
                            Some(api) => api@ == wanted,
                            None => wanted.len() == 0,
                        },
                        None => true,
                    })
                &&& forall|j: int|
                    0 <= j < pick.len() ==> {
                        let report = r@[#[trigger] pick[j]];
                        &&& 0 <= pick[j] < r@.len()
                        &&& describes(report, devices[j])
                        &&& devices[j].name == report.name@
                        &&& match report.path {
                            Some(path) => devices[j].id == path@,
                            None => devices[j].id.len() == 0,
                        }
                        &&& match report.api {
                            Some(api) => devices[j].api == api@,
                            None => devices[j].api.len() == 0,
                        }
                    }
            };
        if 0 <= k < r@.len() && (platform == Platform::Other || (r@[k].api is Some && r@[k].api->0@
            == "mediafoundation"@)) {
            assert(pick.contains(k));
            let j = choose|j: int| 0 <= j < pick.len() && pick[j] == k;
            assert(devices[j].name == r@[k].name@);
        }
        if platform == Platform::Other {
            lemma_all_wanted(r@);
        }
    }
}

proof fn lemma_all_wanted(reports: Seq<DeviceReport>)
    ensures
        wanted_reports(reports, None).len() == reports.len(),
    decreases reports.len(),
{
    if reports.len() > 0 {
        lemma_all_wanted(reports.drop_last());
    }
}

/// The message for a camera that is not known names its handle, and every other message
/// is that of what failed.
pub proof fn law_messages_of_failed_requests(id: Seq<char>, e: VideoConfigErrorView, b: BuildError)
    ensures
        reconfigure_error_text(ReconfigureErrorView::UnknownDevice(id))
            == "unknown camera device: "@ + id,
        reconfigure_error_text(ReconfigureErrorView::Invalid(e)) == video_error_text(e),
        reconfigure_error_text(ReconfigureErrorView::Build(b)) == build_error_text(b),
{
}

/// A replacement is decided on exactly for parameters that are accepted and new. It is
/// built with all that was asked for: from the text of a pipeline on the same platform
/// and source that runs with these parameters.
pub proof fn law_replacement_is_built_as_asked_for(p: SharedPipelineView, config: VideoConfigView)
    ensures
        match decision(p, config) {
            Ok(Some((built, text))) => {
                &&& refusal(p.devices, config) is None && config != p.config
                &&& built == config
                &&& text == pipeline_text(config, p.platform, p.source)
            },
            Ok(None) => refusal(p.devices, config) is None && config == p.config,
            Err(e) => refusal(p.devices, config) == Some(e),
        },
        running_text(p) == pipeline_text(p.config, p.platform, p.source),
{
}

} // verus!
