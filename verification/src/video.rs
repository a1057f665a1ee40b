//! Video parameters and their validation.

use vstd::prelude::*;

use crate::camera::{caps_view, CameraCap, CameraCapView};
use crate::text::{debug_text, decimal, opt_text, push_decimal, quoted, same_opt, same_text};

verus! {

/// The operating system family that the capture and encode chain is built for.
#[derive(Debug, Clone, Copy, PartialEq, Eq, Structural)]
pub enum Platform {
    /// Media Foundation camera, encoded by `mfh264enc`.
    Windows,
    /// Video4Linux camera that delivers MJPEG, encoded by `x264enc`.
    Other,
}

/// Where the pictures come from.
#[derive(Debug, Clone, Copy, PartialEq, Eq, Structural)]
pub enum VideoSource {
    Camera,
    /// A synthetic picture, so that the server runs with no camera.
    TestPattern,
}

/// Mutable video parameters of the shared capture and encode chain.
#[derive(Debug, PartialEq)]
pub struct VideoConfig {
    pub width: u32,
    pub height: u32,
    pub framerate: u32,
    pub bitrate_kbps: u32,
    /// Raw pixel format fed to the encoder, such as `I420` or `NV12`.
    pub format: String,
    /// Which camera to capture from. `None` or empty stands for the default.
    pub device_id: Option<String>,
}

/// What a `VideoConfig` holds.
pub struct VideoConfigView {
    pub width: u32,
    pub height: u32,
    pub framerate: u32,
    pub bitrate_kbps: u32,
    pub format: Seq<char>,
    pub device_id: Option<Seq<char>>,
}

impl View for VideoConfig {
    type V = VideoConfigView;

    open spec fn view(&self) -> VideoConfigView {
        VideoConfigView {
            width: self.width,
            height: self.height,
            framerate: self.framerate,
            bitrate_kbps: self.bitrate_kbps,
            format: self.format@,
            device_id: opt_text(self.device_id),
        }
    }
}

impl Clone for VideoConfig {
    fn clone(&self) -> (r: Self)
        ensures
            r@ == self@,
    {
        VideoConfig {
            width: self.width,
            height: self.height,
            framerate: self.framerate,
            bitrate_kbps: self.bitrate_kbps,
            format: self.format.clone(),
            device_id: self.device_id.clone(),
        }
    }
}

/// Why a `VideoConfig` is refused.
#[derive(Debug, PartialEq, Eq)]
pub enum VideoConfigError {
    /// Width or height is zero.
    ZeroSize,
    /// The framerate is not one of 1 to 240.
    Framerate,
    /// The bitrate is not one of 1 to 100000.
    Bitrate,
    /// The pixel format, which this holds, is none that the encoder takes.
    Format(String),
    /// The camera lists no mode of this size and framerate.
    Unsupported { width: u32, height: u32, framerate: u32 },
    /// The camera lists no modes, and the size is above 8K.
    TooLarge,
}

/// What a `VideoConfigError` holds.
pub enum VideoConfigErrorView {
    ZeroSize,
    Framerate,
    Bitrate,
    Format(Seq<char>),
    Unsupported { width: u32, height: u32, framerate: u32 },
    TooLarge,
}

impl View for VideoConfigError {
    type V = VideoConfigErrorView;

    open spec fn view(&self) -> VideoConfigErrorView {
        match *self {
            VideoConfigError::ZeroSize => VideoConfigErrorView::ZeroSize,
            VideoConfigError::Framerate => VideoConfigErrorView::Framerate,
            VideoConfigError::Bitrate => VideoConfigErrorView::Bitrate,
            VideoConfigError::Format(f) => VideoConfigErrorView::Format(f@),
            VideoConfigError::Unsupported { width, height, framerate } => {
                VideoConfigErrorView::Unsupported { width, height, framerate }
            },
            VideoConfigError::TooLarge => VideoConfigErrorView::TooLarge,
        }
    }
}

/// The message for a format that is refused, given its quoted text.
pub open spec fn format_message_text(quoted: Seq<char>) -> Seq<char> {
    "format must be one of [\"I420\", \"NV12\", \"YUY2\", \"BGRA\"], got "@ + quoted
}

/// The message for a size and framerate that the camera does not list.
pub open spec fn unsupported_text(width: u32, height: u32, framerate: u32) -> Seq<char> {
    "camera does not support "@ + decimal(width as nat) + "x"@ + decimal(height as nat) + " @ "@
        + decimal(framerate as nat) + "fps; pick a listed mode"@
}

/// The message for a refusal.
pub open spec fn video_error_text(e: VideoConfigErrorView) -> Seq<char> {
    match e {
        VideoConfigErrorView::ZeroSize => "width/height must be non-zero"@,
        VideoConfigErrorView::Framerate => "framerate must be 1..=240"@,
        VideoConfigErrorView::Bitrate => "bitrate_kbps must be 1..=100000"@,
        VideoConfigErrorView::Format(f) => format_message_text(debug_text(f)),
        VideoConfigErrorView::Unsupported { width, height, framerate } => {
            unsupported_text(width, height, framerate)
        },
        VideoConfigErrorView::TooLarge => "resolution above 8K is not allowed"@,
    }
}

/// The message for a format that is refused, given its quoted text.
pub fn format_message(quoted: &str) -> (r: String)
    ensures
        r@ == format_message_text(quoted@),
{
    let mut s = "format must be one of [\"I420\", \"NV12\", \"YUY2\", \"BGRA\"], got ".to_owned();
    s.append(quoted);
    s
}

impl VideoConfigError {
    /// The message for this refusal.
    pub fn message(&self) -> (r: String)
        ensures
            r@ == video_error_text(self@),
    {
        match self {
            VideoConfigError::ZeroSize => "width/height must be non-zero".to_owned(),
            VideoConfigError::Framerate => "framerate must be 1..=240".to_owned(),
            VideoConfigError::Bitrate => "bitrate_kbps must be 1..=100000".to_owned(),
            VideoConfigError::Format(f) => format_message(quoted(f.as_str()).as_str()),
            VideoConfigError::Unsupported { width, height, framerate } => {
                let mut s = "camera does not support ".to_owned();
                push_decimal(&mut s, *width as u64);
                s.append("x");
                push_decimal(&mut s, *height as u64);
                s.append(" @ ");
                push_decimal(&mut s, *framerate as u64);
                s.append("fps; pick a listed mode");
                s
            },
            VideoConfigError::TooLarge => "resolution above 8K is not allowed".to_owned(),
        }
    }
}

/// The two's complement reading of `n` without a sign.
pub open spec fn without_sign(n: i32) -> u32 {
    if n >= 0 {
        n as u32
    } else {
        (n + 0x1_0000_0000) as u32
    }
}

pub(crate) fn to_unsigned(n: i32) -> (r: u32)
    ensures
        r == without_sign(n),
{
    if n >= 0 {
        n as u32
    } else {
        (n as i64 + 0x1_0000_0000) as u32
    }
}

/// Whether `c` is a mode of this size and framerate.
pub open spec fn mode_matches(c: CameraCapView, width: u32, height: u32, framerate: u32) -> bool {
    without_sign(c.width) == width && without_sign(c.height) == height && c.framerate == framerate
}

pub(crate) fn matches_mode(c: &CameraCap, width: u32, height: u32, framerate: u32) -> (r: bool)
    ensures
        r == mode_matches(c@, width, height, framerate),
{
    to_unsigned(c.width) == width && to_unsigned(c.height) == height && c.framerate == framerate
}

/// Whether the camera with the modes `caps` lists a mode of this size and
/// framerate.
pub open spec fn lists_mode(
    caps: Seq<CameraCapView>,
    width: u32,
    height: u32,
    framerate: u32,
) -> bool {
    exists|i: int| 0 <= i < caps.len() && mode_matches(#[trigger] caps[i], width, height, framerate)
}

/// Whether the encoder takes the raw pixel format `f`.
pub open spec fn format_allowed(f: Seq<char>) -> bool {
    f == "I420"@ || f == "NV12"@ || f == "YUY2"@ || f == "BGRA"@
}

/// Why a camera with the modes `caps` cannot run with `cfg`, or `None` if it can.
/// A camera that lists modes must list one of the size and framerate asked for.
/// Where none are known, sizes up to 8K are taken.
pub open spec fn validation(cfg: VideoConfigView, caps: Seq<CameraCapView>) -> Option<
    VideoConfigErrorView,
> {
    if cfg.width == 0 || cfg.height == 0 {
        Some(VideoConfigErrorView::ZeroSize)
    } else if !(1 <= cfg.framerate <= 240) {
        Some(VideoConfigErrorView::Framerate)
    } else if !(1 <= cfg.bitrate_kbps <= 100_000) {
        Some(VideoConfigErrorView::Bitrate)
    } else if !format_allowed(cfg.format) {
        Some(VideoConfigErrorView::Format(cfg.format))
    } else if caps.len() > 0 && !lists_mode(caps, cfg.width, cfg.height, cfg.framerate) {
        Some(
            VideoConfigErrorView::Unsupported {
                width: cfg.width,
                height: cfg.height,
                framerate: cfg.framerate,
            },
        )
    } else if caps.len() == 0 && (cfg.width > 7680 || cfg.height > 4320) {
        Some(VideoConfigErrorView::TooLarge)
    } else {
        None
    }
}

/// The encoder's preferred raw input format.
pub open spec fn default_format_text(platform: Platform) -> Seq<char> {
    match platform {
        Platform::Windows => "NV12"@,
        Platform::Other => "I420"@,
    }
}

/// The encoder's preferred raw input format.
pub fn default_format(platform: Platform) -> (r: &'static str)
    ensures
        r@ == default_format_text(platform),
{
    match platform {
        Platform::Windows => "NV12",
        Platform::Other => "I420",
    }
}

/// The parameters that are used where nothing else is known: 1080p at 30 frames
/// per second and 6000 kbit/s, from the default camera.
pub open spec fn default_config(platform: Platform) -> VideoConfigView {
    VideoConfigView {
        width: 1920,
        height: 1080,
        framerate: 30,
        bitrate_kbps: 6000,
        format: default_format_text(platform),
        device_id: None,
    }
}

fn is_allowed_format(f: &str) -> (r: bool)
    ensures
        r == format_allowed(f@),
{
    same_text(f, "I420") || same_text(f, "NV12") || same_text(f, "YUY2") || same_text(f, "BGRA")
}

impl VideoConfig {
    /// The parameters that are used where nothing else is known.
    pub fn default_for(platform: Platform) -> (r: VideoConfig)
        ensures
            r@ == default_config(platform),
    {
        VideoConfig {
            width: 1920,
            height: 1080,
            framerate: 30,
            bitrate_kbps: 6000,
            format: default_format(platform).to_owned(),
            device_id: None,
        }
    }

    /// Whether two configurations ask for the same.
    pub fn same(&self, other: &VideoConfig) -> (r: bool)
        ensures
            r == (self@ == other@),
    {
        self.width == other.width && self.height == other.height && self.framerate
            == other.framerate && self.bitrate_kbps == other.bitrate_kbps && self.format
            == other.format && same_opt(&self.device_id, &other.device_id)
    }

    /// Refuses parameters that the camera with the modes `caps` cannot deliver.
    pub fn validate(&self, caps: &[CameraCap]) -> (r: Result<(), VideoConfigError>)
        ensures
            match r {
                Ok(_) => validation(self@, caps_view(caps@)) is None,
                Err(e) => validation(self@, caps_view(caps@)) == Some(e@),
            },
    {
        if self.width == 0 || self.height == 0 {
            return Err(VideoConfigError::ZeroSize);
        }
        if self.framerate == 0 || self.framerate > 240 {
            return Err(VideoConfigError::Framerate);
        }
        if self.bitrate_kbps == 0 || self.bitrate_kbps > 100_000 {
            return Err(VideoConfigError::Bitrate);
        }
        if !is_allowed_format(self.format.as_str()) {
            return Err(VideoConfigError::Format(self.format.clone()));
        }
        if caps.len() > 0 {
            for i in 0..caps.len()
                invariant
                    self.width != 0,
                    self.height != 0,
                    1 <= self.framerate <= 240,
                    1 <= self.bitrate_kbps <= 100_000,
                    format_allowed(self.format@),
                    forall|j: int|
                        0 <= j < i ==> !mode_matches(
                            #[trigger] caps_view(caps@)[j],
                            self.width,
                            self.height,
                            self.framerate,
                        ),
            {
                if matches_mode(&caps[i], self.width, self.height, self.framerate) {
                    assert(mode_matches(
                        caps_view(caps@)[i as int],
                        self.width,
                        self.height,
                        self.framerate,
                    ));
                    return Ok(());
                }
            }
            Err(
                VideoConfigError::Unsupported {
                    width: self.width,
                    height: self.height,
                    framerate: self.framerate,
                },
            )
        } else if self.width > 7680 || self.height > 4320 {
            Err(VideoConfigError::TooLarge)
        } else {
            Ok(())
        }
    }
}

/// A configuration that is accepted for a camera that lists modes names one of
/// them, and one that is accepted where no modes are known is at most 8K.
pub proof fn law_accepted_config_can_be_delivered(cfg: VideoConfigView, caps: Seq<CameraCapView>)
    requires
        validation(cfg, caps) is None,
    ensures
        caps.len() > 0 ==> lists_mode(caps, cfg.width, cfg.height, cfg.framerate),
        caps.len() == 0 ==> cfg.width <= 7680 && cfg.height <= 4320,
        cfg.width > 0 && cfg.height > 0,
        1 <= cfg.framerate <= 240,
        1 <= cfg.bitrate_kbps <= 100_000,
        format_allowed(cfg.format),
{
}

/// The default parameters are accepted on every platform where no modes are known.
pub proof fn law_default_config_is_accepted(platform: Platform)
    ensures
        validation(default_config(platform), Seq::empty()) is None,
{
}

/// A configuration is accepted if and only if its size, framerate, bitrate and format
/// are within bounds, and its size and framerate are those of a mode in `caps`, the
/// numbers of which are compared in 32 bits, or, where `caps` is empty, its size is at
/// most 8K.
pub proof fn law_accepted_exactly_when_within_bounds_and_listed(
    cfg: VideoConfigView,
    caps: Seq<CameraCapView>,
)
    ensures
        validation(cfg, caps) is None <==> {
            &&& cfg.width != 0 && cfg.height != 0
            &&& 1 <= cfg.framerate && cfg.framerate <= 240
            &&& 1 <= cfg.bitrate_kbps && cfg.bitrate_kbps <= 100_000
            &&& cfg.format == "I420"@ || cfg.format == "NV12"@ || cfg.format == "YUY2"@
                || cfg.format == "BGRA"@
            &&& if caps.len() > 0 {
                exists|i: int|
                    0 <= i < caps.len() && ((#[trigger] caps[i]).width == cfg.width
                        || caps[i].width == cfg.width - 0x1_0000_0000) && (caps[i].height
                        == cfg.height || caps[i].height == cfg.height - 0x1_0000_0000)
                        && caps[i].framerate == cfg.framerate
            } else {
                cfg.width <= 7680 && cfg.height <= 4320
            }
        },
{
    if validation(cfg, caps) is None && caps.len() > 0 {
        let i = choose|i: int|
            0 <= i < caps.len() && mode_matches(
                #[trigger] caps[i],
                cfg.width,
                cfg.height,
                cfg.framerate,
            );
        assert(caps[i].framerate == cfg.framerate);
    }
    if caps.len() > 0 && exists|i: int|
        0 <= i < caps.len() && ((#[trigger] caps[i]).width == cfg.width || caps[i].width
            == cfg.width - 0x1_0000_0000) && (caps[i].height == cfg.height || caps[i].height
            == cfg.height - 0x1_0000_0000) && caps[i].framerate == cfg.framerate {
        let i = choose|i: int|
            0 <= i < caps.len() && ((#[trigger] caps[i]).width == cfg.width || caps[i].width
                == cfg.width - 0x1_0000_0000) && (caps[i].height == cfg.height || caps[i].height
                == cfg.height - 0x1_0000_0000) && caps[i].framerate == cfg.framerate;
        assert(mode_matches(caps[i], cfg.width, cfg.height, cfg.framerate));
    }
}

/// A refusal names what is wrong: the size, then the framerate, then the bitrate, then
/// the format, and only then the mode or the bound on the size; of several the first.
pub proof fn law_refusal_names_the_first_fault(cfg: VideoConfigView, caps: Seq<CameraCapView>)
    ensures
        ({
            let size = cfg.width != 0 && cfg.height != 0;
            let rate = 1 <= cfg.framerate && cfg.framerate <= 240;
            let bits = 1 <= cfg.bitrate_kbps && cfg.bitrate_kbps <= 100_000;
            let format = cfg.format == "I420"@ || cfg.format == "NV12"@ || cfg.format == "YUY2"@
                || cfg.format == "BGRA"@;
            let e = validation(cfg, caps);
            &&& e == Some(VideoConfigErrorView::ZeroSize) <==> !size
            &&& e == Some(VideoConfigErrorView::Framerate) <==> size && !rate
            &&& e == Some(VideoConfigErrorView::Bitrate) <==> size && rate && !bits
            &&& e == Some(VideoConfigErrorView::Format(cfg.format)) <==> size && rate && bits
                && !format
            &&& e == Some(
                VideoConfigErrorView::Unsupported {
                    width: cfg.width,
                    height: cfg.height,
                    framerate: cfg.framerate,
                },
            ) <==> size && rate && bits && format && caps.len() > 0 && !lists_mode(
                caps,
                cfg.width,
                cfg.height,
                cfg.framerate,
            )
            &&& e == Some(VideoConfigErrorView::TooLarge) <==> size && rate && bits && format
                && caps.len() == 0 && (cfg.width > 7680 || cfg.height > 4320)
        }),
{
}

/// Among the modes that a probe lists, which are all positive, the ones of a size and
/// framerate are found by comparing the numbers.
pub proof fn law_positive_modes_match_by_number(
    c: CameraCapView,
    width: u32,
    height: u32,
    framerate: u32,
)
    requires
        c.width > 0,
        c.height > 0,
    ensures
        mode_matches(c, width, height, framerate) <==> c.width == width && c.height == height
            && c.framerate == framerate,
{
}

/// The number without a sign is the same modulo 2 to the 32nd.
pub proof fn law_without_sign_keeps_the_bits(n: i32)
    ensures
        without_sign(n) as int == n || without_sign(n) as int == n + 0x1_0000_0000,
{
}

/// The message for a mode that is not listed names the size and framerate that were
/// asked for, in decimal.
pub proof fn law_unsupported_message_names_the_mode(width: u32, height: u32, framerate: u32)
    ensures
        video_error_text(VideoConfigErrorView::Unsupported { width, height, framerate })
            == "camera does not support "@ + decimal(width as nat) + "x"@ + decimal(height as nat)
            + " @ "@ + decimal(framerate as nat) + "fps; pick a listed mode"@,
{
}

/// The message for a format that is refused ends with the quoted format.
pub proof fn law_format_message_names_the_format(f: Seq<char>)
    ensures
        video_error_text(VideoConfigErrorView::Format(f))
            == "format must be one of [\"I420\", \"NV12\", \"YUY2\", \"BGRA\"], got "@
            + debug_text(f),
{
}

/// The default parameters: 1080p at 30 frames per second and 6000 kbit/s in the
/// encoder's own format, from no camera in particular.
pub proof fn law_default_config_is_full_hd(platform: Platform)
    ensures
        ({
            let c = default_config(platform);
            &&& c.width == 1920 && c.height == 1080 && c.framerate == 30
            &&& c.bitrate_kbps == 6000
            &&& c.format == (if platform == Platform::Windows {
                "NV12"@
            } else {
                "I420"@
            })
            &&& c.device_id is None
        }),
{
}

/// What is said of a configuration says all that it holds: two of which the same is
/// said ask for the same.
pub proof fn law_config_view_tells_everything(a: VideoConfig, b: VideoConfig)
    requires
        a@ == b@,
    ensures
        a.width == b.width,
        a.height == b.height,
        a.framerate == b.framerate,
        a.bitrate_kbps == b.bitrate_kbps,
        a.format@ == b.format@,
        a.device_id is Some <==> b.device_id is Some,
        a.device_id is Some ==> a.device_id->0@ == b.device_id->0@,
{
}

} // verus!
