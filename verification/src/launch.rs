//! The text from which the shared pipeline is built.

use vstd::prelude::*;

use crate::camera::CameraDeviceView;
use crate::lemmas::lemma_join_is_associative;
use crate::selection::selected_caps;
use crate::text::{decimal, digits_value, law_decimal_has_the_value, opt_str, push_decimal};
use crate::text::{replace, replaced, text_or_empty};
use crate::video::{Platform, VideoConfig, VideoConfigView, VideoSource};

verus! {

/// The ` device-path="..."` argument of the Media Foundation source, with
/// backslashes and double quotes escaped. Empty for the default camera.
pub open spec fn device_path_text(device_id: Option<Seq<char>>) -> Seq<char> {
    let path = text_or_empty(device_id);
    if path.len() > 0 {
        " device-path=\""@ + replaced(replaced(path, "\\"@, "\\\\"@), "\""@, "\\\""@) + "\""@
    } else {
        ""@
    }
}

/// The camera's device path on Video4Linux: the handle, or the first camera.
pub open spec fn device_file_text(device_id: Option<Seq<char>>) -> Seq<char> {
    let path = text_or_empty(device_id);
    if path.len() > 0 {
        path
    } else {
        "/dev/video0"@
    }
}

/// The size and framerate of `cfg` as a restriction on media.
pub open spec fn size_text(cfg: VideoConfigView) -> Seq<char> {
    "width="@ + decimal(cfg.width as nat) + ",height="@ + decimal(cfg.height as nat)
        + ",framerate="@ + decimal(cfg.framerate as nat) + "/1"@
}

/// The part of the chain that delivers pictures of the size and framerate of `cfg`.
pub open spec fn source_text(
    cfg: VideoConfigView,
    platform: Platform,
    source: VideoSource,
) -> Seq<char> {
    match (source, platform) {
        (VideoSource::TestPattern, _) => "videotestsrc is-live=true ! video/x-raw,"@ + size_text(
            cfg,
        ),
        (VideoSource::Camera, Platform::Windows) => "mfvideosrc"@ + device_path_text(cfg.device_id)
            + " ! video/x-raw,"@ + size_text(cfg),
        (VideoSource::Camera, Platform::Other) => "v4l2src device="@ + device_file_text(
            cfg.device_id,
        ) + " ! image/jpeg,"@ + size_text(cfg) + " ! jpegdec"@,
    }
}

/// The encoder at the bitrate of `cfg`.
pub open spec fn encoder_text(cfg: VideoConfigView, platform: Platform) -> Seq<char> {
    match platform {
        Platform::Windows => "mfh264enc bitrate="@ + decimal(cfg.bitrate_kbps as nat)
            + " low-latency=true"@,
        Platform::Other => "x264enc bitrate="@ + decimal(cfg.bitrate_kbps as nat)
            + " tune=zerolatency speed-preset=ultrafast"@,
    }
}

/// The capture and encode chain: the source, the conversion to the encoder's input
/// format, the encoder.
pub open spec fn head_text(
    cfg: VideoConfigView,
    platform: Platform,
    source: VideoSource,
) -> Seq<char> {
    source_text(cfg, platform, source) + " ! videoconvert ! video/x-raw,format="@ + cfg.format
        + " ! "@ + encoder_text(cfg, platform)
}

/// The name of the element that fans the stream out to the peers.
pub const TEE_NAME: &'static str = "videotee";

/// The whole chain, from the source to the element that fans the stream out.
pub open spec fn pipeline_text(
    cfg: VideoConfigView,
    platform: Platform,
    source: VideoSource,
) -> Seq<char> {
    head_text(cfg, platform, source) + " ! h264parse config-interval=-1 ! "@
        + "rtph264pay pt=96 mtu=1200 aggregate-mode=zero-latency ! "@
        + "application/x-rtp,media=video,encoding-name=H264,payload=96 ! "@
        + "tee name="@ + TEE_NAME@ + " allow-not-linked=true"@
}

/// The argument that selects a camera of Media Foundation.
pub fn device_path_arg(device_id: Option<&str>) -> (r: String)
    ensures
        r@ == device_path_text(opt_str(device_id)),
{
    if let Some(path) = device_id {
        if !path.is_empty() {
            let slashes = replace(path, "\\", "\\\\");
            let escaped = replace(slashes.as_str(), "\"", "\\\"");
            let mut s = " device-path=\"".to_owned();
            s.append(escaped.as_str());
            s.append("\"");
            return s;
        }
    }
    "".to_owned()
}

fn push_size(out: &mut String, cfg: &VideoConfig)
    ensures
        final(out)@ == old(out)@ + size_text(cfg@),
{
    out.append("width=");
    push_decimal(out, cfg.width as u64);
    out.append(",height=");
    push_decimal(out, cfg.height as u64);
    out.append(",framerate=");
    push_decimal(out, cfg.framerate as u64);
    out.append("/1");
}

/// The capture and encode chain, up to right before the parser.
pub fn capture_encode_head(cfg: &VideoConfig, platform: Platform, source: VideoSource) -> (r:
    String)
    ensures
        r@ == head_text(cfg@, platform, source),
{
    let device_id: Option<&str> = match &cfg.device_id {
        Some(id) => Some(id.as_str()),
        None => None,
    };
    let mut s = String::new();
    match source {
        VideoSource::TestPattern => {
            s.append("videotestsrc is-live=true ! video/x-raw,");
            push_size(&mut s, cfg);
        },
        VideoSource::Camera => match platform {
            Platform::Windows => {
                s.append("mfvideosrc");
                s.append(device_path_arg(device_id).as_str());
                s.append(" ! video/x-raw,");
                push_size(&mut s, cfg);
            },
            Platform::Other => {
                s.append("v4l2src device=");
                match device_id {
                    Some(id) => if id.is_empty() {
                        s.append("/dev/video0");
                    } else {
                        s.append(id);
                    },
                    None => {
                        s.append("/dev/video0");
                    },
                }
                s.append(" ! image/jpeg,");
                push_size(&mut s, cfg);
                s.append(" ! jpegdec");
            },
        },
    }
    s.append(" ! videoconvert ! video/x-raw,format=");
    s.append(cfg.format.as_str());
    s.append(" ! ");
    match platform {
        Platform::Windows => {
            s.append("mfh264enc bitrate=");
            push_decimal(&mut s, cfg.bitrate_kbps as u64);
            s.append(" low-latency=true");
        },
        Platform::Other => {
            s.append("x264enc bitrate=");
            push_decimal(&mut s, cfg.bitrate_kbps as u64);
            s.append(" tune=zerolatency speed-preset=ultrafast");
        },
    }
    s
}

/// The text from which the whole shared pipeline is built.
pub fn build_pipeline(cfg: &VideoConfig, platform: Platform, source: VideoSource) -> (r: String)
    ensures
        r@ == pipeline_text(cfg@, platform, source),
{
    let mut s = capture_encode_head(cfg, platform, source);
    s.append(" ! h264parse config-interval=-1 ! ");
    s.append("rtph264pay pt=96 mtu=1200 aggregate-mode=zero-latency ! ");
    s.append("application/x-rtp,media=video,encoding-name=H264,payload=96 ! ");
    s.append("tee name=");
    s.append(TEE_NAME);
    s.append(" allow-not-linked=true");
    s
}

/// With the test pattern the pipeline is the same whichever camera is selected.
pub proof fn law_test_pattern_uses_no_camera(
    a: VideoConfigView,
    b: VideoConfigView,
    platform: Platform,
)
    requires
        a == (VideoConfigView { device_id: a.device_id, ..b }),
    ensures
        pipeline_text(a, platform, VideoSource::TestPattern) == pipeline_text(
            b,
            platform,
            VideoSource::TestPattern,
        ),
{
}

/// No handle and an empty handle mean the same, the default camera: the parameters
/// are held against the same modes, and the pipeline is the same.
pub proof fn law_empty_handle_is_the_default_camera(
    devices: Seq<CameraDeviceView>,
    cfg: VideoConfigView,
    platform: Platform,
    source: VideoSource,
)
    requires
        cfg.device_id == Some(Seq::<char>::empty()),
    ensures
        selected_caps(devices, cfg.device_id) == selected_caps(devices, None),
        pipeline_text(cfg, platform, source) == pipeline_text(
            VideoConfigView { device_id: None, ..cfg },
            platform,
            source,
        ),
{
}

/// What a quoted argument holds: the characters up to the first double quote that
/// no backslash escapes, each escaped character for itself. `None` where the
/// argument does not end.
pub open spec fn quoted_argument(s: Seq<char>) -> Option<Seq<char>>
    decreases s.len(),
{
    if s.len() == 0 {
        None
    } else if s[0] == '"' {
        Some(Seq::empty())
    } else if s[0] == '\\' {
        if s.len() < 2 {
            None
        } else {
            match quoted_argument(s.skip(2)) {
                Some(rest) => Some(seq![s[1]] + rest),
                None => None,
            }
        }
    } else {
        match quoted_argument(s.skip(1)) {
            Some(rest) => Some(seq![s[0]] + rest),
            None => None,
        }
    }
}

/// The characters of `path`, each backslash and double quote behind a backslash.
pub open spec fn escaped(path: Seq<char>) -> Seq<char>
    decreases path.len(),
{
    if path.len() == 0 {
        Seq::empty()
    } else if path[0] == '\\' || path[0] == '"' {
        seq!['\\', path[0]] + escaped(path.skip(1))
    } else {
        seq![path[0]] + escaped(path.skip(1))
    }
}

proof fn lemma_replaced_char(s: Seq<char>, from: Seq<char>, to: Seq<char>)
    requires
        s.len() > 0,
        from.len() == 1,
    ensures
        replaced(s, from, to) == (if s[0] == from[0] {
            to
        } else {
            seq![s[0]]
        }) + replaced(s.skip(1), from, to),
{
    assert(s.subrange(0, 1) =~= seq![s[0]]);
    assert(from =~= seq![from[0]]);
}

proof fn lemma_escaped(path: Seq<char>)
    ensures
        replaced(replaced(path, "\\"@, "\\\\"@), "\""@, "\\\""@) == escaped(path),
    decreases path.len(),
{
    reveal_strlit("\\");
    reveal_strlit("\\\\");
    reveal_strlit("\"");
    reveal_strlit("\\\"");
    let once = replaced(path, "\\"@, "\\\\"@);
    if path.len() > 0 {
        let rest = path.skip(1);
        lemma_escaped(rest);
        lemma_replaced_char(path, "\\"@, "\\\\"@);
        let tail = replaced(rest, "\\"@, "\\\\"@);
        lemma_replaced_char(once, "\""@, "\\\""@);
        if path[0] == '\\' {
            lemma_replaced_char(once.skip(1), "\""@, "\\\""@);
            assert(once.skip(1).skip(1) =~= tail);
        } else {
            assert(once.skip(1) =~= tail);
        }
    }
}

proof fn lemma_escaped_reads_back(path: Seq<char>, after: Seq<char>)
    requires
        after.len() > 0,
        after[0] == '"',
    ensures
        quoted_argument(escaped(path) + after) == Some(path),
    decreases path.len(),
{
    let s = escaped(path) + after;
    if path.len() > 0 {
        let rest = path.skip(1);
        lemma_escaped_reads_back(rest, after);
        if path[0] == '\\' || path[0] == '"' {
            assert(s.skip(2) =~= escaped(rest) + after);
        } else {
            assert(s.skip(1) =~= escaped(rest) + after);
        }
    }
}

/// Whatever characters a camera's path holds, the quoted argument that names it
/// reads back as the path.
pub proof fn law_device_path_reads_back(path: Seq<char>)
    requires
        path.len() > 0,
    ensures
        ({
            let opening = " device-path=\""@;
            let arg = device_path_text(Some(path));
            &&& arg.take(opening.len() as int) == opening
            &&& quoted_argument(arg.skip(opening.len() as int)) == Some(path)
        }),
{
    let opening = " device-path=\""@;
    let arg = device_path_text(Some(path));
    lemma_escaped(path);
    reveal_strlit("\"");
    lemma_escaped_reads_back(path, "\""@);
    assert(arg.skip(opening.len() as int) =~= escaped(path) + "\""@);
}

/// The argument that names a camera of Media Foundation is its path, each backslash and
/// double quote behind a backslash, between double quotes, with nothing behind them. The
/// default camera has no argument.
pub proof fn law_device_path_stands_between_quotes(path: Seq<char>)
    ensures
        path.len() > 0 ==> device_path_text(Some(path)) == " device-path=\""@ + escaped(path)
            + "\""@,
        device_path_text(Some(Seq::empty())).len() == 0,
        device_path_text(None).len() == 0,
{
    reveal_strlit("");
    lemma_escaped(path);
}

/// A path without backslashes and double quotes is written as it is.
pub proof fn law_plain_device_path_is_kept(path: Seq<char>)
    requires
        forall|i: int| 0 <= i < path.len() ==> #[trigger] path[i] != '\\' && path[i] != '"',
    ensures
        escaped(path) == path,
    decreases path.len(),
{
    if path.len() > 0 {
        law_plain_device_path_is_kept(path.skip(1));
        assert(path =~= seq![path[0]] + path.skip(1));
    }
}

proof fn lemma_same_numbers(a: nat, x: Seq<char>, b: nat, y: Seq<char>)
    requires
        decimal(a) + x == decimal(b) + y,
        x.len() > 0,
        y.len() > 0,
        !('0' as int <= x[0] as int <= '9' as int),
        !('0' as int <= y[0] as int <= '9' as int),
    ensures
        a == b,
        x == y,
{
    law_decimal_has_the_value(a);
    law_decimal_has_the_value(b);
    let (c, d) = (decimal(a), decimal(b));
    let whole = c + x;
    assert(whole == d + y);
    if c.len() < d.len() {
        assert(whole[c.len() as int] == x[0]);
        assert((d + y)[c.len() as int] == d[c.len() as int]);
    }
    if d.len() < c.len() {
        assert((d + y)[d.len() as int] == y[0]);
        assert(whole[d.len() as int] == c[d.len() as int]);
    }
    assert(c =~= whole.take(c.len() as int));
    assert(d =~= (d + y).take(d.len() as int));
    assert(x =~= whole.skip(c.len() as int));
    assert(y =~= (d + y).skip(d.len() as int));
}

proof fn lemma_same_rest(p: Seq<char>, x: Seq<char>, y: Seq<char>)
    requires
        p + x == p + y,
    ensures
        x == y,
{
    assert(x =~= (p + x).skip(p.len() as int));
    assert(y =~= (p + y).skip(p.len() as int));
}

/// What stands behind the bitrate in the whole chain.
spec fn after_bitrate(platform: Platform) -> Seq<char> {
    (match platform {
        Platform::Windows => " low-latency=true"@,
        Platform::Other => " tune=zerolatency speed-preset=ultrafast"@,
    }) + " ! h264parse config-interval=-1 ! "@
        + "rtph264pay pt=96 mtu=1200 aggregate-mode=zero-latency ! "@
        + "application/x-rtp,media=video,encoding-name=H264,payload=96 ! "@ + "tee name="@
        + TEE_NAME@ + " allow-not-linked=true"@
}

/// What stands between the framerate and the bitrate.
spec fn before_bitrate(cfg: VideoConfigView, platform: Platform, source: VideoSource) -> Seq<char> {
    "/1"@ + (if source == VideoSource::Camera && platform == Platform::Other {
        " ! jpegdec"@
    } else {
        Seq::empty()
    }) + " ! videoconvert ! video/x-raw,format="@ + cfg.format + " ! "@ + (match platform {
        Platform::Windows => "mfh264enc bitrate="@,
        Platform::Other => "x264enc bitrate="@,
    })
}

/// What stands before the width.
spec fn before_width(cfg: VideoConfigView, platform: Platform, source: VideoSource) -> Seq<char> {
    (match (source, platform) {
        (VideoSource::TestPattern, _) => "videotestsrc is-live=true ! video/x-raw,"@,
        (VideoSource::Camera, Platform::Windows) => "mfvideosrc"@ + device_path_text(cfg.device_id)
            + " ! video/x-raw,"@,
        (VideoSource::Camera, Platform::Other) => "v4l2src device="@ + device_file_text(
            cfg.device_id,
        ) + " ! image/jpeg,"@,
    }) + "width="@
}

#[verifier::spinoff_prover]
#[verifier::rlimit(50)]
proof fn lemma_pipeline_text(cfg: VideoConfigView, platform: Platform, source: VideoSource)
    ensures
        pipeline_text(cfg, platform, source) == before_width(cfg, platform, source) + (decimal(
            cfg.width as nat,
        ) + (",height="@ + (decimal(cfg.height as nat) + (",framerate="@ + (decimal(
            cfg.framerate as nat,
        ) + (before_bitrate(cfg, platform, source) + (decimal(cfg.bitrate_kbps as nat)
            + after_bitrate(platform)))))))),
{
    broadcast use lemma_join_is_associative;

    let empty = Seq::<char>::empty();
    assert("/1"@ + empty =~= "/1"@);
}

/// The pipeline is built with the size, the framerate and the bitrate that are asked
/// for: two configurations of the same camera and format have the same text only if
/// they agree in all four numbers.
#[verifier::spinoff_prover]
#[verifier::rlimit(50)]
pub proof fn law_pipeline_text_tells_the_numbers(
    a: VideoConfigView,
    b: VideoConfigView,
    platform: Platform,
    source: VideoSource,
)
    requires
        a.format == b.format,
        a.device_id == b.device_id,
        pipeline_text(a, platform, source) == pipeline_text(b, platform, source),
    ensures
        a.width == b.width,
        a.height == b.height,
        a.framerate == b.framerate,
        a.bitrate_kbps == b.bitrate_kbps,
{
    lemma_pipeline_text(a, platform, source);
    lemma_pipeline_text(b, platform, source);
    reveal_strlit(",height=");
    reveal_strlit(",framerate=");
    reveal_strlit("/1");
    lemma_starts_with_a_space(platform);
    let (tail, mid) = (after_bitrate(platform), before_bitrate(a, platform, source));
    let (a4, b4) = (
        decimal(a.bitrate_kbps as nat) + tail,
        decimal(b.bitrate_kbps as nat) + tail,
    );
    let (a3, b3) = (
        decimal(a.framerate as nat) + (mid + a4),
        decimal(b.framerate as nat) + (mid + b4),
    );
    let (a2, b2) = (
        decimal(a.height as nat) + (",framerate="@ + a3),
        decimal(b.height as nat) + (",framerate="@ + b3),
    );
    let (a1, b1) = (
        decimal(a.width as nat) + (",height="@ + a2),
        decimal(b.width as nat) + (",height="@ + b2),
    );
    lemma_same_rest(before_width(a, platform, source), a1, b1);
    lemma_same_numbers(a.width as nat, ",height="@ + a2, b.width as nat, ",height="@ + b2);
    lemma_same_rest(",height="@, a2, b2);
    lemma_same_numbers(
        a.height as nat,
        ",framerate="@ + a3,
        b.height as nat,
        ",framerate="@ + b3,
    );
    lemma_same_rest(",framerate="@, a3, b3);
    assert(mid[0] == '/');
    lemma_same_numbers(a.framerate as nat, mid + a4, b.framerate as nat, mid + b4);
    lemma_same_rest(mid, a4, b4);
    lemma_same_numbers(a.bitrate_kbps as nat, tail, b.bitrate_kbps as nat, tail);
}

proof fn lemma_starts_with_a_space(platform: Platform)
    ensures
        after_bitrate(platform).len() > 0,
        after_bitrate(platform)[0] == ' ',
{
    reveal_strlit(" low-latency=true");
    reveal_strlit(" tune=zerolatency speed-preset=ultrafast");
}

proof fn lemma_ends_alike(a: Seq<char>, b: Seq<char>, n: int)
    requires
        0 <= n <= b.len(),
    ensures
        (a + b).skip((a + b).len() - n) == b.skip(b.len() - n),
{
    assert((a + b).skip((a + b).len() - n) =~= b.skip(b.len() - n));
}

proof fn lemma_ends_with_bitrate(cfg: VideoConfigView, platform: Platform, source: VideoSource)
    ensures
        before_bitrate(cfg, platform, source).len() >= 9,
        before_bitrate(cfg, platform, source).skip(
            before_bitrate(cfg, platform, source).len() - 9,
        ) == " bitrate="@,
{
    reveal_strlit(" bitrate=");
    reveal_strlit("mfh264enc bitrate=");
    reveal_strlit("x264enc bitrate=");
    let encoder = match platform {
        Platform::Windows => "mfh264enc bitrate="@,
        Platform::Other => "x264enc bitrate="@,
    };
    let start = "/1"@ + (if source == VideoSource::Camera && platform == Platform::Other {
        " ! jpegdec"@
    } else {
        Seq::empty()
    }) + " ! videoconvert ! video/x-raw,format="@ + cfg.format + " ! "@;
    assert(before_bitrate(cfg, platform, source) == start + encoder);
    assert(encoder.skip(encoder.len() - 9) =~= " bitrate="@);
    lemma_ends_alike(start, encoder, 9);
}

/// The number that stands behind `bitrate=` reads back as the bitrate, and behind the
/// number the encoder's other settings follow.
#[verifier::spinoff_prover]
#[verifier::rlimit(50)]
pub proof fn law_bitrate_reads_back(
    cfg: VideoConfigView,
    platform: Platform,
    source: VideoSource,
)
    ensures
        exists|before: Seq<char>, number: Seq<char>, after: Seq<char>|
            {
                &&& pipeline_text(cfg, platform, source) == #[trigger] (before + number + after)
                &&& before.len() >= 9 && before.skip(before.len() - 9) == " bitrate="@
                &&& number.len() > 0
                &&& forall|i: int|
                    0 <= i < number.len() ==> '0' as int <= (#[trigger] number[i]) as int
                        <= '9' as int
                &&& digits_value(number) == cfg.bitrate_kbps
                &&& after.len() > 0 && after[0] == ' '
            },
{
    lemma_pipeline_text(cfg, platform, source);
    lemma_starts_with_a_space(platform);
    law_decimal_has_the_value(cfg.bitrate_kbps as nat);
    let number = decimal(cfg.bitrate_kbps as nat);
    let after = after_bitrate(platform);
    let before = before_width(cfg, platform, source) + (decimal(cfg.width as nat) + (",height="@ + (
    decimal(cfg.height as nat) + (",framerate="@ + (decimal(cfg.framerate as nat) + before_bitrate(
        cfg,
        platform,
        source,
    ))))));
    let mid = before_bitrate(cfg, platform, source);
    assert(pipeline_text(cfg, platform, source) == before + number + after) by {
        broadcast use lemma_join_is_associative;

    }
    lemma_ends_with_bitrate(cfg, platform, source);
    lemma_ends_alike(
        before_width(cfg, platform, source),
        decimal(cfg.width as nat) + (",height="@ + (decimal(cfg.height as nat) + (",framerate="@ + (
        decimal(cfg.framerate as nat) + mid)))),
        9,
    );
    lemma_ends_alike(
        decimal(cfg.width as nat),
        ",height="@ + (decimal(cfg.height as nat) + (",framerate="@ + (decimal(cfg.framerate as nat)
            + mid))),
        9,
    );
    lemma_ends_alike(
        ",height="@,
        decimal(cfg.height as nat) + (",framerate="@ + (decimal(cfg.framerate as nat) + mid)),
        9,
    );
    lemma_ends_alike(
        decimal(cfg.height as nat),
        ",framerate="@ + (decimal(cfg.framerate as nat) + mid),
        9,
    );
    lemma_ends_alike(",framerate="@, decimal(cfg.framerate as nat) + mid, 9);
    lemma_ends_alike(decimal(cfg.framerate as nat), mid, 9);
}

/// On Linux the camera delivers motion JPEG at the size and framerate asked for, which
/// is decoded, turned into the format asked for and encoded by `x264enc` at the bitrate
/// asked for; the result is parsed, packed and fanned out.
#[verifier::spinoff_prover]
#[verifier::rlimit(50)]
pub proof fn law_chain_on_linux(cfg: VideoConfigView)
    ensures
        pipeline_text(cfg, Platform::Other, VideoSource::Camera) == "v4l2src device="@ + (
        if cfg.device_id is Some && cfg.device_id->0.len() > 0 {
            cfg.device_id->0
        } else {
            "/dev/video0"@
        }) + " ! image/jpeg,"@ + "width="@ + decimal(cfg.width as nat) + ",height="@ + decimal(
            cfg.height as nat,
        ) + ",framerate="@ + decimal(cfg.framerate as nat) + "/1"@ + " ! jpegdec"@
            + " ! videoconvert ! video/x-raw,format="@ + cfg.format + " ! "@ + "x264enc bitrate="@
            + decimal(cfg.bitrate_kbps as nat) + " tune=zerolatency speed-preset=ultrafast"@
            + " ! h264parse config-interval=-1 ! "@
            + "rtph264pay pt=96 mtu=1200 aggregate-mode=zero-latency ! "@
            + "application/x-rtp,media=video,encoding-name=H264,payload=96 ! "@ + "tee name="@
            + "videotee"@ + " allow-not-linked=true"@,
{
    broadcast use lemma_join_is_associative;

}

/// On Windows the camera delivers raw pictures of the size and framerate asked for,
/// which are turned into the format asked for and encoded by `mfh264enc` at the bitrate
/// asked for; the result is parsed, packed and fanned out.
#[verifier::spinoff_prover]
#[verifier::rlimit(50)]
pub proof fn law_chain_on_windows(cfg: VideoConfigView)
    ensures
        pipeline_text(cfg, Platform::Windows, VideoSource::Camera) == "mfvideosrc"@
            + device_path_text(cfg.device_id) + " ! video/x-raw,"@ + "width="@ + decimal(
            cfg.width as nat,
        ) + ",height="@ + decimal(cfg.height as nat) + ",framerate="@ + decimal(
            cfg.framerate as nat,
        ) + "/1"@ + " ! videoconvert ! video/x-raw,format="@ + cfg.format + " ! "@
            + "mfh264enc bitrate="@ + decimal(cfg.bitrate_kbps as nat) + " low-latency=true"@
            + " ! h264parse config-interval=-1 ! "@
            + "rtph264pay pt=96 mtu=1200 aggregate-mode=zero-latency ! "@
            + "application/x-rtp,media=video,encoding-name=H264,payload=96 ! "@ + "tee name="@
            + "videotee"@ + " allow-not-linked=true"@,
{
    broadcast use lemma_join_is_associative;

}

/// The test pattern comes at the size and framerate asked for, and from there on the
/// chain is that of Linux.
#[verifier::spinoff_prover]
#[verifier::rlimit(50)]
pub proof fn law_test_pattern_on_linux(cfg: VideoConfigView)
    ensures
        pipeline_text(cfg, Platform::Other, VideoSource::TestPattern)
            == "videotestsrc is-live=true ! video/x-raw,"@ + "width="@ + decimal(cfg.width as nat)
            + ",height="@ + decimal(cfg.height as nat) + ",framerate="@ + decimal(
            cfg.framerate as nat,
        ) + "/1"@ + " ! videoconvert ! video/x-raw,format="@ + cfg.format + " ! "@
            + "x264enc bitrate="@ + decimal(cfg.bitrate_kbps as nat)
            + " tune=zerolatency speed-preset=ultrafast"@ + " ! h264parse config-interval=-1 ! "@
            + "rtph264pay pt=96 mtu=1200 aggregate-mode=zero-latency ! "@
            + "application/x-rtp,media=video,encoding-name=H264,payload=96 ! "@ + "tee name="@
            + "videotee"@ + " allow-not-linked=true"@,
{
    broadcast use lemma_join_is_associative;

}

/// The test pattern comes at the size and framerate asked for, and from there on the
/// chain is that of Windows.
#[verifier::spinoff_prover]
#[verifier::rlimit(50)]
pub proof fn law_test_pattern_on_windows(cfg: VideoConfigView)
    ensures
        pipeline_text(cfg, Platform::Windows, VideoSource::TestPattern)
            == "videotestsrc is-live=true ! video/x-raw,"@ + "width="@ + decimal(cfg.width as nat)
            + ",height="@ + decimal(cfg.height as nat) + ",framerate="@ + decimal(
            cfg.framerate as nat,
        ) + "/1"@ + " ! videoconvert ! video/x-raw,format="@ + cfg.format + " ! "@
            + "mfh264enc bitrate="@ + decimal(cfg.bitrate_kbps as nat) + " low-latency=true"@
            + " ! h264parse config-interval=-1 ! "@
            + "rtph264pay pt=96 mtu=1200 aggregate-mode=zero-latency ! "@
            + "application/x-rtp,media=video,encoding-name=H264,payload=96 ! "@ + "tee name="@
            + "videotee"@ + " allow-not-linked=true"@,
{
    broadcast use lemma_join_is_associative;

}

/// What is built up to the parser is where the whole chain starts.
pub proof fn law_chain_starts_with_its_head(
    cfg: VideoConfigView,
    platform: Platform,
    source: VideoSource,
)
    ensures
        pipeline_text(cfg, platform, source) == head_text(cfg, platform, source)
            + " ! h264parse config-interval=-1 ! "@
            + "rtph264pay pt=96 mtu=1200 aggregate-mode=zero-latency ! "@
            + "application/x-rtp,media=video,encoding-name=H264,payload=96 ! "@ + "tee name="@
            + "videotee"@ + " allow-not-linked=true"@,
{
}

} // verus!
