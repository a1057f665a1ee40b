//! Cameras and the capture modes that they advertise.

use vstd::prelude::*;

use crate::text::opt_text;

verus! {

/// One concrete capture mode that a camera advertises.
#[derive(Debug, PartialEq, Eq)]
pub struct CameraCap {
    /// Raw pixel format, such as `NV12`. `None` for encoded media.
    pub format: Option<String>,
    /// Media type, such as `video/x-raw` or `image/jpeg`.
    pub media: String,
    pub width: i32,
    pub height: i32,
    /// Frames per second, rounded to the nearest whole number.
    pub framerate: u32,
}

/// What a `CameraCap` holds.
pub struct CameraCapView {
    pub format: Option<Seq<char>>,
    pub media: Seq<char>,
    pub width: i32,
    pub height: i32,
    pub framerate: u32,
}

impl View for CameraCap {
    type V = CameraCapView;

    open spec fn view(&self) -> CameraCapView {
        CameraCapView {
            format: opt_text(self.format),
            media: self.media@,
            width: self.width,
            height: self.height,
            framerate: self.framerate,
        }
    }
}

impl Clone for CameraCap {
    fn clone(&self) -> (r: Self)
        ensures
            r@ == self@,
    {
        CameraCap {
            format: self.format.clone(),
            media: self.media.clone(),
            width: self.width,
            height: self.height,
            framerate: self.framerate,
        }
    }
}

/// One connected camera and its capture modes.
#[derive(Debug, PartialEq, Eq)]
pub struct CameraDevice {
    /// Stable handle by which the pipeline selects this camera. Empty if the
    /// backend exposes none.
    pub id: String,
    /// Human-readable name.
    pub name: String,
    /// The backend that this camera belongs to, such as `mediafoundation`.
    pub api: String,
    /// The capture modes of this camera.
    pub caps: Vec<CameraCap>,
}

/// What a `CameraDevice` holds.
pub struct CameraDeviceView {
    pub id: Seq<char>,
    pub name: Seq<char>,
    pub api: Seq<char>,
    pub caps: Seq<CameraCapView>,
}

/// What each of a run of capture modes holds.
pub open spec fn caps_view(caps: Seq<CameraCap>) -> Seq<CameraCapView> {
    Seq::new(caps.len(), |i: int| caps[i]@)
}

impl View for CameraDevice {
    type V = CameraDeviceView;

    open spec fn view(&self) -> CameraDeviceView {
        CameraDeviceView {
            id: self.id@,
            name: self.name@,
            api: self.api@,
            caps: caps_view(self.caps@),
        }
    }
}

impl Clone for CameraDevice {
    fn clone(&self) -> (r: Self)
        ensures
            r@ == self@,
    {
        let caps = self.caps.clone();
        assert(caps_view(caps@) =~= caps_view(self.caps@));
        CameraDevice {
            id: self.id.clone(),
            name: self.name.clone(),
            api: self.api.clone(),
            caps,
        }
    }
}

/// What each of a run of cameras holds.
pub open spec fn devices_view(devices: Seq<CameraDevice>) -> Seq<CameraDeviceView> {
    Seq::new(devices.len(), |i: int| devices[i]@)
}

/// What is said of a mode, a camera or a list of them says all that it holds: two of
/// which the same is said hold the same.
pub proof fn law_views_tell_everything(
    a: CameraCap,
    b: CameraCap,
    x: CameraDevice,
    y: CameraDevice,
    s: Seq<CameraCap>,
    d: Seq<CameraDevice>,
    i: int,
)
    ensures
        a@ == b@ ==> a.width == b.width && a.height == b.height && a.framerate == b.framerate
            && a.media@ == b.media@ && (a.format is Some <==> b.format is Some) && (
        a.format is Some ==> a.format->0@ == b.format->0@),
        x@ == y@ ==> x.id@ == y.id@ && x.name@ == y.name@ && x.api@ == y.api@ && caps_view(x.caps@)
            == caps_view(y.caps@),
        caps_view(s).len() == s.len(),
        0 <= i < s.len() ==> caps_view(s)[i] == s[i]@,
        devices_view(d).len() == d.len(),
        0 <= i < d.len() ==> devices_view(d)[i] == d[i]@,
{
}

} // verus!
