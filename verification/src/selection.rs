//! Which camera is selected, and at which of its modes the server starts.

use vstd::prelude::*;

use crate::camera::{caps_view, devices_view, CameraCap, CameraCapView, CameraDevice};
use crate::camera::CameraDeviceView;
use crate::text::{opt_str, same_text, text_or_empty};
use crate::video::{lists_mode, matches_mode, mode_matches, to_unsigned, without_sign};
use crate::video::{VideoConfig, VideoConfigView};

verus! {

/// The number of pixels of a mode.
pub open spec fn area(c: CameraCapView) -> int {
    c.width * c.height
}

fn pixels(c: &CameraCap) -> (r: i64)
    ensures
        r as int == area(c@),
{
    let (w, h): (i64, i64) = (c.width as i64, c.height as i64);
    assert(-0x4000_0000_0000_0000 <= w * h <= 0x4000_0000_0000_0000) by (nonlinear_arith)
        requires
            -0x8000_0000 <= w <= 0x8000_0000,
            -0x8000_0000 <= h <= 0x8000_0000,
    ;
    w * h
}

/// Whether mode `i` has the most pixels of those at `framerate`, the last of them
/// where there are several.
pub open spec fn is_largest_at(caps: Seq<CameraCapView>, framerate: u32, i: int) -> bool {
    &&& 0 <= i < caps.len()
    &&& caps[i].framerate == framerate
    &&& forall|j: int|
        0 <= j < caps.len() && (#[trigger] caps[j]).framerate == framerate ==> {
            &&& area(caps[j]) <= area(caps[i])
            &&& j > i ==> area(caps[j]) < area(caps[i])
        }
}

/// Whether the mode `a` has fewer pixels than the mode `b`, or as many and a lower
/// framerate.
pub open spec fn is_smaller(a: CameraCapView, b: CameraCapView) -> bool {
    area(a) < area(b) || (area(a) == area(b) && a.framerate < b.framerate)
}

/// Whether mode `i` has the most pixels, of several the highest framerate, the last
/// of them where there are still several.
pub open spec fn is_largest(caps: Seq<CameraCapView>, i: int) -> bool {
    &&& 0 <= i < caps.len()
    &&& forall|j: int|
        0 <= j < caps.len() ==> !is_smaller(caps[i], #[trigger] caps[j]) && (j > i ==> is_smaller(
            caps[j],
            caps[i],
        ))
}

/// `base` at the size and framerate of the mode `c`.
pub open spec fn at_mode(base: VideoConfigView, c: CameraCapView) -> VideoConfigView {
    VideoConfigView {
        width: without_sign(c.width),
        height: without_sign(c.height),
        framerate: c.framerate,
        ..base
    }
}

/// The parameters to start with on a camera with the modes `caps`: `base` where the
/// camera lists its size and framerate, else the largest mode at its framerate, else
/// the largest mode of all, else `base`.
pub open spec fn picked_config(caps: Seq<CameraCapView>, base: VideoConfigView) -> VideoConfigView {
    if lists_mode(caps, base.width, base.height, base.framerate) {
        base
    } else if exists|i: int| is_largest_at(caps, base.framerate, i) {
        at_mode(base, caps[choose|i: int| is_largest_at(caps, base.framerate, i)])
    } else if exists|i: int| is_largest(caps, i) {
        at_mode(base, caps[choose|i: int| is_largest(caps, i)])
    } else {
        base
    }
}

/// The position of the largest mode at `framerate`.
fn largest_at(caps: &[CameraCap], framerate: u32) -> (r: Option<usize>)
    ensures
        match r {
            Some(i) => is_largest_at(caps_view(caps@), framerate, i as int),
            None => forall|j: int|
                0 <= j < caps@.len() ==> (#[trigger] caps_view(caps@)[j]).framerate != framerate,
        },
{
    let ghost all = caps_view(caps@);
    let mut best: Option<usize> = None;
    for k in 0..caps.len()
        invariant
            all == caps_view(caps@),
            match best {
                Some(i) => i < k && is_largest_at(all.take(k as int), framerate, i as int),
                None => forall|j: int|
                    0 <= j < k ==> (#[trigger] all[j]).framerate != framerate,
            },
    {
        if caps[k].framerate == framerate {
            match best {
                Some(i) => if pixels(&caps[k]) >= pixels(&caps[i]) {
                    best = Some(k);
                },
                None => {
                    best = Some(k);
                },
            }
        }
    }
    assert(all.take(all.len() as int) =~= all);
    best
}

/// The position of the largest mode.
fn largest(caps: &[CameraCap]) -> (r: Option<usize>)
    ensures
        match r {
            Some(i) => is_largest(caps_view(caps@), i as int),
            None => caps@.len() == 0,
        },
{
    let ghost all = caps_view(caps@);
    if caps.len() == 0 {
        return None;
    }
    let mut best: usize = 0;
    for k in 1..caps.len()
        invariant
            all == caps_view(caps@),
            1 <= k <= caps@.len(),
            best < k,
            is_largest(all.take(k as int), best as int),
    {
        let (a, b): (i64, i64) = (pixels(&caps[k]), pixels(&caps[best]));
        if a > b || (a == b && caps[k].framerate >= caps[best].framerate) {
            best = k;
        }
    }
    assert(all.take(all.len() as int) =~= all);
    Some(best)
}

fn config_at(base: &VideoConfig, c: &CameraCap) -> (r: VideoConfig)
    ensures
        r@ == at_mode(base@, c@),
{
    let mut cfg = base.clone();
    cfg.width = to_unsigned(c.width);
    cfg.height = to_unsigned(c.height);
    cfg.framerate = c.framerate;
    cfg
}

/// Picks the parameters to start with from the modes of a camera. The format and
/// the bitrate stay those of `base`.
pub fn pick_default_config(caps: &[CameraCap], base: &VideoConfig) -> (r: VideoConfig)
    ensures
        r@ == picked_config(caps_view(caps@), base@),
{
    let ghost all = caps_view(caps@);
    for i in 0..caps.len()
        invariant
            all == caps_view(caps@),
            forall|j: int|
                0 <= j < i ==> !mode_matches(
                    #[trigger] all[j],
                    base.width,
                    base.height,
                    base.framerate,
                ),
    {
        if matches_mode(&caps[i], base.width, base.height, base.framerate) {
            assert(mode_matches(all[i as int], base.width, base.height, base.framerate));
            return base.clone();
        }
    }
    match largest_at(caps, base.framerate) {
        Some(i) => config_at(base, &caps[i]),
        None => match largest(caps) {
            Some(i) => config_at(base, &caps[i]),
            None => base.clone(),
        },
    }
}

/// Whether camera `i` is the first with the handle `id`.
pub open spec fn is_first_with_id(devices: Seq<CameraDeviceView>, id: Seq<char>, i: int) -> bool {
    &&& 0 <= i < devices.len()
    &&& devices[i].id == id
    &&& forall|j: int| 0 <= j < i ==> (#[trigger] devices[j]).id != id
}

/// Whether some camera has the handle `id`.
pub open spec fn is_known(devices: Seq<CameraDeviceView>, id: Seq<char>) -> bool {
    exists|i: int| 0 <= i < devices.len() && (#[trigger] devices[i]).id == id
}

/// The modes of the first camera with the handle `id`, none where no camera has it.
pub open spec fn caps_with_id(
    devices: Seq<CameraDeviceView>,
    id: Seq<char>,
) -> Seq<CameraCapView> {
    if is_known(devices, id) {
        devices[choose|i: int| is_first_with_id(devices, id, i)].caps
    } else {
        Seq::empty()
    }
}

/// The modes of the camera that `device_id` selects: the first with that handle, no
/// handle standing for the empty one. None where no camera has the handle: no
/// camera was selected, or it has been unplugged since probing.
pub open spec fn selected_caps(
    devices: Seq<CameraDeviceView>,
    device_id: Option<Seq<char>>,
) -> Seq<CameraCapView> {
    caps_with_id(devices, text_or_empty(device_id))
}

/// The position of the first camera with the handle `id`.
pub(crate) fn find_device(devices: &[CameraDevice], id: &str) -> (r: Option<usize>)
    ensures
        match r {
            Some(i) => is_first_with_id(devices_view(devices@), id@, i as int),
            None => !is_known(devices_view(devices@), id@),
        },
{
    let ghost all = devices_view(devices@);
    for i in 0..devices.len()
        invariant
            all == devices_view(devices@),
            forall|j: int| 0 <= j < i ==> (#[trigger] all[j]).id != id@,
    {
        if same_text(devices[i].id.as_str(), id) {
            return Some(i);
        }
    }
    None
}

/// The modes of the camera that `device_id` selects.
pub fn caps_for<'a>(devices: &'a [CameraDevice], device_id: Option<&str>) -> (r: &'a [CameraCap])
    ensures
        caps_view(r@) == selected_caps(devices_view(devices@), opt_str(device_id)),
{
    let id = match device_id {
        Some(id) => id,
        None => "",
    };
    proof {
        reveal_strlit("");
        assert(""@ =~= Seq::<char>::empty());
    }
    match find_device(devices, id) {
        Some(i) => devices[i].caps.as_slice(),
        None => {
            let none: &[CameraCap] = &[];
            none
        },
    }
}

proof fn lemma_largest_at_exists(caps: Seq<CameraCapView>, framerate: u32, k: int)
    requires
        0 <= k < caps.len(),
        caps[k].framerate == framerate,
    ensures
        exists|i: int| is_largest_at(caps, framerate, i),
    decreases caps.len(),
{
    let init = caps.drop_last();
    let last = caps.len() - 1;
    if exists|m: int| 0 <= m < init.len() && (#[trigger] init[m]).framerate == framerate {
        let m = choose|m: int| 0 <= m < init.len() && (#[trigger] init[m]).framerate == framerate;
        lemma_largest_at_exists(init, framerate, m);
        let i = choose|i: int| is_largest_at(init, framerate, i);
        assert forall|j: int| 0 <= j < caps.len() && j != last implies #[trigger] caps[j]
            == init[j] by {}
        if caps[last].framerate == framerate && area(caps[last]) >= area(caps[i]) {
            assert(is_largest_at(caps, framerate, last));
        } else {
            assert(is_largest_at(caps, framerate, i));
        }
    } else {
        assert forall|j: int|
            0 <= j < caps.len() && (#[trigger] caps[j]).framerate == framerate implies j
            == last by {
            if j < last {
                assert(init[j] == caps[j]);
            }
        }
        assert(is_largest_at(caps, framerate, last));
    }
}

proof fn lemma_largest_exists(caps: Seq<CameraCapView>)
    requires
        caps.len() > 0,
    ensures
        exists|i: int| is_largest(caps, i),
    decreases caps.len(),
{
    let init = caps.drop_last();
    let last = caps.len() - 1;
    if init.len() == 0 {
        assert(is_largest(caps, last));
    } else {
        lemma_largest_exists(init);
        let i = choose|i: int| is_largest(init, i);
        assert forall|j: int| 0 <= j < caps.len() && j != last implies #[trigger] caps[j]
            == init[j] by {}
        if is_smaller(caps[last], caps[i]) {
            assert(is_largest(caps, i));
        } else {
            assert(is_largest(caps, last));
        }
    }
}

/// The selected camera is the first with the handle. Where no camera has the handle,
/// and so where no handle is given and every camera has one, no modes are known.
pub proof fn law_selection_is_the_first_match(
    devices: Seq<CameraDeviceView>,
    device_id: Option<Seq<char>>,
)
    ensures
        forall|i: int|
            is_first_with_id(devices, text_or_empty(device_id), i) ==> selected_caps(
                devices,
                device_id,
            ) == (#[trigger] devices[i]).caps,
        !is_known(devices, text_or_empty(device_id)) ==> selected_caps(devices, device_id).len()
            == 0,
{
}

/// On a camera that lists modes, the parameters to start with name one of them.
pub proof fn law_picked_mode_is_listed(caps: Seq<CameraCapView>, base: VideoConfigView)
    requires
        caps.len() > 0,
    ensures
        ({
            let p = picked_config(caps, base);
            lists_mode(caps, p.width, p.height, p.framerate)
        }),
{
    if !lists_mode(caps, base.width, base.height, base.framerate) {
        lemma_largest_exists(caps);
    }
}

/// Where the camera lists any mode at the framerate of `base`, the parameters to
/// start with keep that framerate.
pub proof fn law_picked_framerate_is_kept(caps: Seq<CameraCapView>, base: VideoConfigView, k: int)
    requires
        0 <= k < caps.len(),
        caps[k].framerate == base.framerate,
    ensures
        picked_config(caps, base).framerate == base.framerate,
{
    lemma_largest_at_exists(caps, base.framerate, k);
}

/// Picking changes neither the bitrate nor the format nor the camera.
pub proof fn law_picking_keeps_the_rest(caps: Seq<CameraCapView>, base: VideoConfigView)
    ensures
        picked_config(caps, base).bitrate_kbps == base.bitrate_kbps,
        picked_config(caps, base).format == base.format,
        picked_config(caps, base).device_id == base.device_id,
{
}

/// The modes that a handle selects, no handle standing for the empty one, are those of
/// the first camera with that handle, whatever cameras stand behind it. Where no
/// camera has it there are none.
pub proof fn law_first_camera_with_the_handle_is_selected(
    devices: Seq<CameraDeviceView>,
    device_id: Option<Seq<char>>,
    id: Seq<char>,
    i: int,
)
    requires
        match device_id {
            Some(given) => id == given,
            None => id.len() == 0,
        },
    ensures
        0 <= i < devices.len() && devices[i].id == id && (forall|j: int|
            0 <= j < i ==> (#[trigger] devices[j]).id != id) ==> selected_caps(devices, device_id)
            == devices[i].caps,
        (forall|j: int| 0 <= j < devices.len() ==> (#[trigger] devices[j]).id != id)
            ==> selected_caps(devices, device_id).len() == 0,
{
    assert(text_or_empty(device_id) =~= id);
    if 0 <= i < devices.len() && devices[i].id == id && (forall|j: int|
        0 <= j < i ==> (#[trigger] devices[j]).id != id) {
        assert(is_first_with_id(devices, id, i));
    }
}

/// Where the camera lists the size and framerate of `base`, they are kept, and with
/// them all of `base`.
pub proof fn law_listed_base_is_kept(caps: Seq<CameraCapView>, base: VideoConfigView, k: int)
    requires
        0 <= k < caps.len(),
        without_sign(caps[k].width) == base.width,
        without_sign(caps[k].height) == base.height,
        caps[k].framerate == base.framerate,
    ensures
        picked_config(caps, base) == base,
{
    assert(mode_matches(caps[k], base.width, base.height, base.framerate));
}

/// Where the camera does not list the size and framerate of `base`, but some modes at
/// that framerate, the one with the most pixels among these is picked, of several the
/// last.
pub proof fn law_largest_mode_at_the_framerate_is_picked(
    caps: Seq<CameraCapView>,
    base: VideoConfigView,
    k: int,
)
    requires
        forall|i: int|
            0 <= i < caps.len() ==> !(without_sign((#[trigger] caps[i]).width) == base.width
                && without_sign(caps[i].height) == base.height && caps[i].framerate
                == base.framerate),
        0 <= k < caps.len(),
        caps[k].framerate == base.framerate,
    ensures
        exists|i: int| #![trigger caps[i]]
            {
                let p = picked_config(caps, base);
                &&& 0 <= i < caps.len()
                &&& without_sign(caps[i].width) == p.width
                &&& without_sign(caps[i].height) == p.height
                &&& caps[i].framerate == p.framerate && p.framerate == base.framerate
                &&& caps[k].width * caps[k].height <= caps[i].width * caps[i].height
                &&& k > i ==> caps[k].width * caps[k].height < caps[i].width * caps[i].height
            },
{
    lemma_largest_at_exists(caps, base.framerate, k);
    let i = choose|i: int| is_largest_at(caps, base.framerate, i);
    assert(!lists_mode(caps, base.width, base.height, base.framerate));
    assert(caps[i].framerate == base.framerate);
    assert(area(caps[k]) <= area(caps[i]));
}

/// Where the camera lists no mode at the framerate of `base`, the mode with the most
/// pixels of all is picked, of several the fastest, of several the last.
pub proof fn law_largest_mode_of_all_is_picked(
    caps: Seq<CameraCapView>,
    base: VideoConfigView,
    k: int,
)
    requires
        forall|i: int| 0 <= i < caps.len() ==> (#[trigger] caps[i]).framerate != base.framerate,
        0 <= k < caps.len(),
    ensures
        exists|i: int| #![trigger caps[i]]
            {
                let p = picked_config(caps, base);
                let (x, y) = (
                    caps[k].width * caps[k].height,
                    caps[i].width * caps[i].height,
                );
                &&& 0 <= i < caps.len()
                &&& without_sign(caps[i].width) == p.width
                &&& without_sign(caps[i].height) == p.height
                &&& caps[i].framerate == p.framerate
                &&& x < y || (x == y && caps[k].framerate <= caps[i].framerate)
                &&& k > i ==> x < y || (x == y && caps[k].framerate < caps[i].framerate)
            },
{
    lemma_largest_exists(caps);
    let i = choose|i: int| is_largest(caps, i);
    assert(!lists_mode(caps, base.width, base.height, base.framerate));
    assert(!(exists|i: int| is_largest_at(caps, base.framerate, i)));
    assert(!is_smaller(caps[i], caps[k]));
    assert(k > i ==> is_smaller(caps[k], caps[i]));
}

/// Where the camera lists no modes, nothing is changed.
pub proof fn law_nothing_to_pick_from(base: VideoConfigView)
    ensures
        picked_config(Seq::empty(), base) == base,
{
}

} // verus!
