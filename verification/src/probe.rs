//! Cameras as the backend reports them, and the list that is made of them.

use vstd::prelude::*;

use crate::camera::{caps_view, devices_view, CameraCap, CameraCapView, CameraDevice};
use crate::camera::CameraDeviceView;
use crate::lemmas::{lemma_join_contains, lemma_last_contains, lemma_push_contains};
use crate::modes::{is_normalized, law_larger_and_faster_modes_come_first};
use crate::modes::{law_normalized_list_is_unique, normalize_caps};
use crate::text::{opt_str, opt_text, same_text, text_or_empty};

verus! {

/// A framerate as a camera reports it.
#[derive(Debug, Clone, Copy)]
pub struct Fraction {
    pub numer: i32,
    pub denom: i32,
}

/// `numer / denom` rounded to the nearest whole number, halves up, and at least 0.
/// 0 where the denominator is 0.
pub open spec fn whole_fps(numer: int, denom: int) -> int {
    if denom == 0 {
        0
    } else if denom < 0 {
        whole_positive(-numer, -denom)
    } else {
        whole_positive(numer, denom)
    }
}

/// `numer / denom` rounded as in `whole_fps`, for a positive denominator.
pub open spec fn whole_positive(numer: int, denom: int) -> int {
    if numer <= 0 {
        0
    } else {
        (2 * numer + denom) / (2 * denom)
    }
}

proof fn lemma_whole_positive(numer: int, denom: int)
    requires
        denom > 0,
        numer > 0,
    ensures
        ({
            let r = whole_positive(numer, denom);
            &&& 0 <= r
            &&& 2 * (denom * r) - denom <= 2 * numer < 2 * (denom * r) + denom
        }),
{
    let r = whole_positive(numer, denom);
    let x = 2 * numer + denom;
    let y = 2 * denom;
    assert(x == y * (x / y) + x % y && 0 <= x % y < y) by (nonlinear_arith)
        requires
            y > 0,
    ;
    assert(x / y >= 0) by (nonlinear_arith)
        requires
            y > 0,
            x > 0,
    ;
    assert(y * r == 2 * (denom * r)) by (nonlinear_arith)
        requires
            y == 2 * denom,
    ;
}

/// The whole framerate differs from the reported one by no more than half a frame
/// per second, and of two that are equally near it is the higher.
pub proof fn law_framerate_is_nearest(numer: int, denom: int)
    requires
        denom > 0,
        numer >= 0,
    ensures
        whole_fps(numer, denom) >= 0,
        2 * (denom * whole_fps(numer, denom)) - denom <= 2 * numer,
        2 * numer < 2 * (denom * whole_fps(numer, denom)) + denom,
{
    if numer > 0 {
        lemma_whole_positive(numer, denom);
    }
}

/// A framerate is 0 where the denominator is, or where it is negative, and does not
/// change with the signs of both.
pub proof fn law_framerate_of_other_fractions(numer: int, denom: int)
    ensures
        denom == 0 ==> whole_fps(numer, denom) == 0,
        numer <= 0 && denom > 0 ==> whole_fps(numer, denom) == 0,
        numer >= 0 && denom < 0 ==> whole_fps(numer, denom) == 0,
        whole_fps(-numer, -denom) == whole_fps(numer, denom),
{
}

/// Collapses a framerate to whole frames per second, rounded.
pub fn frac_fps(f: Fraction) -> (r: u32)
    ensures
        r as int == whole_fps(f.numer as int, f.denom as int),
{
    if f.denom == 0 {
        return 0;
    }
    let (numer, denom): (i64, i64) = if f.denom < 0 {
        (-(f.numer as i64), -(f.denom as i64))
    } else {
        (f.numer as i64, f.denom as i64)
    };
    if numer <= 0 {
        return 0;
    }
    let r: i64 = (2 * numer + denom) / (2 * denom);
    proof {
        lemma_whole_positive(numer as int, denom as int);
        let w = whole_positive(numer as int, denom as int);
        assert(w <= u32::MAX) by (nonlinear_arith)
            requires
                2 * (denom * w) - denom <= 2 * numer,
                numer <= 0x8000_0000,
                denom >= 1,
                w >= 0,
        ;
    }
    r as u32
}

/// An integer field of a camera's capability structure, as the backend reports it.
#[derive(Debug)]
pub enum IntField {
    /// The structure has no such field.
    Missing,
    Fixed(i32),
    Range { min: i32, max: i32 },
    /// `None` stands for an item that is no integer.
    List(Vec<Option<i32>>),
    /// A value of another type, or one that cannot be read as its type.
    Other,
}

/// A framerate field of a camera's capability structure.
#[derive(Debug)]
pub enum RateField {
    /// The structure has no such field.
    Missing,
    Fixed(Fraction),
    Range { min: Fraction, max: Fraction },
    /// `None` stands for an item that is no fraction.
    List(Vec<Option<Fraction>>),
    /// A value of another type, or one that cannot be read as its type.
    Other,
}

/// The items that are there, in order.
pub open spec fn present<T>(items: Seq<Option<T>>) -> Seq<T>
    decreases items.len(),
{
    if items.len() == 0 {
        Seq::empty()
    } else {
        match items.last() {
            Some(v) => present(items.drop_last()).push(v),
            None => present(items.drop_last()),
        }
    }
}

/// The values that an integer field offers: those that it lists, or both ends of a
/// range.
pub open spec fn offered_ints(field: IntField) -> Seq<i32> {
    match field {
        IntField::Fixed(v) => seq![v],
        IntField::Range { min, max } => seq![min, max],
        IntField::List(items) => present(items@),
        IntField::Missing | IntField::Other => Seq::empty(),
    }
}

/// The values of an integer field that modes are made of: those that it lists, or
/// the upper end of a range.
pub open spec fn listed_ints(field: IntField) -> Seq<i32> {
    match field {
        IntField::Range { min, max } => seq![max],
        _ => offered_ints(field),
    }
}

/// The framerates that a framerate field offers: those that it lists, or the upper
/// end of a range.
pub open spec fn offered_fractions(field: RateField) -> Seq<Fraction> {
    match field {
        RateField::Fixed(v) => seq![v],
        RateField::Range { min, max } => seq![max],
        RateField::List(items) => present(items@),
        RateField::Missing | RateField::Other => Seq::empty(),
    }
}

/// The framerates that a framerate field offers, in whole frames per second.
pub open spec fn offered_rates(field: RateField) -> Seq<u32> {
    let f = offered_fractions(field);
    Seq::new(f.len(), |i: int| whole_fps(f[i].numer as int, f[i].denom as int) as u32)
}

/// Reads an integer field that may be fixed, a range (both ends) or a list.
pub fn read_ints(field: &IntField) -> (r: Vec<i32>)
    ensures
        r@ == offered_ints(*field),
{
    let mut out: Vec<i32> = Vec::new();
    match field {
        IntField::Fixed(v) => {
            out.push(*v);
        },
        IntField::Range { min, max } => {
            out.push(*min);
            out.push(*max);
        },
        IntField::List(items) => {
            for i in 0..items.len()
                invariant
                    out@ == present(items@.take(i as int)),
            {
                if let Some(v) = items[i] {
                    out.push(v);
                }
                assert(items@.take(i + 1).drop_last() =~= items@.take(i as int));
            }
            assert(items@.take(items@.len() as int) =~= items@);
        },
        IntField::Missing | IntField::Other => {},
    }
    out
}

/// Reads the values of an integer field that modes are made of. A range is flattened
/// to its upper end.
fn read_listed_ints(field: &IntField) -> (r: Vec<i32>)
    ensures
        r@ == listed_ints(*field),
{
    let mut out = read_ints(field);
    if let IntField::Range { min: _, max } = field {
        out = Vec::new();
        out.push(*max);
    }
    out
}

/// Reads a framerate field that may be fixed, a range (its upper end) or a list, in
/// whole frames per second.
pub fn read_framerates(field: &RateField) -> (r: Vec<u32>)
    ensures
        r@ == offered_rates(*field),
{
    let mut out: Vec<u32> = Vec::new();
    match field {
        RateField::Fixed(v) => {
            out.push(frac_fps(*v));
        },
        RateField::Range { min: _, max } => {
            out.push(frac_fps(*max));
        },
        RateField::List(items) => {
            for i in 0..items.len()
                invariant
                    out@.len() == present(items@.take(i as int)).len(),
                    forall|j: int|
                        0 <= j < out@.len() ==> #[trigger] out@[j] == whole_fps(
                            present(items@.take(i as int))[j].numer as int,
                            present(items@.take(i as int))[j].denom as int,
                        ) as u32,
            {
                assert(items@.take(i + 1).drop_last() =~= items@.take(i as int));
                if let Some(v) = items[i] {
                    out.push(frac_fps(v));
                }
            }
            assert(items@.take(items@.len() as int) =~= items@);
        },
        RateField::Missing | RateField::Other => {},
    }
    out
}

/// A pixel format field of a camera's capability structure.
#[derive(Debug)]
pub enum FormatField {
    /// The structure has no such field, as with encoded media.
    Missing,
    Fixed(String),
    /// `None` stands for an item that is no text.
    List(Vec<Option<String>>),
    /// A value of another type, or one that cannot be read as its type.
    Other,
}

/// The pixel formats that a format field offers: those that it names, or `None`
/// alone where it names none.
pub open spec fn offered_formats(field: FormatField) -> Seq<Option<Seq<char>>> {
    match field {
        FormatField::Fixed(f) => seq![Some(f@)],
        FormatField::List(items) => {
            let named = present(items@);
            if named.len() > 0 {
                Seq::new(named.len(), |i: int| Some(named[i]@))
            } else {
                seq![None]
            }
        },
        FormatField::Missing | FormatField::Other => seq![None],
    }
}

/// The texts of a run of optional strings.
pub open spec fn opt_texts(s: Seq<Option<String>>) -> Seq<Option<Seq<char>>> {
    Seq::new(s.len(), |i: int| opt_text(s[i]))
}

/// Reads a format field that may be missing, fixed or a list.
fn read_formats(field: &FormatField) -> (r: Vec<Option<String>>)
    ensures
        opt_texts(r@) == offered_formats(*field),
{
    let mut out: Vec<Option<String>> = Vec::new();
    match field {
        FormatField::Fixed(f) => {
            out.push(Some(f.clone()));
        },
        FormatField::List(items) => {
            for i in 0..items.len()
                invariant
                    out@.len() == present(items@.take(i as int)).len(),
                    forall|j: int|
                        0 <= j < out@.len() ==> opt_text(#[trigger] out@[j]) == Some(
                            present(items@.take(i as int))[j]@,
                        ),
            {
                assert(items@.take(i + 1).drop_last() =~= items@.take(i as int));
                if let Some(f) = &items[i] {
                    out.push(Some(f.clone()));
                }
            }
            assert(items@.take(items@.len() as int) =~= items@);
        },
        FormatField::Missing | FormatField::Other => {},
    }
    if out.len() == 0 {
        out.push(None);
    }
    out
}

/// One capability structure of a camera, as the backend reports it.
#[derive(Debug)]
pub struct CapsStructure {
    pub media: String,
    pub format: FormatField,
    pub width: IntField,
    pub height: IntField,
    pub framerate: RateField,
}

/// The modes of one width and height, one for each framerate in `rates`. A mode
/// with a width, height or framerate that is not positive is left out.
pub open spec fn modes_of_size(
    media: Seq<char>,
    format: Option<Seq<char>>,
    width: i32,
    height: i32,
    rates: Seq<u32>,
) -> Seq<CameraCapView>
    decreases rates.len(),
{
    if rates.len() == 0 {
        Seq::empty()
    } else {
        let init = modes_of_size(media, format, width, height, rates.drop_last());
        let framerate = rates.last();
        if width > 0 && height > 0 && framerate > 0 {
            init.push(CameraCapView { format, media, width, height, framerate })
        } else {
            init
        }
    }
}

/// The modes of one width, height by height.
pub open spec fn modes_of_width(
    media: Seq<char>,
    format: Option<Seq<char>>,
    width: i32,
    heights: Seq<i32>,
    rates: Seq<u32>,
) -> Seq<CameraCapView>
    decreases heights.len(),
{
    if heights.len() == 0 {
        Seq::empty()
    } else {
        modes_of_width(media, format, width, heights.drop_last(), rates) + modes_of_size(
            media,
            format,
            width,
            heights.last(),
            rates,
        )
    }
}

/// The modes of all widths, width by width.
pub open spec fn modes_of_widths(
    media: Seq<char>,
    format: Option<Seq<char>>,
    widths: Seq<i32>,
    heights: Seq<i32>,
    rates: Seq<u32>,
) -> Seq<CameraCapView>
    decreases widths.len(),
{
    if widths.len() == 0 {
        Seq::empty()
    } else {
        modes_of_widths(media, format, widths.drop_last(), heights, rates) + modes_of_width(
            media,
            format,
            widths.last(),
            heights,
            rates,
        )
    }
}

/// The modes of all formats, format by format.
pub open spec fn modes_of_formats(
    media: Seq<char>,
    formats: Seq<Option<Seq<char>>>,
    widths: Seq<i32>,
    heights: Seq<i32>,
    rates: Seq<u32>,
) -> Seq<CameraCapView>
    decreases formats.len(),
{
    if formats.len() == 0 {
        Seq::empty()
    } else {
        modes_of_formats(media, formats.drop_last(), widths, heights, rates) + modes_of_widths(
            media,
            formats.last(),
            widths,
            heights,
            rates,
        )
    }
}

/// The modes that one capability structure advertises: each combination of a
/// format, a width, a height and a framerate that it offers, the numbers positive.
/// A range stands for its upper end.
pub open spec fn advertised_modes(s: CapsStructure) -> Seq<CameraCapView> {
    modes_of_formats(
        s.media@,
        offered_formats(s.format),
        listed_ints(s.width),
        listed_ints(s.height),
        offered_rates(s.framerate),
    )
}

/// Adds the modes of one format to `out`.
fn collect_format(
    media: &String,
    format: &Option<String>,
    widths: &Vec<i32>,
    heights: &Vec<i32>,
    rates: &Vec<u32>,
    out: &mut Vec<CameraCap>,
)
    ensures
        caps_view(final(out)@) == caps_view(old(out)@) + modes_of_widths(
            media@,
            opt_text(*format),
            widths@,
            heights@,
            rates@,
        ),
{
    let ghost start = caps_view(out@);
    for i in 0..widths.len()
        invariant
            caps_view(out@) == start + modes_of_widths(
                media@,
                opt_text(*format),
                widths@.take(i as int),
                heights@,
                rates@,
            ),
    {
        let w: i32 = widths[i];
        let ghost before_width = caps_view(out@);
        for j in 0..heights.len()
            invariant
                caps_view(out@) == before_width + modes_of_width(
                    media@,
                    opt_text(*format),
                    w,
                    heights@.take(j as int),
                    rates@,
                ),
        {
            let h: i32 = heights[j];
            let ghost before_height = caps_view(out@);
            for k in 0..rates.len()
                invariant
                    caps_view(out@) == before_height + modes_of_size(
                        media@,
                        opt_text(*format),
                        w,
                        h,
                        rates@.take(k as int),
                    ),
            {
                let fps: u32 = rates[k];
                let ghost now = caps_view(out@);
                assert(rates@.take(k + 1).drop_last() =~= rates@.take(k as int));
                if w > 0 && h > 0 && fps > 0 {
                    let cap = CameraCap {
                        format: format.clone(),
                        media: media.clone(),
                        width: w,
                        height: h,
                        framerate: fps,
                    };
                    let ghost view = cap@;
                    out.push(cap);
                    assert(caps_view(out@) =~= now.push(view));
                }
            }
            assert(rates@.take(rates@.len() as int) =~= rates@);
            assert(heights@.take(j + 1).drop_last() =~= heights@.take(j as int));
        }
        assert(heights@.take(heights@.len() as int) =~= heights@);
        assert(widths@.take(i + 1).drop_last() =~= widths@.take(i as int));
    }
    assert(widths@.take(widths@.len() as int) =~= widths@);
}

/// Adds the modes that one capability structure advertises to `out`.
pub fn collect_caps(s: &CapsStructure, out: &mut Vec<CameraCap>)
    ensures
        caps_view(final(out)@) == caps_view(old(out)@) + advertised_modes(*s),
{
    let formats = read_formats(&s.format);
    let widths = read_listed_ints(&s.width);
    let heights = read_listed_ints(&s.height);
    let rates = read_framerates(&s.framerate);
    let ghost start = caps_view(out@);
    let ghost all = opt_texts(formats@);
    for i in 0..formats.len()
        invariant
            all == opt_texts(formats@),
            caps_view(out@) == start + modes_of_formats(
                s.media@,
                all.take(i as int),
                widths@,
                heights@,
                rates@,
            ),
    {
        collect_format(&s.media, &formats[i], &widths, &heights, &rates, out);
        assert(all.take(i + 1).drop_last() =~= all.take(i as int));
    }
    assert(all.take(all.len() as int) =~= all);
}

proof fn lemma_modes_of_size(
    media: Seq<char>,
    format: Option<Seq<char>>,
    width: i32,
    height: i32,
    rates: Seq<u32>,
    c: CameraCapView,
)
    ensures
        modes_of_size(media, format, width, height, rates).contains(c) <==> {
            &&& c.media == media
            &&& c.format == format
            &&& c.width == width && width > 0
            &&& c.height == height && height > 0
            &&& rates.contains(c.framerate) && c.framerate > 0
        },
    decreases rates.len(),
{
    if rates.len() > 0 {
        let init = rates.drop_last();
        lemma_modes_of_size(media, format, width, height, init, c);
        lemma_last_contains(rates, c.framerate);
        if width > 0 && height > 0 && rates.last() > 0 {
            let added = CameraCapView { format, media, width, height, framerate: rates.last() };
            lemma_push_contains(
                modes_of_size(media, format, width, height, init),
                added,
                c,
            );
        }
    }
}

proof fn lemma_modes_of_width(
    media: Seq<char>,
    format: Option<Seq<char>>,
    width: i32,
    heights: Seq<i32>,
    rates: Seq<u32>,
    c: CameraCapView,
)
    ensures
        modes_of_width(media, format, width, heights, rates).contains(c) <==> {
            &&& c.media == media
            &&& c.format == format
            &&& c.width == width && width > 0
            &&& heights.contains(c.height) && c.height > 0
            &&& rates.contains(c.framerate) && c.framerate > 0
        },
    decreases heights.len(),
{
    if heights.len() > 0 {
        let init = heights.drop_last();
        lemma_modes_of_width(media, format, width, init, rates, c);
        lemma_modes_of_size(media, format, width, heights.last(), rates, c);
        lemma_last_contains(heights, c.height);
        lemma_join_contains(
            modes_of_width(media, format, width, init, rates),
            modes_of_size(media, format, width, heights.last(), rates),
            c,
        );
    }
}

proof fn lemma_modes_of_widths(
    media: Seq<char>,
    format: Option<Seq<char>>,
    widths: Seq<i32>,
    heights: Seq<i32>,
    rates: Seq<u32>,
    c: CameraCapView,
)
    ensures
        modes_of_widths(media, format, widths, heights, rates).contains(c) <==> {
            &&& c.media == media
            &&& c.format == format
            &&& widths.contains(c.width) && c.width > 0
            &&& heights.contains(c.height) && c.height > 0
            &&& rates.contains(c.framerate) && c.framerate > 0
        },
    decreases widths.len(),
{
    if widths.len() > 0 {
        let init = widths.drop_last();
        lemma_modes_of_widths(media, format, init, heights, rates, c);
        lemma_modes_of_width(media, format, widths.last(), heights, rates, c);
        lemma_last_contains(widths, c.width);
        lemma_join_contains(
            modes_of_widths(media, format, init, heights, rates),
            modes_of_width(media, format, widths.last(), heights, rates),
            c,
        );
    }
}

proof fn lemma_modes_of_formats(
    media: Seq<char>,
    formats: Seq<Option<Seq<char>>>,
    widths: Seq<i32>,
    heights: Seq<i32>,
    rates: Seq<u32>,
    c: CameraCapView,
)
    ensures
        modes_of_formats(media, formats, widths, heights, rates).contains(c) <==> {
            &&& c.media == media
            &&& formats.contains(c.format)
            &&& widths.contains(c.width) && c.width > 0
            &&& heights.contains(c.height) && c.height > 0
            &&& rates.contains(c.framerate) && c.framerate > 0
        },
    decreases formats.len(),
{
    if formats.len() > 0 {
        let init = formats.drop_last();
        lemma_modes_of_formats(media, init, widths, heights, rates, c);
        lemma_modes_of_widths(media, formats.last(), widths, heights, rates, c);
        lemma_last_contains(formats, c.format);
        lemma_join_contains(
            modes_of_formats(media, init, widths, heights, rates),
            modes_of_widths(media, formats.last(), widths, heights, rates),
            c,
        );
    }
}

/// A structure advertises a mode if and only if the mode has the structure's media,
/// a format that the structure offers, and a positive width, height and framerate
/// that the structure lists, a range standing for its upper end.
pub proof fn law_advertised_modes_are_the_positive_combinations(s: CapsStructure, c: CameraCapView)
    ensures
        advertised_modes(s).contains(c) <==> {
            &&& c.media == s.media@
            &&& offered_formats(s.format).contains(c.format)
            &&& listed_ints(s.width).contains(c.width) && c.width > 0
            &&& listed_ints(s.height).contains(c.height) && c.height > 0
            &&& offered_rates(s.framerate).contains(c.framerate) && c.framerate > 0
        },
{
    lemma_modes_of_formats(
        s.media@,
        offered_formats(s.format),
        listed_ints(s.width),
        listed_ints(s.height),
        offered_rates(s.framerate),
        c,
    );
}

/// One connected camera, as the backend reports it.
#[derive(Debug)]
pub struct DeviceReport {
    /// The property `device.api`, where it is there.
    pub api: Option<String>,
    /// The property `device.path`, where it is there.
    pub path: Option<String>,
    /// The display name.
    pub name: String,
    /// The capability structures, where the camera has any.
    pub caps: Option<Vec<CapsStructure>>,
}

/// The modes that a run of capability structures advertises.
pub open spec fn all_modes(structures: Seq<CapsStructure>) -> Seq<CameraCapView>
    decreases structures.len(),
{
    if structures.len() == 0 {
        Seq::empty()
    } else {
        all_modes(structures.drop_last()) + advertised_modes(structures.last())
    }
}

/// The modes that a camera advertises.
pub open spec fn reported_modes(report: DeviceReport) -> Seq<CameraCapView> {
    match report.caps {
        Some(structures) => all_modes(structures@),
        None => Seq::empty(),
    }
}

/// The backend that a camera belongs to, empty where the report names none.
pub open spec fn reported_api(report: DeviceReport) -> Seq<char> {
    text_or_empty(opt_text(report.api))
}

/// The reports of the cameras of the backend `only_api`, or all of them where no
/// backend is asked for.
pub open spec fn wanted_reports(
    reports: Seq<DeviceReport>,
    only_api: Option<Seq<char>>,
) -> Seq<DeviceReport>
    decreases reports.len(),
{
    if reports.len() == 0 {
        Seq::empty()
    } else {
        let init = wanted_reports(reports.drop_last(), only_api);
        if only_api is None || reported_api(reports.last()) == only_api->0 {
            init.push(reports.last())
        } else {
            init
        }
    }
}

/// Whether `device` is the camera that `report` describes, its modes normalized.
pub open spec fn describes(report: DeviceReport, device: CameraDeviceView) -> bool {
    &&& device.id == text_or_empty(opt_text(report.path))
    &&& device.name == report.name@
    &&& device.api == reported_api(report)
    &&& is_normalized(reported_modes(report), device.caps)
}

/// Whether `devices` are the wanted cameras among `reports`, in order.
pub open spec fn is_probe_of(
    reports: Seq<DeviceReport>,
    only_api: Option<Seq<char>>,
    devices: Seq<CameraDeviceView>,
) -> bool {
    let wanted = wanted_reports(reports, only_api);
    &&& devices.len() == wanted.len()
    &&& forall|i: int|
        0 <= i < devices.len() ==> describes(#[trigger] wanted[i], #[trigger] devices[i])
}

fn text_or_default(s: &Option<String>) -> (r: String)
    ensures
        r@ == text_or_empty(opt_text(*s)),
{
    match s {
        Some(t) => t.clone(),
        None => String::new(),
    }
}

/// The camera that `report` describes.
fn describe(report: &DeviceReport) -> (r: CameraDevice)
    ensures
        describes(*report, r@),
{
    let mut caps: Vec<CameraCap> = Vec::new();
    if let Some(structures) = &report.caps {
        for i in 0..structures.len()
            invariant
                caps_view(caps@) == all_modes(structures@.take(i as int)),
        {
            collect_caps(&structures[i], &mut caps);
            assert(structures@.take(i + 1).drop_last() =~= structures@.take(i as int));
        }
        assert(structures@.take(structures@.len() as int) =~= structures@);
    }
    normalize_caps(&mut caps);
    CameraDevice {
        id: text_or_default(&report.path),
        name: report.name.clone(),
        api: text_or_default(&report.api),
        caps,
    }
}

/// The connected cameras and their capture modes. `only_api`, when set, keeps only
/// the cameras of that backend, so that no camera is listed twice under different
/// backends.
pub fn probe_cameras(reports: &Vec<DeviceReport>, only_api: Option<&str>) -> (r: Vec<CameraDevice>)
    ensures
        is_probe_of(reports@, opt_str(only_api), devices_view(r@)),
{
    let mut out: Vec<CameraDevice> = Vec::new();
    let ghost want = opt_str(only_api);
    for i in 0..reports.len()
        invariant
            want == opt_str(only_api),
            is_probe_of(reports@.take(i as int), want, devices_view(out@)),
    {
        let report = &reports[i];
        assert(reports@.take(i + 1).drop_last() =~= reports@.take(i as int));
        let wanted = match only_api {
            Some(api) => same_text(text_or_default(&report.api).as_str(), api),
            None => true,
        };
        if wanted {
            let device = describe(report);
            let ghost listed = devices_view(out@);
            let ghost view = device@;
            out.push(device);
            assert(devices_view(out@) =~= listed.push(view));
        }
    }
    assert(reports@.take(reports@.len() as int) =~= reports@);
    out
}

/// Two probes of the same reports list the same cameras.
pub proof fn law_probe_is_unique(
    reports: Seq<DeviceReport>,
    only_api: Option<Seq<char>>,
    x: Seq<CameraDeviceView>,
    y: Seq<CameraDeviceView>,
)
    requires
        is_probe_of(reports, only_api, x),
        is_probe_of(reports, only_api, y),
    ensures
        x == y,
{
    let wanted = wanted_reports(reports, only_api);
    assert forall|i: int| 0 <= i < x.len() implies x[i] == y[i] by {
        law_normalized_list_is_unique(reported_modes(wanted[i]), x[i].caps, y[i].caps);
    }
}

/// Every camera that is listed for a backend belongs to it.
pub proof fn law_only_the_wanted_backend_is_listed(
    reports: Seq<DeviceReport>,
    api: Seq<char>,
    devices: Seq<CameraDeviceView>,
    i: int,
)
    requires
        is_probe_of(reports, Some(api), devices),
        0 <= i < devices.len(),
    ensures
        devices[i].api == api,
{
    lemma_wanted_api(reports, api, i);
}

proof fn lemma_wanted_api(reports: Seq<DeviceReport>, api: Seq<char>, i: int)
    requires
        0 <= i < wanted_reports(reports, Some(api)).len(),
    ensures
        reported_api(wanted_reports(reports, Some(api))[i]) == api,
    decreases reports.len(),
{
    let init = wanted_reports(reports.drop_last(), Some(api));
    if i < init.len() {
        lemma_wanted_api(reports.drop_last(), api, i);
    }
}

/// Every listed mode has a positive width, height and framerate.
pub proof fn law_listed_modes_are_positive(
    reports: Seq<DeviceReport>,
    only_api: Option<Seq<char>>,
    devices: Seq<CameraDeviceView>,
    i: int,
    j: int,
)
    requires
        is_probe_of(reports, only_api, devices),
        0 <= i < devices.len(),
        0 <= j < devices[i].caps.len(),
    ensures
        devices[i].caps[j].width > 0,
        devices[i].caps[j].height > 0,
        devices[i].caps[j].framerate > 0,
{
    let report = wanted_reports(reports, only_api)[i];
    let c = devices[i].caps[j];
    assert(devices[i].caps.contains(c));
    lemma_all_modes_positive(report.caps->0@, c);
}

proof fn lemma_all_modes_positive(structures: Seq<CapsStructure>, c: CameraCapView)
    requires
        all_modes(structures).contains(c),
    ensures
        c.width > 0,
        c.height > 0,
        c.framerate > 0,
    decreases structures.len(),
{
    if structures.len() > 0 {
        let init = all_modes(structures.drop_last());
        lemma_join_contains(init, advertised_modes(structures.last()), c);
        if init.contains(c) {
            lemma_all_modes_positive(structures.drop_last(), c);
        } else {
            law_advertised_modes_are_the_positive_combinations(structures.last(), c);
        }
    }
}

/// What is there of two runs of items together is what is there of the one, then of
/// the other; of one item that is there, the item.
pub proof fn law_items_that_are_there_are_kept_in_order<T>(
    a: Seq<Option<T>>,
    b: Seq<Option<T>>,
    v: T,
)
    ensures
        present(Seq::<Option<T>>::empty()).len() == 0,
        present(seq![Some(v)]) == seq![v],
        present(seq![None::<T>]).len() == 0,
        present(a + b) == present(a) + present(b),
    decreases b.len(),
{
    reveal_with_fuel(present, 2);
    assert(seq![Some(v)].drop_last() =~= Seq::empty());
    assert(seq![None::<T>].drop_last() =~= Seq::empty());
    if b.len() == 0 {
        assert(a + b =~= a);
    } else {
        law_items_that_are_there_are_kept_in_order(a, b.drop_last(), v);
        assert((a + b).drop_last() =~= a + b.drop_last());
    }
}

proof fn lemma_present_contains<T>(items: Seq<Option<T>>, v: T)
    ensures
        present(items).contains(v) <==> items.contains(Some(v)),
        present(items).len() == 0 <==> forall|i: int|
            0 <= i < items.len() ==> (#[trigger] items[i]) is None,
    decreases items.len(),
{
    if items.len() > 0 {
        let init = items.drop_last();
        lemma_present_contains(init, v);
        lemma_last_contains(items, Some(v));
        if let Some(x) = items.last() {
            lemma_push_contains(present(init), x, v);
        } else {
            assert forall|i: int|
                present(init).len() == 0 && 0 <= i < items.len() implies (
            #[trigger] items[i]) is None by {
                if i < init.len() {
                    assert(init[i] is None);
                }
            }
        }
        if present(items).len() != 0 && items.last() is None {
            let i = choose|i: int| 0 <= i < init.len() && (#[trigger] init[i]) is Some;
            assert(items[i] is Some);
        }
    }
}

/// Reading an integer field gives its value, the values of its list that are integers,
/// in order, or both ends of its range.
pub proof fn law_integer_fields_are_read(v: i32, w: i32, items: Vec<Option<i32>>)
    ensures
        offered_ints(IntField::Fixed(v)) == seq![v],
        offered_ints(IntField::Range { min: v, max: w }) == seq![v, w],
        offered_ints(IntField::List(items)) == present(items@),
        offered_ints(IntField::Missing).len() == 0,
        offered_ints(IntField::Other).len() == 0,
{
}

/// Reading a framerate field gives its rate, the rates of its list that are fractions,
/// in order, or the upper end of its range, each in whole frames per second.
pub proof fn law_framerate_fields_are_read(
    f: Fraction,
    g: Fraction,
    items: Vec<Option<Fraction>>,
    i: int,
)
    ensures
        offered_rates(RateField::Fixed(f)) == seq![
            whole_fps(f.numer as int, f.denom as int) as u32,
        ],
        offered_rates(RateField::Range { min: f, max: g }) == seq![
            whole_fps(g.numer as int, g.denom as int) as u32,
        ],
        offered_rates(RateField::List(items)).len() == present(items@).len(),
        0 <= i < present(items@).len() ==> offered_rates(RateField::List(items))[i] == whole_fps(
            present(items@)[i].numer as int,
            present(items@)[i].denom as int,
        ) as u32,
        offered_rates(RateField::Missing).len() == 0,
        offered_rates(RateField::Other).len() == 0,
{
}

/// Whether an integer field lists `v` for a mode: it is the value, one of the list, or
/// the upper end of the range.
pub open spec fn lists_int(field: IntField, v: i32) -> bool {
    match field {
        IntField::Fixed(x) => v == x,
        IntField::Range { min, max } => v == max,
        IntField::List(items) => items@.contains(Some(v)),
        IntField::Missing | IntField::Other => false,
    }
}

/// Whether a framerate field lists `v` whole frames per second for a mode.
pub open spec fn lists_rate(field: RateField, v: u32) -> bool {
    match field {
        RateField::Fixed(f) => whole_fps(f.numer as int, f.denom as int) as u32 == v,
        RateField::Range { min, max } => whole_fps(max.numer as int, max.denom as int) as u32 == v,
        RateField::List(items) => exists|f: Fraction|
            #[trigger] items@.contains(Some(f)) && whole_fps(f.numer as int, f.denom as int) as u32
                == v,
        RateField::Missing | RateField::Other => false,
    }
}

/// Whether a format field lists the format `v` for a mode: it is the text, or one of
/// the list, or no format where the field names none.
pub open spec fn lists_format(field: FormatField, v: Option<Seq<char>>) -> bool {
    match field {
        FormatField::Fixed(t) => v == Some(t@),
        FormatField::List(items) => match v {
            Some(f) => exists|t: String| #[trigger] items@.contains(Some(t)) && t@ == f,
            None => forall|i: int| 0 <= i < items@.len() ==> (#[trigger] items@[i]) is None,
        },
        FormatField::Missing | FormatField::Other => v is None,
    }
}

proof fn lemma_listed_ints(field: IntField, v: i32)
    ensures
        listed_ints(field).contains(v) <==> lists_int(field, v),
{
    match field {
        IntField::Fixed(x) => {
            assert(seq![x][0] == x);
        },
        IntField::Range { min, max } => {
            assert(seq![max][0] == max);
        },
        IntField::List(items) => {
            lemma_present_contains(items@, v);
        },
        _ => {},
    }
}

proof fn lemma_listed_rates(field: RateField, v: u32)
    ensures
        offered_rates(field).contains(v) <==> lists_rate(field, v),
{
    let fractions = offered_fractions(field);
    let rates = offered_rates(field);
    if rates.contains(v) {
        let i = choose|i: int| 0 <= i < rates.len() && rates[i] == v;
        if let RateField::List(items) = field {
            assert(fractions.contains(fractions[i]));
            lemma_present_contains(items@, fractions[i]);
        }
    }
    if lists_rate(field, v) {
        match field {
            RateField::List(items) => {
                let f = choose|f: Fraction|
                    #[trigger] items@.contains(Some(f)) && whole_fps(
                        f.numer as int,
                        f.denom as int,
                    ) as u32 == v;
                lemma_present_contains(items@, f);
                let i = choose|i: int| 0 <= i < fractions.len() && fractions[i] == f;
                assert(rates[i] == v);
            },
            _ => {
                assert(rates[0] == v);
            },
        }
    }
}

proof fn lemma_listed_formats(field: FormatField, v: Option<Seq<char>>)
    ensures
        offered_formats(field).contains(v) <==> lists_format(field, v),
{
    let formats = offered_formats(field);
    match field {
        FormatField::List(items) => {
            let named = present(items@);
            if named.len() == 0 {
                lemma_present_contains(items@, arbitrary());
                assert(formats[0] is None);
                if let Some(f) = v {
                    if exists|t: String| #[trigger] items@.contains(Some(t)) && t@ == f {
                        let t = choose|t: String| #[trigger] items@.contains(Some(t)) && t@ == f;
                        lemma_present_contains(items@, t);
                    }
                }
            } else {
                lemma_present_contains(items@, named[0]);
                if formats.contains(v) {
                    let i = choose|i: int| 0 <= i < formats.len() && formats[i] == v;
                    assert(named.contains(named[i]));
                    lemma_present_contains(items@, named[i]);
                }
                if v is Some && lists_format(field, v) {
                    let t = choose|t: String| #[trigger] items@.contains(Some(t)) && t@ == v->0;
                    lemma_present_contains(items@, t);
                    let i = choose|i: int| 0 <= i < named.len() && named[i] == t;
                    assert(formats[i] == v);
                }
            }
        },
        FormatField::Fixed(t) => {
            assert(formats[0] == Some(t@));
        },
        _ => {
            assert(formats[0] is None);
        },
    }
}

/// A structure advertises a mode if and only if the mode has the structure's media,
/// its fields list the format, the width, the height and the framerate, and the numbers
/// are positive.
pub proof fn law_every_listed_combination_is_advertised(s: CapsStructure, c: CameraCapView)
    ensures
        advertised_modes(s).contains(c) <==> {
            &&& c.media == s.media@
            &&& lists_format(s.format, c.format)
            &&& lists_int(s.width, c.width) && c.width > 0
            &&& lists_int(s.height, c.height) && c.height > 0
            &&& lists_rate(s.framerate, c.framerate) && c.framerate > 0
        },
{
    law_advertised_modes_are_the_positive_combinations(s, c);
    lemma_listed_formats(s.format, c.format);
    lemma_listed_ints(s.width, c.width);
    lemma_listed_ints(s.height, c.height);
    lemma_listed_rates(s.framerate, c.framerate);
}

proof fn lemma_all_modes_contains(structures: Seq<CapsStructure>, c: CameraCapView)
    ensures
        all_modes(structures).contains(c) <==> exists|t: int|
            0 <= t < structures.len() && advertised_modes(#[trigger] structures[t]).contains(c),
    decreases structures.len(),
{
    if structures.len() > 0 {
        let init = structures.drop_last();
        lemma_all_modes_contains(init, c);
        lemma_join_contains(all_modes(init), advertised_modes(structures.last()), c);
        if all_modes(init).contains(c) {
            let t = choose|t: int|
                0 <= t < init.len() && advertised_modes(#[trigger] init[t]).contains(c);
            assert(structures[t] == init[t]);
        }
        if advertised_modes(structures.last()).contains(c) {
            assert(structures[structures.len() - 1] == structures.last());
        }
        assert forall|t: int|
            0 <= t < structures.len() && advertised_modes(#[trigger] structures[t]).contains(
                c,
            ) implies all_modes(structures).contains(c) by {
            if t < init.len() {
                assert(init[t] == structures[t]);
            }
        }
    }
}

/// The positions in `reports` of the wanted cameras.
spec fn wanted_positions(reports: Seq<DeviceReport>, only_api: Option<Seq<char>>) -> Seq<int>
    decreases reports.len(),
{
    if reports.len() == 0 {
        Seq::empty()
    } else {
        let init = wanted_positions(reports.drop_last(), only_api);
        if only_api is None || reported_api(reports.last()) == only_api->0 {
            init.push(reports.len() - 1)
        } else {
            init
        }
    }
}

proof fn lemma_wanted_positions(reports: Seq<DeviceReport>, only_api: Option<Seq<char>>)
    ensures
        ({
            let pick = wanted_positions(reports, only_api);
            let wanted = wanted_reports(reports, only_api);
            &&& pick.len() == wanted.len()
            &&& forall|j: int|
                0 <= j < pick.len() ==> 0 <= #[trigger] pick[j] < reports.len()
                    && reports[pick[j]] == wanted[j]
            &&& forall|i: int, j: int|
                0 <= i < j < pick.len() ==> #[trigger] pick[i] < #[trigger] pick[j]
            &&& forall|k: int|
                0 <= k < reports.len() ==> (#[trigger] pick.contains(k) <==> only_api is None
                    || reported_api(reports[k]) == only_api->0)
        }),
    decreases reports.len(),
{
    if reports.len() > 0 {
        let init = reports.drop_last();
        let before = wanted_positions(init, only_api);
        let pick = wanted_positions(reports, only_api);
        lemma_wanted_positions(init, only_api);
        assert forall|k: int| 0 <= k < reports.len() implies (#[trigger] pick.contains(k) <==>
            only_api is None || reported_api(reports[k]) == only_api->0) by {
            lemma_push_contains(before, reports.len() - 1, k);
            if k < init.len() {
                assert(init[k] == reports[k]);
            } else if before.contains(k) {
                let j = choose|j: int| 0 <= j < before.len() && before[j] == k;
                assert(before[j] < init.len());
            }
        }
        assert forall|j: int| 0 <= j < pick.len() implies 0 <= #[trigger] pick[j] < reports.len()
            && reports[pick[j]] == wanted_reports(reports, only_api)[j] by {
            if j < before.len() {
                assert(before[j] < init.len());
                assert(init[before[j]] == reports[before[j]]);
            }
        }
    }
}

/// The list holds a camera for each report of the wanted backend, or for every report
/// where no backend is asked for, in the order of the reports, and no other: `pick`
/// are the positions of those reports. Each camera has the path, the name and the
/// backend of its report, empty where the report has none, and the modes of its report.
pub proof fn law_every_wanted_camera_is_listed(
    reports: Seq<DeviceReport>,
    only_api: Option<Seq<char>>,
    devices: Seq<CameraDeviceView>,
)
    requires
        is_probe_of(reports, only_api, devices),
    ensures
        exists|pick: Seq<int>| #![trigger pick.len()]
            {
                &&& pick.len() == devices.len()
                &&& forall|i: int, j: int|
                    0 <= i < j < pick.len() ==> #[trigger] pick[i] < #[trigger] pick[j]
                &&& forall|k: int|
                    0 <= k < reports.len() ==> (#[trigger] pick.contains(k) <==> match only_api {
                        Some(wanted) => match reports[k].api {
                            Some(api) => api@ == wanted,
                            None => wanted.len() == 0,
                        },
                        None => true,
                    })
                &&& forall|j: int|
                    0 <= j < pick.len() ==> {
                        let report = reports[#[trigger] pick[j]];
                        &&& 0 <= pick[j] < reports.len()
                        &&& describes(report, devices[j])
                        &&& devices[j].name == report.name@
                        &&& match report.path {
                            Some(path) => devices[j].id == path@,
                            None => devices[j].id.len() == 0,
                        }
                        &&& match report.api {
                            Some(api) => devices[j].api == api@,
                            None => devices[j].api.len() == 0,
                        }
                    }
            },
{
    lemma_wanted_positions(reports, only_api);
    let pick = wanted_positions(reports, only_api);
    let wanted = wanted_reports(reports, only_api);
    assert forall|k: int| 0 <= k < reports.len() implies (#[trigger] pick.contains(k) <==>
        match only_api {
        Some(wanted) => match reports[k].api {
            Some(api) => api@ == wanted,
            None => wanted.len() == 0,
        },
        None => true,
    }) by {
        if let Some(w) = only_api {
            if reports[k].api is None && w.len() == 0 {
                assert(w =~= Seq::<char>::empty());
            }
        }
    }
    assert forall|j: int| 0 <= j < pick.len() implies {
        let report = reports[#[trigger] pick[j]];
        &&& 0 <= pick[j] < reports.len()
        &&& describes(report, devices[j])
        &&& devices[j].name == report.name@
        &&& match report.path {
            Some(path) => devices[j].id == path@,
            None => devices[j].id.len() == 0,
        }
        &&& match report.api {
            Some(api) => devices[j].api == api@,
            None => devices[j].api.len() == 0,
        }
    } by {
        assert(describes(wanted[j], devices[j]));
    }
    assert(pick.len() == devices.len());
}

/// The modes of a listed camera come the larger first, then the faster, and none twice.
pub proof fn law_modes_of_a_camera_are_sorted(
    report: DeviceReport,
    device: CameraDeviceView,
    i: int,
    j: int,
)
    requires
        describes(report, device),
        0 <= i < j < device.caps.len(),
    ensures
        device.caps[i] != device.caps[j],
        device.caps[j].width <= device.caps[i].width,
        device.caps[j].width == device.caps[i].width ==> device.caps[j].height
            <= device.caps[i].height,
        device.caps[j].width == device.caps[i].width && device.caps[j].height
            == device.caps[i].height ==> device.caps[j].framerate <= device.caps[i].framerate,
{
    law_larger_and_faster_modes_come_first(reported_modes(report), device.caps, i, j);
}

/// A camera is listed with a mode if and only if a structure of its report has that
/// media, lists that format, width, height and framerate, and the numbers are positive.
pub proof fn law_listed_modes_are_those_of_the_report(
    report: DeviceReport,
    device: CameraDeviceView,
    c: CameraCapView,
)
    requires
        describes(report, device),
    ensures
        device.caps.contains(c) <==> {
            &&& report.caps is Some
            &&& c.width > 0 && c.height > 0 && c.framerate > 0
            &&& exists|t: int|
                {
                    let s = #[trigger] report.caps->0@[t];
                    &&& 0 <= t < report.caps->0@.len()
                    &&& c.media == s.media@
                    &&& lists_format(s.format, c.format)
                    &&& lists_int(s.width, c.width)
                    &&& lists_int(s.height, c.height)
                    &&& lists_rate(s.framerate, c.framerate)
                }
        },
{
    assert(reported_modes(report).contains(c) <==> device.caps.contains(c));
    if let Some(structures) = report.caps {
        lemma_all_modes_contains(structures@, c);
        assert forall|t: int| 0 <= t < structures@.len() implies (advertised_modes(
            #[trigger] structures@[t],
        ).contains(c) <==> {
            let s = structures@[t];
            &&& c.media == s.media@
            &&& lists_format(s.format, c.format)
            &&& lists_int(s.width, c.width) && c.width > 0
            &&& lists_int(s.height, c.height) && c.height > 0
            &&& lists_rate(s.framerate, c.framerate) && c.framerate > 0
        }) by {
            law_every_listed_combination_is_advertised(structures@[t], c);
        }
    }
}

/// The modes of two runs of structures together are those of the one, then of the
/// other; so a mode that one structure advertises does not depend on the others.
pub proof fn law_modes_of_structures_add_up(a: Seq<CapsStructure>, b: Seq<CapsStructure>)
    ensures
        all_modes(a + b) == all_modes(a) + all_modes(b),
    decreases b.len(),
{
    if b.len() == 0 {
        assert(a + b =~= a);
    } else {
        law_modes_of_structures_add_up(a, b.drop_last());
        assert((a + b).drop_last() =~= a + b.drop_last());
    }
}

/// The modes of one size come rate by rate: one for each positive rate, none for the
/// others, in the order of the rates.
pub proof fn law_modes_of_rates_add_up(
    media: Seq<char>,
    format: Option<Seq<char>>,
    width: i32,
    height: i32,
    a: Seq<u32>,
    b: Seq<u32>,
    rate: u32,
)
    ensures
        modes_of_size(media, format, width, height, a + b) == modes_of_size(
            media,
            format,
            width,
            height,
            a,
        ) + modes_of_size(media, format, width, height, b),
        modes_of_size(media, format, width, height, seq![rate]) == (if width > 0 && height > 0
            && rate > 0 {
            seq![CameraCapView { format, media, width, height, framerate: rate }]
        } else {
            Seq::<CameraCapView>::empty()
        }),
    decreases b.len(),
{
    reveal_with_fuel(modes_of_size, 2);
    assert(seq![rate].drop_last() =~= Seq::empty());
    if b.len() == 0 {
        assert(a + b =~= a);
    } else {
        law_modes_of_rates_add_up(media, format, width, height, a, b.drop_last(), rate);
        assert((a + b).drop_last() =~= a + b.drop_last());
    }
}

/// The modes of several sizes come height by height within each width, width by width
/// within each format, and format by format.
pub proof fn law_modes_of_sizes_add_up(
    media: Seq<char>,
    format: Option<Seq<char>>,
    width: i32,
    height: i32,
    widths: Seq<i32>,
    heights: Seq<i32>,
    formats: Seq<Option<Seq<char>>>,
    rates: Seq<u32>,
)
    ensures
        modes_of_width(media, format, width, heights.push(height), rates) == modes_of_width(
            media,
            format,
            width,
            heights,
            rates,
        ) + modes_of_size(media, format, width, height, rates),
        modes_of_widths(media, format, widths.push(width), heights, rates) == modes_of_widths(
            media,
            format,
            widths,
            heights,
            rates,
        ) + modes_of_width(media, format, width, heights, rates),
        modes_of_formats(media, formats.push(format), widths, heights, rates) == modes_of_formats(
            media,
            formats,
            widths,
            heights,
            rates,
        ) + modes_of_widths(media, format, widths, heights, rates),
        modes_of_width(media, format, width, Seq::empty(), rates).len() == 0,
        modes_of_widths(media, format, Seq::empty(), heights, rates).len() == 0,
        modes_of_formats(media, Seq::empty(), widths, heights, rates).len() == 0,
{
    assert(heights.push(height).drop_last() =~= heights);
    assert(widths.push(width).drop_last() =~= widths);
    assert(formats.push(format).drop_last() =~= formats);
}

} // verus!
