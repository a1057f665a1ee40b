//! The log filter, from the environment variable `RUST_LOG`.

use vstd::prelude::*;

use crate::config::EnvVar;
use crate::text::{chars_of, code_point, debug_text, is_white_space, quoted, white_space};

verus! {

/// The variable that sets the log filter.
pub const LOG_FILTER_VARIABLE: &'static str = "RUST_LOG";

/// The log filter where none is set.
pub const DEFAULT_LOG_FILTER: &'static str = "webrtc_camera_server=info,tower_http=info";

/// The variable `RUST_LOG`, and whether it can be read.
#[derive(Debug)]
pub enum FilterVar {
    Unset,
    /// Set to this text, which can be read as a filter or not.
    Text { text: String, readable: bool },
    /// Set to something that is not valid Unicode.
    NotUnicode,
}

/// A log filter that is set to something that cannot be read.
#[derive(Debug, PartialEq, Eq)]
pub enum FilterError {
    /// This text is no filter.
    NotAFilter(String),
    /// This text has a misaligned directive.
    Misaligned(String),
    NotUnicode,
}

/// What a `FilterError` holds.
pub enum FilterErrorView {
    NotAFilter(Seq<char>),
    Misaligned(Seq<char>),
    NotUnicode,
}

impl View for FilterError {
    type V = FilterErrorView;

    open spec fn view(&self) -> FilterErrorView {
        match *self {
            FilterError::NotAFilter(t) => FilterErrorView::NotAFilter(t@),
            FilterError::Misaligned(t) => FilterErrorView::Misaligned(t@),
            FilterError::NotUnicode => FilterErrorView::NotUnicode,
        }
    }
}

/// The message for a log filter that is no filter, given its quoted text.
pub fn filter_message(quoted: &str) -> (r: String)
    ensures
        r@ == "RUST_LOG is not a valid filter: "@ + quoted@,
{
    let mut s = "RUST_LOG is not a valid filter: ".to_owned();
    s.append(quoted);
    s
}

/// The message for a log filter with a misaligned directive, given its quoted text.
pub fn misaligned_message(quoted: &str) -> (r: String)
    ensures
        r@ == "RUST_LOG has a directive that starts with white space: "@ + quoted@,
{
    let mut s = "RUST_LOG has a directive that starts with white space: ".to_owned();
    s.append(quoted);
    s
}

/// The message for a log filter that cannot be read.
pub open spec fn filter_error_text(e: FilterErrorView) -> Seq<char> {
    match e {
        FilterErrorView::NotAFilter(t) => "RUST_LOG is not a valid filter: "@ + debug_text(t),
        FilterErrorView::Misaligned(t) => "RUST_LOG has a directive that starts with white space: "@
            + debug_text(t),
        FilterErrorView::NotUnicode => "RUST_LOG is not valid Unicode"@,
    }
}

impl FilterError {
    /// The message for this log filter.
    pub fn message(&self) -> (r: String)
        ensures
            r@ == filter_error_text(self@),
    {
        match self {
            FilterError::NotAFilter(t) => filter_message(quoted(t.as_str()).as_str()),
            FilterError::Misaligned(t) => misaligned_message(quoted(t.as_str()).as_str()),
            FilterError::NotUnicode => "RUST_LOG is not valid Unicode".to_owned(),
        }
    }
}

/// The log filter: the one that is set, or the default one. One that is set but
/// cannot be read fails, as with every other variable.
pub fn log_filter(var: FilterVar) -> (r: Result<String, FilterError>)
    ensures
        match r {
            Ok(filter) => match var {
                FilterVar::Unset => filter@ == DEFAULT_LOG_FILTER@,
                FilterVar::Text { text, readable } => readable && filter@ == text@,
                FilterVar::NotUnicode => false,
            },
            Err(e) => match var {
                FilterVar::Unset => false,
                FilterVar::Text { text, readable } => !readable && e@
                    == FilterErrorView::NotAFilter(text@),
                FilterVar::NotUnicode => e@ == FilterErrorView::NotUnicode,
            },
        },
{
    match var {
        FilterVar::Unset => Ok(DEFAULT_LOG_FILTER.to_owned()),
        FilterVar::Text { text, readable } => if readable {
            Ok(text)
        } else {
            Err(FilterError::NotAFilter(text))
        },
        FilterVar::NotUnicode => Err(FilterError::NotUnicode),
    }
}

/// Whether a directive of the filter `s` starts at `i`. Directives are separated by
/// commas.
pub open spec fn starts_directive(s: Seq<char>, i: int) -> bool {
    0 <= i < s.len() && (i == 0 || s[i - 1] == ',')
}

/// Whether `a` and `b`, in this order, are positions in the same directive.
pub open spec fn in_same_directive(s: Seq<char>, a: int, b: int) -> bool {
    0 <= a <= b < s.len() && forall|k: int| a <= k <= b ==> #[trigger] s[k] != ','
}

/// Whether the directive that starts at `a` with white space holds a character that
/// is not ASCII at `b`, and an equals sign or an opening bracket at `c`.
pub open spec fn misaligned_at(s: Seq<char>, a: int, b: int, c: int) -> bool {
    &&& starts_directive(s, a)
    &&& white_space(s[a])
    &&& in_same_directive(s, a, b)
    &&& s[b] as int >= 128
    &&& in_same_directive(s, a, c)
    &&& s[c] == '=' || s[c] == '['
}

/// Whether the filter `s` has a misaligned directive: one that starts with white
/// space, holds a character that is not ASCII, and an equals sign or an opening
/// bracket.
pub open spec fn misaligned(s: Seq<char>) -> bool {
    exists|a: int, b: int, c: int| misaligned_at(s, a, b, c)
}

/// Whether `text` has a misaligned directive.
pub fn is_misaligned(text: &str) -> (r: bool)
    ensures
        r == misaligned(text@),
{
    let s = chars_of(text);
    let mut start: usize = 0;
    let mut leads: bool = false;
    let mut wide: bool = false;
    let mut marked: bool = false;
    let ghost mut wide_at: int = 0;
    let ghost mut mark_at: int = 0;
    for n in 0..s.len()
        invariant
            s@ == text@,
            start <= n,
            start == 0 || s@[start - 1] == ',',
            forall|k: int| start <= k < n ==> #[trigger] s@[k] != ',',
            leads == (start < n && white_space(s@[start as int])),
            wide ==> start <= wide_at < n && s@[wide_at] as int >= 128,
            !wide ==> forall|k: int| start <= k < n ==> 128 > (#[trigger] s@[k]) as int,
            marked ==> start <= mark_at < n && (s@[mark_at] == '=' || s@[mark_at] == '['),
            !marked ==> forall|k: int|
                start <= k < n ==> #[trigger] s@[k] != '=' && s@[k] != '[',
            forall|a: int, b: int, c: int|
                b < n && c < n ==> !#[trigger] misaligned_at(s@, a, b, c),
    {
        let c = s[n];
        if c == ',' {
            start = n + 1;
            leads = false;
            wide = false;
            marked = false;
        } else {
            if n == start {
                leads = is_white_space(c);
            }
            if code_point(c) >= 128 {
                wide = true;
                proof {
                    wide_at = n as int;
                }
            }
            if c == '=' || c == '[' {
                marked = true;
                proof {
                    mark_at = n as int;
                }
            }
            if leads && wide && marked {
                assert(misaligned_at(s@, start as int, wide_at, mark_at));
                return true;
            }
            assert forall|a: int, b: int, c: int| b < n + 1 && c < n + 1 implies
                !#[trigger] misaligned_at(s@, a, b, c) by {
                if misaligned_at(s@, a, b, c) {
                    let last = if b > c { b } else { c };
                    assert(in_same_directive(s@, a, last));
                    assert(a == start);
                }
            }
        }
    }
    false
}

/// Whether `EnvFilter::try_new` of the crate `tracing-subscriber` takes the text.
pub uninterp spec fn readable_as_filter(text: Seq<char>) -> bool;

/// Calls `EnvFilter::try_new` of the crate `tracing-subscriber`, and says whether it
/// takes the text; which texts it takes is left to that crate, and named by
/// `readable_as_filter`. It counts positions in a directive without its leading
/// white space and then cuts the directive with it, which panics where such a
/// position falls inside a character. So texts with a misaligned directive are not
/// handed to it: on every text on which it panics there is one, and on some of those
/// that have one it would not panic.
#[verifier::external_body]
fn reads_as_filter(text: &str) -> (r: bool)
    requires
        !misaligned(text@),
    ensures
        r == readable_as_filter(text@),
{
    tracing_subscriber::EnvFilter::try_new(text).is_ok()
}

/// What comes of reading the log filter.
pub open spec fn filter_outcome(var: EnvVar) -> Result<Seq<char>, FilterErrorView> {
    match var {
        EnvVar::Unset => Ok(DEFAULT_LOG_FILTER@),
        EnvVar::Text(t) => if misaligned(t@) {
            Err(FilterErrorView::Misaligned(t@))
        } else if readable_as_filter(t@) {
            Ok(t@)
        } else {
            Err(FilterErrorView::NotAFilter(t@))
        },
        EnvVar::NotUnicode => Err(FilterErrorView::NotUnicode),
    }
}

/// The log filter that the variable `RUST_LOG` asks for: its text, or the default one
/// where it is not set. A text that cannot be read as a filter fails, and so does one
/// with a misaligned directive, which the reader of filters cannot be handed.
pub fn filter_from(var: EnvVar) -> (r: Result<String, FilterError>)
    ensures
        match var {
            EnvVar::Unset => r matches Ok(filter) && filter@ == DEFAULT_LOG_FILTER@,
            EnvVar::Text(t) => if misaligned(t@) {
                r matches Err(e) && e@ == FilterErrorView::Misaligned(t@)
            } else if readable_as_filter(t@) {
                r matches Ok(filter) && filter@ == t@
            } else {
                r matches Err(e) && e@ == FilterErrorView::NotAFilter(t@)
            },
            EnvVar::NotUnicode => r matches Err(e) && e@ == FilterErrorView::NotUnicode,
        },
        match r {
            Ok(filter) => filter_outcome(var) == Ok::<Seq<char>, FilterErrorView>(filter@),
            Err(e) => filter_outcome(var) == Err::<Seq<char>, FilterErrorView>(e@),
        },
{
    let var = match var {
        EnvVar::Unset => FilterVar::Unset,
        EnvVar::Text(text) => {
            if is_misaligned(text.as_str()) {
                return Err(FilterError::Misaligned(text));
            }
            let readable = reads_as_filter(text.as_str());
            FilterVar::Text { text, readable }
        },
        EnvVar::NotUnicode => FilterVar::NotUnicode,
    };
    log_filter(var)
}

/// A filter that is set and can be read is taken as it is, one that is set and cannot be
/// read fails with its text, and one that is not set is the default one.
pub proof fn law_filter_is_taken_or_fails(var: EnvVar)
    ensures
        match filter_outcome(var) {
            Ok(filter) => {
                ||| var is Unset && filter == "webrtc_camera_server=info,tower_http=info"@
                ||| var is Text && filter == var->0@ && readable_as_filter(filter) && !misaligned(
                    filter,
                )
            },
            Err(FilterErrorView::NotUnicode) => var is NotUnicode,
            Err(FilterErrorView::NotAFilter(t)) => var is Text && t == var->0@
                && !readable_as_filter(t),
            Err(FilterErrorView::Misaligned(t)) => var is Text && t == var->0@ && misaligned(t),
        },
        var is Text && !misaligned(var->0@) && readable_as_filter(var->0@) ==> filter_outcome(
            var,
        ) is Ok,
{
}

/// No directive is misaligned in a filter that is all ASCII, nor in one in which no
/// directive starts with white space, nor in one without equals signs and brackets.
pub proof fn law_ordinary_filters_are_aligned(s: Seq<char>)
    requires
        (forall|i: int| 0 <= i < s.len() ==> (#[trigger] s[i]) as int <= 127) || (forall|i: int|
            0 <= i < s.len() && (i == 0 || s[i - 1] == ',') ==> !white_space(#[trigger] s[i])) || (
        forall|i: int| 0 <= i < s.len() ==> #[trigger] s[i] != '=' && s[i] != '['),
    ensures
        !misaligned(s),
{
}

/// A directive that starts with white space and holds both a character that is not
/// ASCII and an equals sign or an opening bracket is misaligned, wherever in the filter
/// it stands.
pub proof fn law_misaligned_wherever_it_stands(
    before: Seq<char>,
    directive: Seq<char>,
    after: Seq<char>,
    b: int,
    c: int,
)
    requires
        before.len() == 0 || before.last() == ',',
        directive.len() > 0,
        white_space(directive[0]),
        forall|k: int| 0 <= k < directive.len() ==> #[trigger] directive[k] != ',',
        0 <= b < directive.len() && directive[b] as int >= 128,
        0 <= c < directive.len() && (directive[c] == '=' || directive[c] == '['),
    ensures
        misaligned(before + directive + after),
{
    let s = before + directive + after;
    let n = before.len() as int;
    assert forall|k: int| n <= k < n + directive.len() implies #[trigger] s[k] == directive[k
        - n] by {}
    assert(misaligned_at(s, n, n + b, n + c));
}

/// The message for a filter that cannot be read ends with its quoted text.
pub proof fn law_filter_messages_name_the_text(t: Seq<char>)
    ensures
        filter_error_text(FilterErrorView::NotAFilter(t)) == "RUST_LOG is not a valid filter: "@
            + debug_text(t),
        filter_error_text(FilterErrorView::Misaligned(t))
            == "RUST_LOG has a directive that starts with white space: "@ + debug_text(t),
        filter_error_text(FilterErrorView::NotUnicode) == "RUST_LOG is not valid Unicode"@,
{
}

} // verus!
