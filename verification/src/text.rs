//! Text helpers: decimal numbers, searching, replacing and ordering of strings.

use vstd::prelude::*;

verus! {

/// `String::push` appends one character to the end of the string. Nothing else
/// of the string changes.
pub assume_specification[ String::push ](s: &mut String, c: char)
    ensures
        final(s)@ == old(s)@.push(c),
;

/// What the `Debug` formatter of `str` writes for the text `s`: the text between
/// double quotes, with escapes.
pub uninterp spec fn debug_text(s: Seq<char>) -> Seq<char>;

/// Calls `format!` with the `{:?}` placeholder on a `str`. The text that comes
/// back is the one that `debug_text` names; which characters are escaped, and
/// how, is left to the standard library.
#[verifier::external_body]
pub(crate) fn quoted(s: &str) -> (r: String)
    ensures
        r@ == debug_text(s@),
{
    format!("{:?}", s)
}

/// The characters of `s`, in order.
pub fn chars_of(s: &str) -> (r: Vec<char>)
    ensures
        r@ == s@,
{
    let mut r: Vec<char> = Vec::new();
    for c in it: s.chars()
        invariant
            r@ == it.seq().take(it.index()),
            it.seq() == s@,
    {
        r.push(c);
    }
    r
}

/// The text of an optional string.
pub open spec fn opt_text(s: Option<String>) -> Option<Seq<char>> {
    match s {
        Some(t) => Some(t@),
        None => None,
    }
}

/// The text of an optional string slice.
pub open spec fn opt_str(s: Option<&str>) -> Option<Seq<char>> {
    match s {
        Some(t) => Some(t@),
        None => None,
    }
}

/// The text of an optional string, empty where there is none.
pub open spec fn text_or_empty(s: Option<Seq<char>>) -> Seq<char> {
    match s {
        Some(t) => t,
        None => Seq::empty(),
    }
}

/// Whether two optional strings hold the same text, or are both absent.
pub fn same_opt(a: &Option<String>, b: &Option<String>) -> (r: bool)
    ensures
        r == (opt_text(*a) == opt_text(*b)),
{
    match (a, b) {
        (Some(x), Some(y)) => *x == *y,
        (None, None) => true,
        _ => false,
    }
}

/// Whether two string slices hold the same text.
pub fn same_text(a: &str, b: &str) -> (r: bool)
    ensures
        r == (a@ == b@),
{
    a.to_owned() == b.to_owned()
}

/// The code point of `c`.
pub(crate) fn code_point(c: char) -> (r: u32)
    ensures
        r as int == c as int,
{
    c as u32
}

/// The decimal digit of value `n`.
pub open spec fn digit(n: nat) -> char {
    ('0' as int + n) as char
}

/// `n` in decimal, without leading zeros.
pub open spec fn decimal(n: nat) -> Seq<char>
    decreases n,
{
    if n < 10 {
        seq![digit(n)]
    } else {
        decimal(n / 10).push(digit(n % 10))
    }
}

/// Writes `n` in decimal at the end of `out`.
pub fn push_decimal(out: &mut String, n: u64)
    ensures
        final(out)@ == old(out)@ + decimal(n as nat),
    decreases n,
{
    if n >= 10 {
        push_decimal(out, n / 10);
    }
    let d: u8 = (n % 10) as u8;
    out.push((48 + d) as char);
}

/// Whether `pat` stands in `s` from position `i` on.
pub open spec fn stands_at(s: Seq<char>, pat: Seq<char>, i: int) -> bool {
    0 <= i && i + pat.len() <= s.len() && s.subrange(i, i + pat.len()) == pat
}

/// Whether `pat` is a substring of `s`.
pub open spec fn occurs_in(pat: Seq<char>, s: Seq<char>) -> bool {
    exists|i: int| #[trigger] stands_at(s, pat, i)
}

/// `s` with each occurrence of `from` turned into `to`, read from left to right,
/// occurrences not overlapping. An empty `from` stands before each character and
/// at the end.
pub open spec fn replaced(s: Seq<char>, from: Seq<char>, to: Seq<char>) -> Seq<char>
    decreases s.len(),
{
    if s.len() < from.len() {
        s
    } else if from.len() == 0 {
        if s.len() == 0 {
            to
        } else {
            to + seq![s[0]] + replaced(s.skip(1), from, to)
        }
    } else if stands_at(s, from, 0) {
        to + replaced(s.skip(from.len() as int), from, to)
    } else {
        seq![s[0]] + replaced(s.skip(1), from, to)
    }
}

fn matches_at(s: &Vec<char>, pat: &Vec<char>, i: usize) -> (r: bool)
    requires
        i <= s@.len(),
    ensures
        r == stands_at(s@, pat@, i as int),
{
    if pat.len() > s.len() - i {
        return false;
    }
    for k in 0..pat.len()
        invariant
            i + pat.len() <= s.len(),
            s@.subrange(i as int, i + k) =~= pat@.take(k as int),
    {
        if s[i + k] != pat[k] {
            return false;
        }
    }
    assert(pat@.take(pat@.len() as int) =~= pat@);
    true
}

/// Whether `pat` is a substring of `s`.
pub fn contains(s: &str, pat: &str) -> (r: bool)
    ensures
        r == occurs_in(pat@, s@),
{
    let text = chars_of(s);
    let sought = chars_of(pat);
    let mut i: usize = 0;
    while i < text.len()
        invariant
            text@ == s@,
            sought@ == pat@,
            i <= text@.len(),
            forall|j: int| 0 <= j < i ==> !#[trigger] stands_at(s@, pat@, j),
        decreases text@.len() - i,
    {
        if matches_at(&text, &sought, i) {
            return true;
        }
        i = i + 1;
    }
    matches_at(&text, &sought, i)
}

/// `s` with each occurrence of `from` turned into `to`.
pub fn replace(s: &str, from: &str, to: &str) -> (r: String)
    ensures
        r@ == replaced(s@, from@, to@),
{
    let text = chars_of(s);
    let pat = chars_of(from);
    let mut out = String::new();
    let mut i: usize = 0;
    assert(text@.skip(0) =~= text@);
    while i < text.len()
        invariant
            i <= text@.len(),
            pat@ == from@,
            out@ + replaced(text@.skip(i as int), from@, to@) == replaced(text@, from@, to@),
        decreases text@.len() - i,
    {
        let ghost rest = text@.skip(i as int);
        assert(rest.skip(1) =~= text@.skip(i + 1));
        assert(stands_at(rest, pat@, 0) == stands_at(text@, pat@, i as int)) by {
            if pat@.len() <= rest.len() {
                assert(rest.subrange(0, pat@.len() as int) =~= text@.subrange(
                    i as int,
                    i + pat@.len(),
                ));
            }
        }
        if pat.len() == 0 {
            out.append(to);
            out.push(text[i]);
            i = i + 1;
        } else if matches_at(&text, &pat, i) {
            out.append(to);
            i = i + pat.len();
            assert(rest.skip(pat@.len() as int) =~= text@.skip(i as int));
        } else {
            out.push(text[i]);
            i = i + 1;
        }
    }
    if pat.len() == 0 {
        out.append(to);
    }
    out
}

/// Whether `a` comes before `b` in the order of code points, a proper prefix
/// before what it is a prefix of.
pub open spec fn text_less(a: Seq<char>, b: Seq<char>) -> bool
    decreases a.len(),
{
    if b.len() == 0 {
        false
    } else if a.len() == 0 {
        true
    } else if a[0] != b[0] {
        (a[0] as int) < (b[0] as int)
    } else {
        text_less(a.skip(1), b.skip(1))
    }
}

/// Whether `a` comes before `b`.
pub fn is_less(a: &str, b: &str) -> (r: bool)
    ensures
        r == text_less(a@, b@),
{
    let x = chars_of(a);
    let y = chars_of(b);
    let mut i: usize = 0;
    assert(x@.skip(0) =~= x@);
    assert(y@.skip(0) =~= y@);
    while i < x.len() && i < y.len()
        invariant
            x@ == a@,
            y@ == b@,
            i <= x@.len(),
            i <= y@.len(),
            text_less(x@.skip(i as int), y@.skip(i as int)) == text_less(x@, y@),
        decreases x@.len() - i,
    {
        let ghost xs = x@.skip(i as int);
        let ghost ys = y@.skip(i as int);
        assert(xs.skip(1) =~= x@.skip(i + 1));
        assert(ys.skip(1) =~= y@.skip(i + 1));
        if x[i] != y[i] {
            return code_point(x[i]) < code_point(y[i]);
        }
        i = i + 1;
    }
    i < y.len()
}

/// No text comes before itself.
pub proof fn text_less_irreflexive(a: Seq<char>)
    ensures
        !text_less(a, a),
    decreases a.len(),
{
    if a.len() > 0 {
        text_less_irreflexive(a.skip(1));
    }
}

/// The order of texts is transitive.
pub proof fn text_less_transitive(a: Seq<char>, b: Seq<char>, c: Seq<char>)
    requires
        text_less(a, b),
        text_less(b, c),
    ensures
        text_less(a, c),
    decreases a.len(),
{
    if a.len() > 0 && a[0] == b[0] && b[0] == c[0] {
        text_less_transitive(a.skip(1), b.skip(1), c.skip(1));
    }
}

/// Of two different texts one comes before the other.
pub proof fn text_less_total(a: Seq<char>, b: Seq<char>)
    ensures
        text_less(a, b) || text_less(b, a) || a == b,
    decreases a.len(),
{
    if a.len() > 0 && b.len() > 0 && a[0] == b[0] {
        text_less_total(a.skip(1), b.skip(1));
        if a.skip(1) == b.skip(1) {
            assert(a =~= seq![a[0]] + a.skip(1));
        }
    }
}

/// Unicode white space.
pub open spec fn white_space(c: char) -> bool {
    let n = c as int;
    ||| 0x09 <= n <= 0x0d
    ||| n == 0x20
    ||| n == 0x85
    ||| n == 0xa0
    ||| n == 0x1680
    ||| 0x2000 <= n <= 0x200a
    ||| n == 0x2028
    ||| n == 0x2029
    ||| n == 0x202f
    ||| n == 0x205f
    ||| n == 0x3000
}

/// Whether `s` holds nothing but white space.
pub open spec fn blank(s: Seq<char>) -> bool {
    forall|i: int| 0 <= i < s.len() ==> white_space(#[trigger] s[i])
}

/// Whether `c` is white space.
pub(crate) fn is_white_space(c: char) -> (r: bool)
    ensures
        r == white_space(c),
{
    let n: u32 = code_point(c);
    (0x09 <= n && n <= 0x0d) || n == 0x20 || n == 0x85 || n == 0xa0 || n == 0x1680 || (0x2000 <= n
        && n <= 0x200a) || n == 0x2028 || n == 0x2029 || n == 0x202f || n == 0x205f || n == 0x3000
}

/// Whether `s` holds nothing but white space.
pub fn is_blank(s: &str) -> (r: bool)
    ensures
        r == blank(s@),
{
    let chars = chars_of(s);
    for i in 0..chars.len()
        invariant
            chars@ == s@,
            forall|j: int| 0 <= j < i ==> white_space(#[trigger] s@[j]),
    {
        if !is_white_space(chars[i]) {
            return false;
        }
    }
    true
}

/// Whether `c` is one of `0` to `9`.
pub open spec fn is_digit(c: char) -> bool {
    '0' as int <= c as int <= '9' as int
}

/// The value of a run of decimal digits.
pub open spec fn digits_value(s: Seq<char>) -> nat
    decreases s.len(),
{
    if s.len() == 0 {
        0
    } else {
        digits_value(s.drop_last()) * 10 + (s.last() as int - '0' as int) as nat
    }
}

/// `s` without a leading plus sign.
pub open spec fn unsigned_part(s: Seq<char>) -> Seq<char> {
    if s.len() > 0 && s[0] == '+' {
        s.skip(1)
    } else {
        s
    }
}

/// The number of 16 bits that `s` writes: an optional plus sign, then one or more
/// decimal digits and nothing else, of a value that fits.
pub open spec fn parsed_u16(s: Seq<char>) -> Option<u16> {
    let d = unsigned_part(s);
    if d.len() > 0 && (forall|i: int| 0 <= i < d.len() ==> is_digit(#[trigger] d[i]))
        && digits_value(d) <= u16::MAX {
        Some(digits_value(d) as u16)
    } else {
        None
    }
}

proof fn lemma_digits_value_grows(s: Seq<char>, i: int)
    requires
        0 <= i <= s.len(),
    ensures
        digits_value(s.take(i)) <= digits_value(s),
    decreases s.len(),
{
    if i < s.len() {
        lemma_digits_value_grows(s.drop_last(), i);
        assert(s.drop_last().take(i) =~= s.take(i));
    } else {
        assert(s.take(i) =~= s);
    }
}

/// Reads a number of 16 bits.
pub fn parse_u16(s: &str) -> (r: Option<u16>)
    ensures
        r == parsed_u16(s@),
{
    let chars = chars_of(s);
    let start: usize = if chars.len() > 0 && chars[0] == '+' {
        1
    } else {
        0
    };
    let ghost d = unsigned_part(s@);
    if chars.len() == start {
        return None;
    }
    let mut value: u32 = 0;
    for i in start..chars.len()
        invariant
            chars@ == s@,
            d == unsigned_part(s@),
            d == s@.skip(start as int),
            start <= chars@.len(),
            start <= i <= chars@.len(),
            forall|j: int| 0 <= j < i - start ==> is_digit(#[trigger] d[j]),
            value == digits_value(d.take(i - start)),
            value <= u16::MAX,
    {
        let c = chars[i];
        assert(d[i - start] == c);
        let n: u32 = code_point(c);
        if n < 48 || n > 57 {
            return None;
        }
        assert(d.take(i + 1 - start).drop_last() =~= d.take(i - start));
        value = value * 10 + (n - 48);
        if value > 65535 {
            proof {
                lemma_digits_value_grows(d, i + 1 - start);
            }
            return None;
        }
    }
    assert(d.take(d.len() as int) =~= d);
    Some(value as u16)
}

/// Every 16-bit number, written in decimal, reads back as itself.
pub proof fn law_decimal_reads_back(n: u16)
    ensures
        parsed_u16(decimal(n as nat)) == Some(n),
{
    lemma_decimal(n as nat);
}

proof fn lemma_decimal(n: nat)
    ensures
        decimal(n).len() > 0,
        forall|i: int| 0 <= i < decimal(n).len() ==> is_digit(#[trigger] decimal(n)[i]),
        digits_value(decimal(n)) == n,
    decreases n,
{
    if n < 10 {
        let s = seq![digit(n)];
        assert(digits_value(s.drop_last()) == 0);
    } else {
        lemma_decimal(n / 10);
        let s = decimal(n / 10).push(digit(n % 10));
        assert(s.drop_last() =~= decimal(n / 10));
    }
}

/// A number below ten is written as its one digit, and writing one more digit behind a
/// number makes it ten times as large and adds the digit.
pub proof fn law_decimal_is_positional(n: nat, d: nat)
    requires
        d < 10,
    ensures
        decimal(d) == seq![('0' as int + d) as char],
        n > 0 ==> decimal(10 * n + d) == decimal(n).push(('0' as int + d) as char),
{
    assert((10 * n + d) / 10 == n && (10 * n + d) % 10 == d) by (nonlinear_arith)
        requires
            d < 10,
    ;
}

/// What is written in decimal has the value of the number, holds only digits, and
/// starts with a zero only where it is the number zero. So two numbers are written
/// alike only if they are the same.
pub proof fn law_decimal_has_the_value(n: nat)
    ensures
        decimal(n).len() > 0,
        forall|i: int|
            0 <= i < decimal(n).len() ==> '0' as int <= (#[trigger] decimal(n)[i]) as int
                <= '9' as int,
        digits_value(decimal(n)) == n,
        decimal(n)[0] == '0' ==> n == 0,
    decreases n,
{
    lemma_decimal(n);
    if n >= 10 {
        law_decimal_has_the_value(n / 10);
    }
}

/// The value of a run of digits with one more digit behind it is ten times the value
/// of the run, and the digit.
pub proof fn law_digits_value_is_positional(s: Seq<char>, c: char)
    requires
        '0' as int <= c as int <= '9' as int,
    ensures
        digits_value(Seq::empty()) == 0,
        digits_value(s.push(c)) == 10 * digits_value(s) + (c as int - '0' as int),
{
    assert(s.push(c).drop_last() =~= s);
}

/// A text reads as a 16-bit number if and only if it is one or more digits, with or
/// without a plus sign in front, of a value of at most 65535, and then as that value.
pub proof fn law_digits_are_read(d: Seq<char>)
    requires
        forall|i: int| 0 <= i < d.len() ==> '0' as int <= (#[trigger] d[i]) as int <= '9' as int,
    ensures
        d.len() > 0 && digits_value(d) <= 65535 ==> parsed_u16(d) == Some(digits_value(d) as u16),
        d.len() == 0 || digits_value(d) > 65535 ==> parsed_u16(d) is None,
        parsed_u16(seq!['+'] + d) == parsed_u16(d),
{
    assert((seq!['+'] + d).skip(1) =~= d);
    if d.len() > 0 {
        assert(unsigned_part(d) == d);
    }
}

/// A text that holds anything but digits behind the optional plus sign is no number.
pub proof fn law_other_texts_are_not_read(s: Seq<char>, i: int)
    requires
        0 <= i < s.len(),
        !('0' as int <= s[i] as int <= '9' as int),
        i > 0 || s[i] != '+',
    ensures
        parsed_u16(s) is None,
{
    let d = unsigned_part(s);
    let k = if s[0] == '+' {
        i - 1
    } else {
        i
    };
    assert(d[k] == s[i]);
    assert(!is_digit(d[k]));
}

/// A text occurs in another if and only if the other is made of something, the text,
/// and something.
pub proof fn law_occurs_between_two_parts(pat: Seq<char>, s: Seq<char>)
    ensures
        occurs_in(pat, s) <==> exists|a: Seq<char>, b: Seq<char>| s == #[trigger] (a + pat + b),
{
    if occurs_in(pat, s) {
        let i = choose|i: int| #[trigger] stands_at(s, pat, i);
        let a = s.take(i);
        let b = s.skip(i + pat.len());
        assert(s =~= a + pat + b);
    }
    if exists|a: Seq<char>, b: Seq<char>| s == #[trigger] (a + pat + b) {
        let (a, b) = choose|a: Seq<char>, b: Seq<char>| s == #[trigger] (a + pat + b);
        assert(s.subrange(a.len() as int, (a.len() + pat.len()) as int) =~= pat);
        assert(stands_at(s, pat, a.len() as int));
    }
}

/// A text in which `from` does not occur is left as it is by replacing `from`.
pub proof fn law_nothing_to_replace(s: Seq<char>, from: Seq<char>, to: Seq<char>)
    requires
        from.len() > 0,
        forall|i: int|
            0 <= i && i + from.len() <= s.len() ==> #[trigger] s.subrange(i, i + from.len())
                != from,
    ensures
        replaced(s, from, to) == s,
    decreases s.len(),
{
    if s.len() >= from.len() {
        assert(s.subrange(0, 0int + from.len()) != from);
        let t = s.skip(1);
        assert forall|i: int| 0 <= i && i + from.len() <= t.len() implies #[trigger] t.subrange(
            i,
            i + from.len(),
        ) != from by {
            assert(t.subrange(i, i + from.len()) =~= s.subrange(i + 1, i + 1 + from.len()));
        }
        law_nothing_to_replace(t, from, to);
        assert(s =~= seq![s[0]] + t);
    }
}

/// Replacing turns the first occurrence into `to`, keeps what stands before it, and
/// goes on behind it.
pub proof fn law_first_occurrence_is_replaced(
    s: Seq<char>,
    from: Seq<char>,
    to: Seq<char>,
    i: int,
)
    requires
        from.len() > 0,
        0 <= i,
        i + from.len() <= s.len(),
        s.subrange(i, i + from.len()) == from,
        forall|j: int| 0 <= j < i ==> #[trigger] s.subrange(j, j + from.len()) != from,
    ensures
        replaced(s, from, to) == s.take(i) + to + replaced(s.skip(i + from.len()), from, to),
    decreases s.len(),
{
    if i == 0 {
        assert(stands_at(s, from, 0));
        assert(s.take(0) + to =~= to);
    } else {
        assert(s.subrange(0, 0int + from.len()) != from);
        let t = s.skip(1);
        assert(t.subrange(i - 1, i - 1 + from.len()) =~= s.subrange(i, i + from.len()));
        assert forall|j: int| 0 <= j < i - 1 implies #[trigger] t.subrange(j, j + from.len())
            != from by {
            assert(t.subrange(j, j + from.len()) =~= s.subrange(j + 1, j + 1 + from.len()));
        }
        law_first_occurrence_is_replaced(t, from, to, i - 1);
        assert(t.skip(i - 1 + from.len()) =~= s.skip(i + from.len()));
        assert(s.take(i) =~= seq![s[0]] + t.take(i - 1));
        assert(s.take(i) + to + replaced(s.skip(i + from.len()), from, to) =~= seq![s[0]] + (t.take(
            i - 1,
        ) + to + replaced(s.skip(i + from.len()), from, to)));
    }
}

/// One text comes before another if and only if they first differ where it has ended
/// and the other has not, or where its character has the smaller code point.
pub proof fn law_texts_are_ordered_by_their_first_difference(a: Seq<char>, b: Seq<char>)
    ensures
        text_less(a, b) <==> exists|k: int|
            0 <= k <= a.len() && k < b.len() && a.take(k) == #[trigger] b.take(k) && (k == a.len()
                || (a[k] as int) < (b[k] as int)),
    decreases a.len(),
{
    if b.len() > 0 && (a.len() == 0 || a[0] != b[0]) {
        assert(a.take(0) =~= b.take(0));
        assert forall|k: int|
            0 <= k <= a.len() && k < b.len() && a.take(k) == #[trigger] b.take(k) && (k == a.len()
                || (a[k] as int) < (b[k] as int)) implies text_less(a, b) by {
            if k > 0 {
                assert(a.take(k)[0] == b.take(k)[0]);
            }
        }
    } else if b.len() > 0 {
        let (x, y) = (a.skip(1), b.skip(1));
        law_texts_are_ordered_by_their_first_difference(x, y);
        if text_less(x, y) {
            let k = choose|k: int|
                0 <= k <= x.len() && k < y.len() && x.take(k) == #[trigger] y.take(k) && (k
                    == x.len() || (x[k] as int) < (y[k] as int));
            assert(a.take(k + 1) =~= seq![a[0]] + x.take(k));
            assert(b.take(k + 1) =~= seq![b[0]] + y.take(k));
            assert(a.take(k + 1) == b.take(k + 1));
        }
        assert forall|k: int|
            0 <= k <= a.len() && k < b.len() && a.take(k) == #[trigger] b.take(k) && (k == a.len()
                || (a[k] as int) < (b[k] as int)) implies text_less(x, y) by {
            assert(k > 0);
            assert(x.take(k - 1) =~= a.take(k).skip(1));
            assert(y.take(k - 1) =~= b.take(k).skip(1));
            assert(x.take(k - 1) == y.take(k - 1));
        }
    }
}

/// An empty text stands before each character and at the end.
pub proof fn law_empty_text_is_replaced_everywhere(c: char, s: Seq<char>, to: Seq<char>)
    ensures
        replaced(Seq::empty(), Seq::empty(), to) == to,
        replaced(seq![c] + s, Seq::empty(), to) == to + seq![c] + replaced(s, Seq::empty(), to),
{
    assert((seq![c] + s).skip(1) =~= s);
}

/// The text of an optional string is that of the string, where there is one, and no
/// text is as good as an empty one where that is asked for.
pub proof fn law_optional_texts_are_kept(s: String, t: &str, c: Seq<char>)
    ensures
        opt_text(Some(s)) == Some(s@),
        opt_text(None) is None,
        opt_str(Some(t)) == Some(t@),
        opt_str(None) is None,
        text_or_empty(Some(c)) == c,
        text_or_empty(None).len() == 0,
{
}

} // verus!
