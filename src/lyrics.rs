//! Timestamped lyric text: tag normalization and alignment of translated
//! and romanized lines to the primary lines.
//!
//! A line may start with a time tag. Four shapes are accepted:
//! `[M:S]`, `[M:S.F]` with one or two fraction digits, `[M:S.FFF]` (the
//! canonical shape, three or more fraction digits) and the legacy
//! `[M:S:X]`, whose third group is read as the fraction. `M`, `S`, `F` and
//! `X` are runs of ASCII digits. The fraction is a decimal fraction of a
//! second: its first three digits, padded on the right with zeros, are the
//! milliseconds.
use vstd::prelude::*;
use vstd::string::*;
use crate::model::{opt_chars, LyricLine, LyricLineView};

verus! {

/// An ASCII decimal digit.
pub open spec fn is_digit(c: char) -> bool {
    '0' <= c && c <= '9'
}

/// Number of consecutive ASCII digits of `s` from position `i` on.
pub open spec fn digit_run(s: Seq<char>, i: int) -> nat
    decreases s.len() - i,
{
    if 0 <= i < s.len() && is_digit(s[i]) {
        1 + digit_run(s, i + 1)
    } else {
        0
    }
}

/// The shape of a leading time tag.
#[derive(Clone, Copy, Debug, PartialEq, Eq, Structural)]
pub enum TagShape {
    /// `[M:S]`
    Whole,
    /// `[M:S.F]`, with one or more fraction digits
    Fraction,
    /// `[M:S:X]`
    Triple,
}

/// End of the minutes group: the index of the first `:`.
pub open spec fn minutes_end(s: Seq<char>) -> int {
    1 + digit_run(s, 1) as int
}

/// End of the seconds group.
pub open spec fn seconds_end(s: Seq<char>) -> int {
    minutes_end(s) + 1 + digit_run(s, minutes_end(s) + 1) as int
}

/// End of the fraction group (the index of the closing `]`).
pub open spec fn fraction_end(s: Seq<char>) -> int {
    seconds_end(s) + 1 + digit_run(s, seconds_end(s) + 1) as int
}

/// The shape of the time tag at the start of `s`, if it has one.
pub open spec fn tag_shape(s: Seq<char>) -> Option<TagShape> {
    let m = minutes_end(s);
    let p = seconds_end(s);
    let f = fraction_end(s);
    if s.len() > 0 && s[0] == '[' && m > 1 && m < s.len() && s[m] == ':' && p > m + 1 && p
        < s.len() {
        if s[p] == ']' {
            Some(TagShape::Whole)
        } else if (s[p] == '.' || s[p] == ':') && f > p + 1 && f < s.len() && s[f] == ']' {
            if s[p] == '.' {
                Some(TagShape::Fraction)
            } else {
                Some(TagShape::Triple)
            }
        } else {
            None
        }
    } else {
        None
    }
}

/// Whether `s` starts with a time tag of an accepted shape.
pub open spec fn has_tag(s: Seq<char>) -> bool {
    tag_shape(s) is Some
}

/// Length of the leading time tag of `s`.
pub open spec fn tag_len(s: Seq<char>) -> int {
    if tag_shape(s) == Some(TagShape::Whole) {
        seconds_end(s) + 1
    } else {
        fraction_end(s) + 1
    }
}

/// The minutes digits of the leading tag.
pub open spec fn minutes_digits(s: Seq<char>) -> Seq<char> {
    s.subrange(1, minutes_end(s))
}

/// The seconds digits of the leading tag.
pub open spec fn seconds_digits(s: Seq<char>) -> Seq<char> {
    s.subrange(minutes_end(s) + 1, seconds_end(s))
}

/// The fraction digits of the leading tag (none for `[M:S]`).
pub open spec fn fraction_digits(s: Seq<char>) -> Seq<char> {
    if tag_shape(s) == Some(TagShape::Whole) {
        Seq::empty()
    } else {
        s.subrange(seconds_end(s) + 1, fraction_end(s))
    }
}

/// A tag in canonical shape: `[M:S.FFF]`, at least three fraction digits.
pub open spec fn is_canonical(s: Seq<char>) -> bool {
    tag_shape(s) == Some(TagShape::Fraction) && fraction_digits(s).len() >= 3
}

/// The leading tag of `s` rewritten into canonical shape. Whole tags get
/// the fraction `000`, short fractions are padded on the right with zeros,
/// and the legacy triple shape has its second `:` replaced by `.`.
pub open spec fn normalized_tag(s: Seq<char>) -> Seq<char> {
    let p = seconds_end(s);
    let f = fraction_end(s);
    match tag_shape(s) {
        Some(TagShape::Whole) => s.subrange(0, p) + seq!['.', '0', '0', '0', ']'],
        Some(TagShape::Fraction) => {
            if f - p - 1 == 1 {
                s.subrange(0, f) + seq!['0', '0', ']']
            } else if f - p - 1 == 2 {
                s.subrange(0, f) + seq!['0', ']']
            } else {
                s.subrange(0, f + 1)
            }
        },
        Some(TagShape::Triple) => s.subrange(0, p) + seq!['.'] + s.subrange(p + 1, f + 1),
        None => Seq::empty(),
    }
}

/// A line with its leading tag normalized; a line without a tag is kept.
pub open spec fn normalize(s: Seq<char>) -> Seq<char> {
    if has_tag(s) {
        normalized_tag(s) + s.subrange(tag_len(s), s.len() as int)
    } else {
        s
    }
}

/// The value of a digit character.
pub open spec fn digit_value(c: char) -> nat {
    (c as int - '0' as int) as nat
}

/// The number that a run of decimal digits writes.
pub open spec fn digits_value(d: Seq<char>) -> nat
    decreases d.len(),
{
    if d.len() == 0 {
        0
    } else {
        digits_value(d.drop_last()) * 10 + digit_value(d.last())
    }
}

/// Milliseconds of a decimal fraction of a second: its first three digits,
/// padded on the right with zeros.
pub open spec fn fraction_millis(f: Seq<char>) -> nat {
    if f.len() == 0 {
        0
    } else if f.len() == 1 {
        digits_value(f) * 100
    } else if f.len() == 2 {
        digits_value(f) * 10
    } else {
        digits_value(f.subrange(0, 3))
    }
}

/// Milliseconds that the leading tag of `s` stands for.
pub open spec fn tag_millis(s: Seq<char>) -> nat {
    digits_value(minutes_digits(s)) * 60000 + digits_value(seconds_digits(s)) * 1000
        + fraction_millis(fraction_digits(s))
}

/// The timestamp of a line: the milliseconds of its tag, saturated at the
/// largest `u64`; zero for a line without a tag.
pub open spec fn line_timestamp(s: Seq<char>) -> u64 {
    if !has_tag(s) {
        0
    } else if tag_millis(s) >= u64::MAX {
        u64::MAX
    } else {
        tag_millis(s) as u64
    }
}

/// `s` without its trailing tab characters.
pub open spec fn trim_tabs(s: Seq<char>) -> Seq<char>
    decreases s.len(),
{
    if s.len() > 0 && s.last() == '\t' {
        trim_tabs(s.drop_last())
    } else {
        s
    }
}

/// The text of a tagged line: what follows its tag, without trailing tabs.
pub open spec fn line_text(s: Seq<char>) -> Seq<char> {
    trim_tabs(s.subrange(tag_len(s), s.len() as int))
}


/// Positions of the leading time tag of a line (see [`tag_shape`]).
#[derive(Clone, Copy, Debug)]
pub struct TagSpan {
    pub shape: TagShape,
    pub minutes_end: usize,
    pub seconds_end: usize,
    pub fraction_end: usize,
}

/// Whether a character is an ASCII digit.
fn is_digit_char(c: char) -> (r: bool)
    ensures
        r == is_digit(c),
{
    '0' <= c && c <= '9'
}

/// Counts the digits of `s` from position `i` on; `n` is the length of `s`.
fn digit_run_at(s: &str, n: usize, i: usize) -> (r: usize)
    requires
        n == s@.len(),
        i <= n,
    ensures
        r == digit_run(s@, i as int),
        i + r <= n,
{
    let mut j: usize = i;
    while j < n && is_digit_char(s.get_char(j))
        invariant
            i <= j <= n,
            n == s@.len(),
            digit_run(s@, i as int) == (j - i) + digit_run(s@, j as int),
        decreases n - j,
    {
        j = j + 1;
    }
    j - i
}

/// Finds the leading time tag of `s`, whose length is `n`.
pub fn parse_tag(s: &str, n: usize) -> (r: Option<TagSpan>)
    requires
        n == s@.len(),
    ensures
        r is None <==> !has_tag(s@),
        r matches Some(t) ==> {
            &&& tag_shape(s@) == Some(t.shape)
            &&& t.minutes_end == minutes_end(s@)
            &&& t.seconds_end == seconds_end(s@)
            &&& t.fraction_end == fraction_end(s@)
            &&& t.seconds_end < n
            &&& t.shape != TagShape::Whole ==> t.fraction_end < n
        },
{
    if n == 0 || s.get_char(0) != '[' {
        return None;
    }
    let m = 1 + digit_run_at(s, n, 1);
    if m == 1 || m >= n || s.get_char(m) != ':' {
        return None;
    }
    let p = m + 1 + digit_run_at(s, n, m + 1);
    if p == m + 1 || p >= n {
        return None;
    }
    let f = p + 1 + digit_run_at(s, n, p + 1);
    let sep = s.get_char(p);
    if sep == ']' {
        Some(TagSpan { shape: TagShape::Whole, minutes_end: m, seconds_end: p, fraction_end: f })
    } else if (sep == '.' || sep == ':') && f > p + 1 && f < n && s.get_char(f) == ']' {
        let shape = if sep == '.' {
            TagShape::Fraction
        } else {
            TagShape::Triple
        };
        Some(TagSpan { shape, minutes_end: m, seconds_end: p, fraction_end: f })
    } else {
        None
    }
}

/// The leading tag of `s` in canonical shape; `t` is the tag's span.
fn normalized_tag_string(s: &str, n: usize, t: TagSpan) -> (r: String)
    requires
        n == s@.len(),
        tag_shape(s@) == Some(t.shape),
        t.seconds_end == seconds_end(s@),
        t.fraction_end == fraction_end(s@),
        t.seconds_end < n,
        t.shape != TagShape::Whole ==> t.fraction_end < n,
    ensures
        r@ == normalized_tag(s@),
{
    let p = t.seconds_end;
    let f = t.fraction_end;
    proof {
        reveal_strlit(".000]");
        reveal_strlit("00]");
        reveal_strlit("0]");
        reveal_strlit(".");
    }
    match t.shape {
        TagShape::Whole => {
            let mut r = String::from_str(s.substring_char(0, p));
            r.append(".000]");
            assert(r@ =~= normalized_tag(s@));
            r
        },
        TagShape::Fraction => {
            if f - p - 1 == 1 {
                let mut r = String::from_str(s.substring_char(0, f));
                r.append("00]");
                assert(r@ =~= normalized_tag(s@));
                r
            } else if f - p - 1 == 2 {
                let mut r = String::from_str(s.substring_char(0, f));
                r.append("0]");
                assert(r@ =~= normalized_tag(s@));
                r
            } else {
                String::from_str(s.substring_char(0, f + 1))
            }
        },
        TagShape::Triple => {
            let mut r = String::from_str(s.substring_char(0, p));
            r.append(".");
            r.append(s.substring_char(p + 1, f + 1));
            assert(r@ =~= normalized_tag(s@));
            r
        },
    }
}

/// Rewrites the leading time tag of a lyric line into canonical shape
/// `[M:S.FFF]`, keeping the rest of the line; a line without a tag of an
/// accepted shape is returned as it is.
pub fn normalize_line(line: &str) -> (r: String)
    ensures
        r@ == normalize(line@),
{
    let n = line.unicode_len();
    match parse_tag(line, n) {
        None => String::from_str(line),
        Some(t) => {
            let end = if t.shape == TagShape::Whole {
                t.seconds_end + 1
            } else {
                t.fraction_end + 1
            };
            let mut r = normalized_tag_string(line, n, t);
            r.append(line.substring_char(end, n));
            assert(r@ =~= normalize(line@));
            r
        },
    }
}

/// A natural number saturated at the largest `u64`.
pub open spec fn saturate(x: nat) -> u64 {
    if x >= u64::MAX {
        u64::MAX
    } else {
        x as u64
    }
}

/// The number written by the digits of `s` between `from` and `to`,
/// saturated at the largest `u64`.
fn digits_value_at(s: &str, from: usize, to: usize) -> (r: u64)
    requires
        from <= to <= s@.len(),
        forall|k: int| from <= k < to ==> is_digit(#[trigger] s@[k]),
    ensures
        r == saturate(digits_value(s@.subrange(from as int, to as int))),
{
    let mut acc: u64 = 0;
    let mut j: usize = from;
    assert(s@.subrange(from as int, from as int) =~= Seq::<char>::empty());
    while j < to
        invariant
            from <= j <= to <= s@.len(),
            forall|k: int| from <= k < to ==> is_digit(#[trigger] s@[k]),
            acc == saturate(digits_value(s@.subrange(from as int, j as int))),
        decreases to - j,
    {
        let c = s.get_char(j);
        let d = (c as u32 - '0' as u32) as u64;
        let ghost old_v = digits_value(s@.subrange(from as int, j as int));
        let ghost new_v = digits_value(s@.subrange(from as int, j + 1));
        proof {
            assert(s@.subrange(from as int, j + 1).drop_last() =~= s@.subrange(
                from as int,
                j as int,
            ));
            assert(is_digit(s@[j as int]));
            assert(new_v == old_v * 10 + d);
        }
        if acc == u64::MAX {
            assert(new_v >= u64::MAX) by (nonlinear_arith)
                requires
                    old_v >= u64::MAX,
                    new_v == old_v * 10 + d,
            ;
        } else {
            match acc.checked_mul(10) {
                None => {
                    acc = u64::MAX;
                },
                Some(a) => match a.checked_add(d) {
                    None => {
                        acc = u64::MAX;
                    },
                    Some(b) => {
                        acc = b;
                    },
                },
            }
        }
        j = j + 1;
    }
    acc
}

/// The characters counted by [`digit_run`] are digits, and what stops the
/// run is not.
pub(crate) proof fn lemma_digit_run_digits(s: Seq<char>, i: int)
    requires
        0 <= i,
    ensures
        forall|k: int| i <= k < i + digit_run(s, i) ==> is_digit(#[trigger] s[k]),
        i + digit_run(s, i) <= s.len() || digit_run(s, i) == 0,
        i + digit_run(s, i) < s.len() ==> !is_digit(s[i + digit_run(s, i)]),
    decreases s.len() - i,
{
    if 0 <= i < s.len() && is_digit(s[i]) {
        lemma_digit_run_digits(s, i + 1);
    }
}

/// A run of at most three digits writes a number below the matching power
/// of ten.
proof fn lemma_short_digits_value(d: Seq<char>)
    requires
        d.len() <= 3,
        forall|k: int| 0 <= k < d.len() ==> is_digit(#[trigger] d[k]),
    ensures
        d.len() == 1 ==> digits_value(d) < 10,
        d.len() == 2 ==> digits_value(d) < 100,
        d.len() == 3 ==> digits_value(d) < 1000,
    decreases d.len(),
{
    if d.len() > 0 {
        lemma_short_digits_value(d.drop_last());
        assert(d.drop_last().len() == 0 ==> digits_value(d.drop_last()) == 0);
        assert(is_digit(d[d.len() - 1]));
    }
}

/// The timestamp of a tagged line; `t` is the span of its tag.
fn tag_timestamp(s: &str, n: usize, t: TagSpan) -> (r: u64)
    requires
        n == s@.len(),
        tag_shape(s@) == Some(t.shape),
        t.minutes_end == minutes_end(s@),
        t.seconds_end == seconds_end(s@),
        t.fraction_end == fraction_end(s@),
        t.seconds_end < n,
        t.shape != TagShape::Whole ==> t.fraction_end < n,
    ensures
        r == line_timestamp(s@),
{
    let m = t.minutes_end;
    let p = t.seconds_end;
    let f = t.fraction_end;
    proof {
        lemma_digit_run_digits(s@, 1);
        lemma_digit_run_digits(s@, m + 1);
        lemma_digit_run_digits(s@, p + 1);
    }
    let minutes = digits_value_at(s, 1, m);
    let seconds = digits_value_at(s, m + 1, p);
    let ghost fd = fraction_digits(s@);
    let frac: u64 = if t.shape == TagShape::Whole {
        0
    } else {
        assert(fd =~= s@.subrange(p + 1, f as int));
        if f - p - 1 == 1 {
            proof {
                lemma_short_digits_value(fd);
            }
            digits_value_at(s, p + 1, f) * 100
        } else if f - p - 1 == 2 {
            proof {
                lemma_short_digits_value(fd);
            }
            digits_value_at(s, p + 1, f) * 10
        } else {
            assert(fd.subrange(0, 3) =~= s@.subrange(p + 1, p + 4));
            proof {
                lemma_short_digits_value(fd.subrange(0, 3));
            }
            digits_value_at(s, p + 1, p + 4)
        }
    };
    assert(frac == fraction_millis(fd));
    let ghost mv = digits_value(minutes_digits(s@));
    let ghost sv = digits_value(seconds_digits(s@));
    assert(tag_millis(s@) == mv * 60000 + sv * 1000 + frac);
    if minutes == u64::MAX || seconds == u64::MAX {
        assert(tag_millis(s@) >= u64::MAX) by (nonlinear_arith)
            requires
                mv >= u64::MAX || sv >= u64::MAX,
                tag_millis(s@) == mv * 60000 + sv * 1000 + frac,
        ;
        return u64::MAX;
    }
    match minutes.checked_mul(60000) {
        None => u64::MAX,
        Some(a) => match seconds.checked_mul(1000) {
            None => u64::MAX,
            Some(b) => match a.checked_add(b) {
                None => u64::MAX,
                Some(c) => match c.checked_add(frac) {
                    None => u64::MAX,
                    Some(d) => d,
                },
            },
        },
    }
}

/// What follows position `start` of `s`, without trailing tabs.
fn text_after(s: &str, n: usize, start: usize) -> (r: String)
    requires
        start <= n,
        n == s@.len(),
    ensures
        r@ == trim_tabs(s@.subrange(start as int, n as int)),
{
    let mut e: usize = n;
    while e > start && s.get_char(e - 1) == '\t'
        invariant
            start <= e <= n,
            n == s@.len(),
            trim_tabs(s@.subrange(start as int, n as int)) == trim_tabs(
                s@.subrange(start as int, e as int),
            ),
        decreases e,
    {
        assert(s@.subrange(start as int, e as int).drop_last() =~= s@.subrange(
            start as int,
            e - 1,
        ));
        e = e - 1;
    }
    String::from_str(s.substring_char(start, e))
}

/// The characters of each line.
pub open spec fn lines_of(v: Seq<String>) -> Seq<Seq<char>> {
    v.map_values(|s: String| s@)
}

/// The nearest line at or before `p` that starts with a time tag; `-1`
/// where there is none.
pub open spec fn seek_tagged(lines: Seq<Seq<char>>, p: int) -> int
    decreases p + 1,
{
    if p < 0 {
        -1
    } else if has_tag(lines[p]) {
        p
    } else {
        seek_tagged(lines, p - 1)
    }
}

/// One step of a backward secondary cursor at `p`, for a primary line whose
/// canonical tag is `key`: the text that is attached (if any) and where the
/// cursor stands next. Lines without a tag are passed over; the nearest
/// tagged line is taken only if its canonical tag is `key`.
pub open spec fn take_secondary(lines: Seq<Seq<char>>, p: int, key: Seq<char>) -> (Option<
    Seq<char>,
>, int) {
    let q = seek_tagged(lines, p);
    if q >= 0 && normalized_tag(lines[q]) == key {
        (Some(line_text(lines[q])), q - 1)
    } else {
        (None, q)
    }
}

/// The entry built from a tagged primary line and what was attached to it.
pub open spec fn entry_of(
    line: Seq<char>,
    translation: Option<Seq<char>>,
    romanization: Option<Seq<char>>,
) -> LyricLineView {
    LyricLineView {
        timestamp: line_timestamp(line),
        text: line_text(line),
        translation,
        romanization,
    }
}

/// Alignment after the last `k` primary lines have been processed, from
/// the last one backwards: the entries so far, in chronological order, and
/// the two secondary cursors.
pub open spec fn align(
    primary: Seq<Seq<char>>,
    translation: Seq<Seq<char>>,
    romanization: Seq<Seq<char>>,
    k: nat,
) -> (Seq<LyricLineView>, int, int)
    decreases k,
{
    if k == 0 {
        (Seq::empty(), translation.len() - 1, romanization.len() - 1)
    } else {
        let prev = align(primary, translation, romanization, (k - 1) as nat);
        let line = primary[primary.len() - k];
        if !has_tag(line) {
            prev
        } else {
            let key = normalized_tag(line);
            let t = take_secondary(translation, prev.1, key);
            let r = take_secondary(romanization, prev.2, key);
            (seq![entry_of(line, t.0, r.0)] + prev.0, t.1, r.1)
        }
    }
}

/// The synchronized lyrics of three line sequences.
pub open spec fn synchronize(
    primary: Seq<Seq<char>>,
    translation: Seq<Seq<char>>,
    romanization: Seq<Seq<char>>,
) -> Seq<LyricLineView> {
    align(primary, translation, romanization, primary.len()).0
}

/// The view of each lyric line.
pub open spec fn lyric_views(v: Seq<LyricLine>) -> Seq<LyricLineView> {
    v.map_values(|l: LyricLine| l@)
}

/// Whether `s` starts with a time tag of an accepted shape.
pub fn line_has_tag(s: &str) -> (r: bool)
    ensures
        r == has_tag(s@),
{
    parse_tag(s, s.unicode_len()).is_some()
}

/// Takes the secondary line that belongs to the primary line with
/// canonical tag `key`. The cursor is `rem`, the number of lines not yet
/// passed over; the result holds the attached text and the new cursor.
fn take_secondary_line(lines: &Vec<String>, rem: usize, key: &String) -> (r: (
    Option<String>,
    usize,
))
    requires
        rem <= lines.len(),
    ensures
        r.1 <= rem,
        opt_chars(r.0) == take_secondary(lines_of(lines@), rem - 1, key@).0,
        r.1 - 1 == take_secondary(lines_of(lines@), rem - 1, key@).1,
{
    let ghost ls = lines_of(lines@);
    let mut q: usize = rem;
    while q > 0 && !line_has_tag(lines[q - 1].as_str())
        invariant
            q <= rem <= lines.len(),
            ls == lines_of(lines@),
            seek_tagged(ls, rem - 1) == seek_tagged(ls, q - 1),
        decreases q,
    {
        assert(ls[q - 1] == lines@[q - 1]@);
        q = q - 1;
    }
    if q == 0 {
        return (None, 0);
    }
    let s = lines[q - 1].as_str();
    assert(ls[q - 1] == s@);
    let n = s.unicode_len();
    match parse_tag(s, n) {
        None => (None, q),
        Some(t) => {
            let tag = normalized_tag_string(s, n, t);
            if tag == *key {
                let end = if t.shape == TagShape::Whole {
                    t.seconds_end + 1
                } else {
                    t.fraction_end + 1
                };
                (Some(text_after(s, n, end)), q - 1)
            } else {
                (None, q)
            }
        },
    }
}

/// Builds synchronized lyrics from the lines of the primary, translated and
/// romanized texts. Every primary line with a time tag gives one entry,
/// in the order of the primary text; lines without a tag are left out.
/// The translated and romanized lines are attached by their canonical tag,
/// scanning both texts backwards alongside the primary one.
pub fn encode_lyrics(
    origin_lyric_lines: Vec<String>,
    origin_trans_lyric_lines: Vec<String>,
    origin_roman_lyric_lines: Vec<String>,
) -> (r: Vec<LyricLine>)
    ensures
        lyric_views(r@) == synchronize(
            lines_of(origin_lyric_lines@),
            lines_of(origin_trans_lyric_lines@),
            lines_of(origin_roman_lyric_lines@),
        ),
{
    let ghost ps = lines_of(origin_lyric_lines@);
    let ghost ts = lines_of(origin_trans_lyric_lines@);
    let ghost rs = lines_of(origin_roman_lyric_lines@);
    let n = origin_lyric_lines.len();
    let mut out: Vec<LyricLine> = Vec::new();
    let mut tp = origin_trans_lyric_lines.len();
    let mut rp = origin_roman_lyric_lines.len();
    let mut k: usize = 0;
    assert(lyric_views(out@) =~= Seq::<LyricLineView>::empty());
    while k < n
        invariant
            k <= n == origin_lyric_lines.len(),
            tp <= origin_trans_lyric_lines.len(),
            rp <= origin_roman_lyric_lines.len(),
            ps == lines_of(origin_lyric_lines@),
            ts == lines_of(origin_trans_lyric_lines@),
            rs == lines_of(origin_roman_lyric_lines@),
            align(ps, ts, rs, k as nat).0 == lyric_views(out@),
            align(ps, ts, rs, k as nat).1 == tp - 1,
            align(ps, ts, rs, k as nat).2 == rp - 1,
        decreases n - k,
    {
        let line = origin_lyric_lines[n - 1 - k].as_str();
        assert(ps[ps.len() - (k + 1)] == line@);
        let len = line.unicode_len();
        match parse_tag(line, len) {
            None => {},
            Some(t) => {
                let key = normalized_tag_string(line, len, t);
                let (tr, tp_next) = take_secondary_line(&origin_trans_lyric_lines, tp, &key);
                let (ro, rp_next) = take_secondary_line(&origin_roman_lyric_lines, rp, &key);
                let end = if t.shape == TagShape::Whole {
                    t.seconds_end + 1
                } else {
                    t.fraction_end + 1
                };
                let entry = LyricLine {
                    timestamp: tag_timestamp(line, len, t),
                    lyric_line: text_after(line, len, end),
                    trans_lyric_line: tr,
                    roman_lyric_line: ro,
                };
                let ghost before = out@;
                out.insert(0, entry);
                assert(lyric_views(out@) =~= seq![entry@] + lyric_views(before));
                tp = tp_next;
                rp = rp_next;
            },
        }
        k = k + 1;
    }
    out
}

/// The lines of a text: the pieces between its `'\n'` characters. An
/// empty text has one empty line.
pub open spec fn split_lines(s: Seq<char>) -> Seq<Seq<char>>
    decreases s.len(),
{
    if s.len() == 0 {
        seq![Seq::empty()]
    } else {
        let prev = split_lines(s.drop_last());
        if s.last() == '\n' {
            prev.push(Seq::empty())
        } else {
            prev.update(prev.len() - 1, prev.last().push(s.last()))
        }
    }
}

/// Splits a text into its lines (see [`split_lines`]).
pub fn text_lines(text: &str) -> (r: Vec<String>)
    ensures
        lines_of(r@) == split_lines(text@),
{
    let n = text.unicode_len();
    let mut done: Vec<String> = Vec::new();
    let mut start: usize = 0;
    let mut i: usize = 0;
    assert(text@.subrange(0, 0) =~= Seq::<char>::empty());
    assert(lines_of(done@).push(text@.subrange(0, 0)) =~= split_lines(text@.subrange(0, 0)));
    while i < n
        invariant
            start <= i <= n,
            n == text@.len(),
            lines_of(done@).push(text@.subrange(start as int, i as int)) == split_lines(
                text@.subrange(0, i as int),
            ),
        decreases n - i,
    {
        let c = text.get_char(i);
        let ghost prefix = text@.subrange(0, i + 1);
        assert(prefix.drop_last() =~= text@.subrange(0, i as int));
        assert(prefix.last() == c);
        if c == '\n' {
            let piece = String::from_str(text.substring_char(start, i));
            let ghost before = done@;
            done.push(piece);
            assert(lines_of(done@) =~= lines_of(before).push(text@.subrange(start as int, i as int)));
            assert(text@.subrange(i + 1, i + 1) =~= Seq::<char>::empty());
            start = i + 1;
        } else {
            assert(text@.subrange(start as int, i + 1) =~= text@.subrange(start as int, i as int).push(c));
            assert(lines_of(done@).push(text@.subrange(start as int, i + 1)) =~= split_lines(
                text@.subrange(0, i as int),
            ).update(lines_of(done@).len() as int, text@.subrange(start as int, i + 1)));
        }
        i = i + 1;
    }
    let last = String::from_str(text.substring_char(start, n));
    let ghost before = done@;
    done.push(last);
    assert(lines_of(done@) =~= lines_of(before).push(text@.subrange(start as int, n as int)));
    assert(text@.subrange(0, n as int) =~= text@);
    done
}

/// Synchronized lyrics of three raw texts: the primary, translated and
/// romanized lyrics, each a sequence of lines (see [`encode_lyrics`]).
pub fn lyrics_from_text(primary: &str, translation: &str, romanization: &str) -> (r: Vec<
    LyricLine,
>)
    ensures
        lyric_views(r@) == synchronize(
            split_lines(primary@),
            split_lines(translation@),
            split_lines(romanization@),
        ),
{
    encode_lyrics(text_lines(primary), text_lines(translation), text_lines(romanization))
}

} // verus!
