//! Laws of lyric normalization and alignment.
use vstd::prelude::*;
use crate::lyrics::{
    lemma_digit_run_digits,
    digit_run, digits_value, fraction_digits, fraction_end, fraction_millis, has_tag, is_canonical,
    is_digit, line_text, line_timestamp, minutes_digits, minutes_end, normalize, normalized_tag,
    seconds_digits, seconds_end, tag_len, tag_millis, tag_shape, TagShape, align, synchronize,
    seek_tagged, split_lines,
};

verus! {

/// `digit_run` read off the characters: `e - i` digits from `i`, then a
/// non-digit or the end.
proof fn lemma_digit_run_is(t: Seq<char>, i: int, e: int)
    requires
        0 <= i <= e <= t.len(),
        forall|k: int| i <= k < e ==> is_digit(#[trigger] t[k]),
        e < t.len() ==> !is_digit(t[e]),
    ensures
        digit_run(t, i) == e - i,
    decreases e - i,
{
    if i < e {
        lemma_digit_run_is(t, i + 1, e);
    }
}

/// Appending zeros to a run of digits scales its value.
proof fn lemma_digits_value_zero(d: Seq<char>)
    ensures
        digits_value(d + seq!['0']) == digits_value(d) * 10,
{
    assert((d + seq!['0']).drop_last() =~= d);
}

/// Normalizing a tag of the shapes `[M:S]`, `[M:S.F]` and `[M:S.FF]`, or a
/// canonical tag, gives a canonical tag for the same number of
/// milliseconds, followed by the same text. A legacy `[M:S:X]` tag is
/// relabelled as `[M:S.X]`: canonical when `X` has three or more digits.
/// A line that already carries a canonical tag is left unchanged, so
/// normalizing twice is normalizing once.
pub proof fn lemma_normalize_canonical(s: Seq<char>)
    requires
        has_tag(s),
        tag_shape(s) == Some(TagShape::Triple) ==> fraction_digits(s).len() >= 3,
    ensures
        is_canonical(normalize(s)),
        fraction_digits(s).len() <= 3 ==> fraction_digits(normalize(s)).len() == 3,
        tag_millis(normalize(s)) == tag_millis(s),
        line_timestamp(normalize(s)) == line_timestamp(s),
        line_text(normalize(s)) == line_text(s),
        normalize(normalize(s)) == normalize(s),
        is_canonical(s) ==> normalize(s) == s,
{
    let m = minutes_end(s);
    let p = seconds_end(s);
    let f = fraction_end(s);
    let t = normalize(s);
    let shape = tag_shape(s)->0;
    lemma_digit_run_digits(s, 1);
    lemma_digit_run_digits(s, m + 1);
    lemma_digit_run_digits(s, p + 1);
    let c = f - p - 1;
    // length of the canonical fraction in `t`
    let frac_len: int = if shape == TagShape::Whole {
        3
    } else if shape == TagShape::Fraction && c < 3 {
        3
    } else {
        c
    };
    let frac_end = p + 1 + frac_len;
    let rest = s.subrange(tag_len(s), s.len() as int);
    assert(t.len() == frac_end + 1 + rest.len());
    assert forall|k: int| 0 <= k < p implies t[k] == s[k] by {}
    assert(t[p] == '.');
    assert(t[frac_end] == ']');
    assert forall|k: int| p + 1 <= k < frac_end implies is_digit(#[trigger] t[k]) by {}
    assert forall|k: int| 0 <= k < rest.len() implies t[frac_end + 1 + k] == rest[k] by {}
    lemma_digit_run_is(t, 1, m);
    lemma_digit_run_is(t, m + 1, p);
    lemma_digit_run_is(t, p + 1, frac_end);
    assert(minutes_end(t) == m);
    assert(seconds_end(t) == p);
    assert(fraction_end(t) == frac_end);
    assert(tag_shape(t) == Some(TagShape::Fraction));
    assert(tag_len(t) == frac_end + 1);
    assert(minutes_digits(t) =~= minutes_digits(s));
    assert(seconds_digits(t) =~= seconds_digits(s));
    assert(t.subrange(tag_len(t), t.len() as int) =~= rest);
    let fs = fraction_digits(s);
    let ft = fraction_digits(t);
    if shape == TagShape::Whole {
        assert(ft =~= seq!['0', '0', '0']);
        assert(ft.subrange(0, 3) =~= ft);
        lemma_digits_value_zero(Seq::empty());
        lemma_digits_value_zero(seq!['0']);
        lemma_digits_value_zero(seq!['0', '0']);
        assert(seq!['0'] =~= Seq::<char>::empty() + seq!['0']);
        assert(seq!['0', '0'] =~= seq!['0'] + seq!['0']);
        assert(seq!['0', '0', '0'] =~= seq!['0', '0'] + seq!['0']);
    } else if shape == TagShape::Fraction && c == 1 {
        assert(ft =~= fs + seq!['0'] + seq!['0']);
        assert(ft.subrange(0, 3) =~= ft);
        lemma_digits_value_zero(fs);
        lemma_digits_value_zero(fs + seq!['0']);
    } else if shape == TagShape::Fraction && c == 2 {
        assert(ft =~= fs + seq!['0']);
        assert(ft.subrange(0, 3) =~= ft);
        lemma_digits_value_zero(fs);
    } else {
        assert(ft =~= fs);
    }
    assert(fraction_millis(ft) == fraction_millis(fs));
    assert(normalized_tag(t) =~= t.subrange(0, frac_end + 1));
    assert(normalize(t) =~= t);
    if is_canonical(s) {
        assert(t =~= s);
    }
}

/// Without a tagged primary line there are no lyrics: secondary texts
/// are never promoted to primary.
pub proof fn lemma_untagged_primary_gives_nothing(
    primary: Seq<Seq<char>>,
    translation: Seq<Seq<char>>,
    romanization: Seq<Seq<char>>,
)
    requires
        forall|i: int| 0 <= i < primary.len() ==> !has_tag(#[trigger] primary[i]),
    ensures
        synchronize(primary, translation, romanization).len() == 0,
{
    lemma_align_untagged(primary, translation, romanization, primary.len());
}

proof fn lemma_align_untagged(
    primary: Seq<Seq<char>>,
    translation: Seq<Seq<char>>,
    romanization: Seq<Seq<char>>,
    k: nat,
)
    requires
        k <= primary.len(),
        forall|i: int| 0 <= i < primary.len() ==> !has_tag(#[trigger] primary[i]),
    ensures
        align(primary, translation, romanization, k).0.len() == 0,
    decreases k,
{
    if k > 0 {
        lemma_align_untagged(primary, translation, romanization, (k - 1) as nat);
        assert(!has_tag(primary[primary.len() - k]));
    }
}

/// Where the translated text has one tagged line for each tagged primary
/// line, with the same canonical tag and in the same order, every primary
/// line receives its own translated line, and there is one entry per
/// primary line.
pub proof fn lemma_matching_translation_attaches(
    primary: Seq<Seq<char>>,
    translation: Seq<Seq<char>>,
    romanization: Seq<Seq<char>>,
)
    requires
        translation.len() == primary.len(),
        forall|i: int| 0 <= i < primary.len() ==> #[trigger] has_tag(primary[i]),
        forall|i: int| 0 <= i < translation.len() ==> #[trigger] has_tag(translation[i]),
        forall|i: int|
            0 <= i < primary.len() ==> normalized_tag(#[trigger] translation[i])
                == normalized_tag(primary[i]),
    ensures
        synchronize(primary, translation, romanization).len() == primary.len(),
        forall|i: int|
            0 <= i < primary.len() ==> (#[trigger] synchronize(
                primary,
                translation,
                romanization,
            )[i]).translation == Some(line_text(translation[i])),
        forall|i: int|
            0 <= i < primary.len() ==> (#[trigger] synchronize(
                primary,
                translation,
                romanization,
            )[i]).text == line_text(primary[i]),
{
    lemma_align_matching(primary, translation, romanization, primary.len());
}

proof fn lemma_align_matching(
    primary: Seq<Seq<char>>,
    translation: Seq<Seq<char>>,
    romanization: Seq<Seq<char>>,
    k: nat,
)
    requires
        k <= primary.len(),
        translation.len() == primary.len(),
        forall|i: int| 0 <= i < primary.len() ==> #[trigger] has_tag(primary[i]),
        forall|i: int| 0 <= i < translation.len() ==> #[trigger] has_tag(translation[i]),
        forall|i: int|
            0 <= i < primary.len() ==> normalized_tag(#[trigger] translation[i])
                == normalized_tag(primary[i]),
    ensures
        ({
            let (out, tp, _rp) = align(primary, translation, romanization, k);
            let n = primary.len() as int;
            &&& out.len() == k
            &&& tp == n - 1 - k
            &&& forall|j: int|
                0 <= j < k ==> (#[trigger] out[j]).translation == Some(
                    line_text(translation[n - k + j]),
                ) && out[j].text == line_text(primary[n - k + j])
        }),
    decreases k,
{
    if k > 0 {
        lemma_align_matching(primary, translation, romanization, (k - 1) as nat);
        let n = primary.len() as int;
        let prev = align(primary, translation, romanization, (k - 1) as nat);
        assert(has_tag(primary[n - k]));
        assert(has_tag(translation[n - k]));
        assert(seek_tagged(translation, n - k) == n - k);
        let out = align(primary, translation, romanization, k).0;
        assert forall|j: int| 1 <= j < k implies (#[trigger] out[j]).translation == Some(
            line_text(translation[n - k + j]),
        ) && out[j].text == line_text(primary[n - k + j]) by {
            assert(out[j] == prev.0[j - 1]);
        }
    }
}

/// An empty primary text gives no lyrics, whatever the translated and
/// romanized texts hold.
pub proof fn lemma_empty_primary_text(translation: Seq<char>, romanization: Seq<char>)
    ensures
        synchronize(split_lines(Seq::empty()), split_lines(translation), split_lines(romanization)).len()
            == 0,
{
    let p = split_lines(Seq::<char>::empty());
    assert(p =~= seq![Seq::<char>::empty()]);
    assert(!has_tag(Seq::<char>::empty()));
    lemma_untagged_primary_gives_nothing(p, split_lines(translation), split_lines(romanization));
}

} // verus!
