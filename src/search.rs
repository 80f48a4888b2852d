//! Case-insensitive keyword search over track titles.
use vstd::prelude::*;
use vstd::string::*;
use crate::lyrics::lines_of;
use crate::model::Song;

verus! {

/// ASCII lower case of a character; other characters are kept.
pub open spec fn ascii_lower(c: char) -> char {
    if 'A' <= c && c <= 'Z' {
        ((c as int) + 32) as char
    } else {
        c
    }
}

/// ASCII lower case of a text.
pub open spec fn lower(s: Seq<char>) -> Seq<char> {
    s.map_values(|c: char| ascii_lower(c))
}

/// `needle` occurs in `hay` at position `i`.
pub open spec fn occurs_at(hay: Seq<char>, needle: Seq<char>, i: int) -> bool {
    &&& 0 <= i
    &&& i + needle.len() <= hay.len()
    &&& forall|j: int| 0 <= j < needle.len() ==> hay[i + j] == needle[j]
}

/// `needle` is a substring of `hay`.
pub open spec fn occurs_in(hay: Seq<char>, needle: Seq<char>) -> bool {
    exists|i: int| occurs_at(hay, needle, i)
}

/// Every keyword occurs in the title, ignoring ASCII case.
pub open spec fn title_matches(title: Seq<char>, keywords: Seq<Seq<char>>) -> bool {
    forall|k: int| 0 <= k < keywords.len() ==> occurs_in(lower(title), lower(#[trigger] keywords[k]))
}

/// Whether the track at `i` of `playlist` matches the keywords.
pub open spec fn song_matches(playlist: Seq<Song>, i: int, keywords: Seq<Seq<char>>) -> bool {
    title_matches(playlist[i].name@, keywords)
}

fn lower_char(c: char) -> (r: char)
    ensures
        r == ascii_lower(c),
{
    if 'A' <= c && c <= 'Z' {
        ((c as u8) + 32) as char
    } else {
        c
    }
}

/// The characters of `s` in ASCII lower case.
fn lowered(s: &str) -> (r: Vec<char>)
    ensures
        r@ == lower(s@),
{
    let n = s.unicode_len();
    let mut r: Vec<char> = Vec::new();
    let mut i: usize = 0;
    while i < n
        invariant
            i <= n,
            n == s@.len(),
            r@ =~= lower(s@.subrange(0, i as int)),
        decreases n - i,
    {
        r.push(lower_char(s.get_char(i)));
        i = i + 1;
        assert(r@ =~= lower(s@.subrange(0, i as int)));
    }
    assert(s@.subrange(0, n as int) =~= s@);
    r
}

/// Whether `needle` is a substring of `hay`.
fn contains_chars(hay: &Vec<char>, needle: &Vec<char>) -> (r: bool)
    ensures
        r == occurs_in(hay@, needle@),
{
    let h = hay.len();
    let m = needle.len();
    if m > h {
        return false;
    }
    let mut i: usize = 0;
    while i <= h - m
        invariant
            m <= h,
            h == hay@.len(),
            m == needle@.len(),
            forall|at: int| 0 <= at < i ==> !occurs_at(hay@, needle@, at),
        decreases h - m + 1 - i,
    {
        let mut j: usize = 0;
        while j < m && hay[i + j] == needle[j]
            invariant
                j <= m,
                i + m <= h,
                h == hay@.len(),
                m == needle@.len(),
                forall|t: int| 0 <= t < j ==> hay@[i + t] == needle@[t],
            decreases m - j,
        {
            j = j + 1;
        }
        if j == m {
            assert(occurs_at(hay@, needle@, i as int));
            return true;
        }
        i = i + 1;
    }
    assert forall|at: int| !occurs_at(hay@, needle@, at) by {
        if 0 <= at && at + m <= h {
            assert(at < i);
        }
    }
    false
}

/// Whether every keyword occurs in `title`, ignoring ASCII case.
pub fn title_has_keywords(title: &str, keywords: &Vec<String>) -> (r: bool)
    ensures
        r == title_matches(title@, lines_of(keywords@)),
{
    let t = lowered(title);
    let mut k: usize = 0;
    while k < keywords.len()
        invariant
            k <= keywords.len(),
            t@ == lower(title@),
            forall|w: int|
                0 <= w < k ==> occurs_in(lower(title@), lower(#[trigger] lines_of(keywords@)[w])),
        decreases keywords.len() - k,
    {
        let w = lowered(keywords[k].as_str());
        assert(lines_of(keywords@)[k as int] == keywords@[k as int]@);
        if !contains_chars(&t, &w) {
            return false;
        }
        k = k + 1;
    }
    true
}

/// Walks the playlist indices in `order` and returns the first whose
/// track title holds every keyword, ignoring ASCII case.
pub fn search_in_iter(playlist: &Vec<Song>, order: &Vec<usize>, keywords: &Vec<String>) -> (r:
    Option<usize>)
    requires
        forall|p: int| 0 <= p < order.len() ==> #[trigger] order[p] < playlist.len(),
    ensures
        r is None ==> forall|p: int|
            0 <= p < order.len() ==> !song_matches(playlist@, #[trigger] order[p] as int, lines_of(keywords@)),
        r matches Some(i) ==> exists|p: int|
            0 <= p < order.len() && #[trigger] order[p] == i && song_matches(
                playlist@,
                i as int,
                lines_of(keywords@),
            ) && forall|earlier: int|
                0 <= earlier < p ==> !song_matches(playlist@, #[trigger] order[earlier] as int, lines_of(keywords@)),
{
    let mut p: usize = 0;
    while p < order.len()
        invariant
            p <= order.len(),
            forall|p: int| 0 <= p < order.len() ==> #[trigger] order[p] < playlist.len(),
            forall|earlier: int|
                0 <= earlier < p ==> !song_matches(playlist@, #[trigger] order[earlier] as int, lines_of(keywords@)),
        decreases order.len() - p,
    {
        let i = order[p];
        if title_has_keywords(playlist[i].name.as_str(), keywords) {
            assert(order[p as int] == i);
            return Some(i);
        }
        p = p + 1;
    }
    None
}

} // verus!
