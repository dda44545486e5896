//! Episode and season identifiers read from a page URL.
use vstd::prelude::*;
use crate::text::{chars_of, string_of_range};

verus! {

/// Position of the first `c` in `s`, or the length of `s` when there is none.
pub open spec fn first_index_of(s: Seq<char>, c: char) -> int
    decreases s.len(),
{
    if s.len() == 0 {
        0
    } else if s[0] == c {
        0
    } else {
        1 + first_index_of(s.drop_first(), c)
    }
}

/// Position just after the last `c` in `s`, or zero when there is none.
pub open spec fn after_last_index_of(s: Seq<char>, c: char) -> int
    decreases s.len(),
{
    if s.len() == 0 {
        0
    } else if s.last() == c {
        s.len() as int
    } else {
        after_last_index_of(s.drop_last(), c)
    }
}

/// The last `/`-separated segment of the URL's path, its query left out.
pub open spec fn path_id(url: Seq<char>) -> Seq<char> {
    let path = url.take(first_index_of(url, '?'));
    path.subrange(after_last_index_of(path, '/'), path.len() as int)
}

/// `s` holds `a` directly followed by `b`.
pub open spec fn has_pair(s: Seq<char>, a: char, b: char) -> bool {
    exists|i: int| 0 <= i && i + 1 < s.len() && #[trigger] s[i] == a && s[i + 1] == b
}

/// `s` with every leading repetition of `ab` removed.
pub open spec fn trim_pair(s: Seq<char>, a: char, b: char) -> Seq<char>
    decreases s.len(),
{
    if s.len() >= 2 && s[0] == a && s[1] == b {
        trim_pair(s.subrange(2, s.len() as int), a, b)
    } else {
        s
    }
}

/// The episode id and the season id that a URL names; the one not named is empty.
pub open spec fn epid_season(url: Seq<char>) -> (Seq<char>, Seq<char>) {
    let id = path_id(url);
    if has_pair(id, 'e', 'p') {
        (trim_pair(id, 'e', 'p'), Seq::empty())
    } else if has_pair(id, 's', 's') {
        (Seq::empty(), trim_pair(id, 's', 's'))
    } else {
        (Seq::empty(), Seq::empty())
    }
}

proof fn lemma_first_index_of(s: Seq<char>, c: char, i: int)
    requires
        0 <= i <= s.len(),
        forall|j: int| 0 <= j < i ==> s[j] != c,
        i == s.len() || s[i] == c,
    ensures
        first_index_of(s, c) == i,
    decreases s.len(),
{
    if s.len() > 0 && s[0] != c {
        lemma_first_index_of(s.drop_first(), c, i - 1);
    }
}

proof fn lemma_after_last_index_of(s: Seq<char>, c: char, j: int)
    requires
        0 <= j <= s.len(),
        forall|k: int| j <= k < s.len() ==> s[k] != c,
        j == 0 || s[j - 1] == c,
    ensures
        after_last_index_of(s, c) == j,
    decreases s.len(),
{
    if s.len() > 0 && s.last() != c {
        lemma_after_last_index_of(s.drop_last(), c, j);
    }
}

/// Whether `v[lo..hi]` holds `a` directly followed by `b`.
fn range_has_pair(v: &Vec<char>, lo: usize, hi: usize, a: char, b: char) -> (r: bool)
    requires
        lo <= hi <= v.len(),
    ensures
        r == has_pair(v@.subrange(lo as int, hi as int), a, b),
{
    let ghost s = v@.subrange(lo as int, hi as int);
    let mut i: usize = lo;
    while hi - i >= 2
        invariant
            lo <= i <= hi,
            hi <= v.len(),
            s == v@.subrange(lo as int, hi as int),
            forall|k: int| 0 <= k < i - lo && k + 1 < s.len() ==> !(#[trigger] s[k] == a && s[k + 1] == b),
        decreases hi - i,
    {
        if v[i] == a && v[i + 1] == b {
            assert(s[i - lo] == a && s[i - lo + 1] == b);
            return true;
        }
        i = i + 1;
    }
    false
}

/// Start of `v[lo..hi]` once every leading repetition of `ab` is skipped.
fn skip_pairs(v: &Vec<char>, lo: usize, hi: usize, a: char, b: char) -> (k: usize)
    requires
        lo <= hi <= v.len(),
    ensures
        lo <= k <= hi,
        v@.subrange(k as int, hi as int) == trim_pair(v@.subrange(lo as int, hi as int), a, b),
{
    let mut k: usize = lo;
    while hi - k >= 2 && v[k] == a && v[k + 1] == b
        invariant
            lo <= k <= hi <= v.len(),
            trim_pair(v@.subrange(k as int, hi as int), a, b) == trim_pair(
                v@.subrange(lo as int, hi as int),
                a,
                b,
            ),
        decreases hi - k,
    {
        assert(v@.subrange(k as int, hi as int).subrange(2, hi - k) == v@.subrange(k + 2, hi as int));
        k = k + 2;
    }
    k
}

/// Bounds of the path id of the URL whose characters are `cs`.
fn path_id_range(cs: &Vec<char>) -> (r: (usize, usize))
    ensures
        r.0 <= r.1 <= cs.len(),
        cs@.subrange(r.0 as int, r.1 as int) == path_id(cs@),
{
    let ghost s = cs@;
    let mut q: usize = 0;
    while q < cs.len() && cs[q] != '?'
        invariant
            q <= cs.len(),
            s == cs@,
            forall|j: int| 0 <= j < q ==> s[j] != '?',
        decreases cs.len() - q,
    {
        q = q + 1;
    }
    proof {
        lemma_first_index_of(s, '?', q as int);
    }
    let ghost path = s.take(q as int);
    let mut st: usize = q;
    while st > 0 && cs[st - 1] != '/'
        invariant
            st <= q <= cs.len(),
            s == cs@,
            forall|k: int| st <= k < q ==> s[k] != '/',
        decreases st,
    {
        st = st - 1;
    }
    proof {
        assert forall|k: int| st <= k < path.len() implies path[k] != '/' by {
            assert(path[k] == s[k]);
        }
        lemma_after_last_index_of(path, '/', st as int);
        assert(path.subrange(st as int, path.len() as int) == s.subrange(st as int, q as int));
    }
    (st, q)
}

/// Reads the episode id (after `ep`) or the season id (after `ss`) from the
/// last path segment of a page URL; the other one, or both, come back empty.
pub fn get_epid_season(url: &str) -> (r: (String, String))
    ensures
        (r.0@, r.1@) == epid_season(url@),
{
    let cs = chars_of(url);
    let (st, q) = path_id_range(&cs);
    if range_has_pair(&cs, st, q, 'e', 'p') {
        let k = skip_pairs(&cs, st, q, 'e', 'p');
        (string_of_range(&cs, k, q), String::new())
    } else if range_has_pair(&cs, st, q, 's', 's') {
        let k = skip_pairs(&cs, st, q, 's', 's');
        (String::new(), string_of_range(&cs, k, q))
    } else {
        (String::new(), String::new())
    }
}

/// What a content id names.
#[derive(Clone, Copy, Debug, PartialEq, Eq, Structural)]
pub enum ContentKind {
    /// One episode of a series.
    Episode,
    /// A whole season, episode by episode.
    Season,
    /// A standalone video, named by its `BV` id.
    BareId,
}

/// A resolved content item: its kind and its id.
#[derive(Clone, Debug)]
pub struct ContentItem {
    pub kind: ContentKind,
    pub id: String,
}

/// The content item a URL names: an episode or a season as `get_epid_season`
/// reads them (an empty id naming nothing), else a path id that starts with
/// `BV`.
pub open spec fn item_of(url: Seq<char>) -> Option<(ContentKind, Seq<char>)> {
    let (ep, ss) = epid_season(url);
    let id = path_id(url);
    if ep.len() > 0 {
        Some((ContentKind::Episode, ep))
    } else if ss.len() > 0 {
        Some((ContentKind::Season, ss))
    } else if id.len() > 2 && id[0] == 'B' && id[1] == 'V' {
        Some((ContentKind::BareId, id))
    } else {
        None
    }
}

/// Resolves a page URL to the content item it names, if any.
pub fn resolve_item(url: &str) -> (r: Option<ContentItem>)
    ensures
        match r {
            Some(c) => item_of(url@) == Some((c.kind, c.id@)),
            None => item_of(url@) is None,
        },
{
    let (ep, ss) = get_epid_season(url);
    if ep.as_str().unicode_len() > 0 {
        return Some(ContentItem { kind: ContentKind::Episode, id: ep });
    }
    if ss.as_str().unicode_len() > 0 {
        return Some(ContentItem { kind: ContentKind::Season, id: ss });
    }
    let cs = chars_of(url);
    let (st, q) = path_id_range(&cs);
    if q - st > 2 && cs[st] == 'B' && cs[st + 1] == 'V' {
        Some(ContentItem { kind: ContentKind::BareId, id: string_of_range(&cs, st, q) })
    } else {
        None
    }
}

} // verus!
