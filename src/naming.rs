//! File-system-safe base names for downloaded items.
use vstd::prelude::*;
use crate::text::{chars_of, decimal_value, parse_i64, string_of};

verus! {

/// Characters that common file systems refuse in a file name.
pub open spec fn is_forbidden(c: char) -> bool {
    c == '<' || c == '>' || c == ':' || c == '"' || c == '/' || c == '\\' || c == '|' || c == '?'
        || c == '*'
}

/// `s` with every forbidden character removed, the others kept in order.
pub open spec fn strip_forbidden(s: Seq<char>) -> Seq<char>
    decreases s.len(),
{
    if s.len() == 0 {
        Seq::empty()
    } else {
        let rest = strip_forbidden(s.drop_last());
        if is_forbidden(s.last()) {
            rest
        } else {
            rest.push(s.last())
        }
    }
}

/// No character of a stripped string is forbidden.
pub proof fn lemma_strip_forbidden_is_clean(s: Seq<char>)
    ensures
        forall|i: int| 0 <= i < strip_forbidden(s).len() ==> !is_forbidden(#[trigger] strip_forbidden(s)[i]),
    decreases s.len(),
{
    if s.len() > 0 {
        lemma_strip_forbidden_is_clean(s.drop_last());
        let rest = strip_forbidden(s.drop_last());
        if !is_forbidden(s.last()) {
            assert forall|i: int| 0 <= i < rest.push(s.last()).len() implies !is_forbidden(
                #[trigger] rest.push(s.last())[i],
            ) by {
                if i < rest.len() {
                    assert(rest.push(s.last())[i] == rest[i]);
                }
            }
        }
    }
}

fn is_forbidden_char(c: char) -> (r: bool)
    ensures
        r == is_forbidden(c),
{
    c == '<' || c == '>' || c == ':' || c == '"' || c == '/' || c == '\\' || c == '|' || c == '?'
        || c == '*'
}

/// Removes the characters `< > : " / \ | ? *` from `input`.
pub fn remove_punctuation(input: &str) -> (r: String)
    ensures
        r@ == strip_forbidden(input@),
        forall|i: int| 0 <= i < r@.len() ==> !is_forbidden(#[trigger] r@[i]),
{
    let cs = chars_of(input);
    let mut kept: Vec<char> = Vec::new();
    let mut i: usize = 0;
    while i < cs.len()
        invariant
            i <= cs.len(),
            kept@ == strip_forbidden(cs@.take(i as int)),
        decreases cs.len() - i,
    {
        let c = cs[i];
        assert(cs@.take(i + 1).drop_last() == cs@.take(i as int));
        if !is_forbidden_char(c) {
            kept.push(c);
        }
        i = i + 1;
    }
    assert(cs@.take(cs.len() as int) == cs@);
    proof {
        lemma_strip_forbidden_is_clean(input@);
    }
    string_of(&kept)
}

/// One episode of a season, as the season metadata lists it.
#[derive(Clone, Debug)]
pub struct Episode {
    pub ep_id: Option<i64>,
    /// The title to share the episode under.
    pub share_copy: Option<String>,
}

/// The part of a season's metadata that naming and batching read.
#[derive(Clone, Debug)]
pub struct SeasonInfo {
    pub episodes: Option<Vec<Episode>>,
}

/// The episode carries an id, and it is `id`; an episode without an id
/// matches no id.
pub open spec fn has_id(e: Episode, id: Option<int>) -> bool {
    match e.ep_id {
        Some(x) => id == Some(x as int),
        None => false,
    }
}

/// Index of the first episode with the id `id`, or zero if none has it.
pub open spec fn episode_index(eps: Seq<Episode>, id: Option<int>) -> int
    decreases eps.len(),
{
    if eps.len() == 0 {
        0
    } else if has_id(eps[0], id) {
        0
    } else if exists|i: int| 1 <= i < eps.len() && has_id(#[trigger] eps[i], id) {
        1 + episode_index(eps.drop_first(), id)
    } else {
        0
    }
}

/// The title of the first episode whose id is the one `ep_id` writes, or of
/// the first episode when no episode has that id.
pub open spec fn episode_title_of(season: SeasonInfo, ep_id: Seq<char>) -> Option<Seq<char>> {
    match season.episodes {
        None => None,
        Some(eps) => if eps@.len() == 0 {
            None
        } else {
            match eps@[episode_index(eps@, decimal_value(ep_id))].share_copy {
                Some(t) => Some(t@),
                None => None,
            }
        },
    }
}

proof fn lemma_episode_index_found(eps: Seq<Episode>, id: Option<int>, k: int)
    requires
        0 <= k < eps.len(),
        has_id(eps[k], id),
        forall|j: int| 0 <= j < k ==> !has_id(#[trigger] eps[j], id),
    ensures
        episode_index(eps, id) == k,
    decreases eps.len(),
{
    if k > 0 {
        assert(eps.drop_first()[k - 1] == eps[k]);
        assert forall|j: int| 0 <= j < k - 1 implies !has_id(#[trigger] eps.drop_first()[j], id) by {
            assert(eps.drop_first()[j] == eps[j + 1]);
        }
        lemma_episode_index_found(eps.drop_first(), id, k - 1);
    }
}

proof fn lemma_episode_index_missing(eps: Seq<Episode>, id: Option<int>)
    requires
        forall|j: int| 0 <= j < eps.len() ==> !has_id(#[trigger] eps[j], id),
    ensures
        episode_index(eps, id) == 0,
{
}

/// The raw title of the episode whose id `ep_id` writes, falling back to the
/// first episode; `None` when there is no episode or no title.
pub fn episode_title(season: &SeasonInfo, ep_id: &str) -> (r: Option<String>)
    ensures
        match r {
            Some(t) => episode_title_of(*season, ep_id@) == Some(t@),
            None => episode_title_of(*season, ep_id@) is None,
        },
{
    let eps = match &season.episodes {
        None => {
            return None;
        },
        Some(eps) => eps,
    };
    if eps.len() == 0 {
        return None;
    }
    let id = parse_i64(ep_id);
    let ghost want: Option<int> = decimal_value(ep_id@);
    let mut k: usize = 0;
    let mut found = false;
    while !found && k < eps.len()
        invariant
            k <= eps.len(),
            want == decimal_value(ep_id@),
            id is Some ==> want == Some(id->0 as int),
            id is None ==> forall|j: int| 0 <= j < eps.len() ==> !has_id(#[trigger] eps@[j], want),
            forall|j: int| 0 <= j < k ==> !has_id(#[trigger] eps@[j], want),
            found ==> k < eps.len() && has_id(eps@[k as int], want),
        decreases eps.len() - k + (if found { 0int } else { 1int }),
    {
        let matches = match (id, eps[k].ep_id) {
            (Some(n), Some(x)) => n == x,
            _ => false,
        };
        if matches {
            found = true;
        } else {
            k = k + 1;
        }
    }
    let idx: usize = if found {
        k
    } else {
        0
    };
    proof {
        if found {
            lemma_episode_index_found(eps@, want, k as int);
        } else {
            lemma_episode_index_missing(eps@, want);
        }
    }
    match &eps[idx].share_copy {
        Some(t) => Some(t.clone()),
        None => None,
    }
}

/// The file-system-safe base name of an episode: its title with the
/// forbidden characters removed.
pub fn derive_name(season: &SeasonInfo, ep_id: &str) -> (r: Option<String>)
    ensures
        match r {
            Some(n) => episode_title_of(*season, ep_id@) matches Some(t) && n@ == strip_forbidden(t),
            None => episode_title_of(*season, ep_id@) is None,
        },
{
    match episode_title(season, ep_id) {
        Some(t) => Some(remove_punctuation(t.as_str())),
        None => None,
    }
}

/// A standalone video: its id, its part id if known, and its base name.
#[derive(Clone, Debug)]
pub struct BvInfo {
    pub bv_id: String,
    pub cid: Option<i64>,
    pub title: String,
}

/// The details of a standalone video from its metadata: the title with the
/// forbidden characters removed, `no title` standing in for a missing one.
pub fn bv_info(bv_id: &str, cid: Option<i64>, title: Option<String>) -> (r: BvInfo)
    ensures
        r.bv_id@ == bv_id@,
        r.cid == cid,
        r.title@ == strip_forbidden(
            match title {
                Some(t) => t@,
                None => "no title"@,
            },
        ),
{
    let t = match &title {
        Some(t) => remove_punctuation(t.as_str()),
        None => remove_punctuation("no title"),
    };
    BvInfo { bv_id: String::from_str(bv_id), cid, title: t }
}

/// One line of the download log: time, video id and title, each followed
/// by a tab, then a line break.
pub open spec fn log_line_of(time: Seq<char>, bv_id: Seq<char>, title: Seq<char>) -> Seq<char> {
    time + "\t"@ + bv_id + "\t"@ + title + "\t\n"@
}

/// The download log's line for a video, given the time already written out.
pub fn log_line(time: &str, bv_id: &str, title: &str) -> (r: String)
    ensures
        r@ == log_line_of(time@, bv_id@, title@),
{
    String::from_str(time).concat("\t").concat(bv_id).concat("\t").concat(title).concat("\t\n")
}

} // verus!
