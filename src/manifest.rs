//! Playback manifests and the choice of the best video and audio streams.
use vstd::prelude::*;

verus! {

/// Which declared figure ranks the representations of a manifest.
#[derive(Clone, Copy, Debug, PartialEq, Eq, Structural)]
pub enum Metric {
    /// Declared size in bytes.
    Size,
    /// Declared bandwidth.
    Bandwidth,
}

/// One encoded variant of the video or the audio track.
#[derive(Clone, Debug)]
pub struct Representation {
    pub size: Option<i64>,
    pub bandwidth: Option<i64>,
    /// Candidate source URLs, the primary one first.
    pub urls: Vec<String>,
}

/// The part of a playback manifest that stream selection reads.
#[derive(Clone, Debug)]
pub struct Manifest {
    pub video: Option<Vec<Representation>>,
    pub audio: Option<Vec<Representation>>,
}

/// The two tracks of a content item.
#[derive(Clone, Copy, Debug, PartialEq, Eq, Structural)]
pub enum Track {
    Video,
    Audio,
}

/// The URLs of the chosen video and audio streams.
#[derive(Clone, Debug)]
pub struct StreamPair {
    pub video_url: String,
    pub audio_url: String,
}

/// The manifest offers no usable stream for this track.
#[derive(Clone, Copy, Debug, PartialEq, Eq, Structural)]
pub struct NoStreamFound {
    pub track: Track,
}

/// The ranking value of a representation; a missing figure counts as zero.
pub open spec fn metric_of(r: Representation, m: Metric) -> i64 {
    let v = match m {
        Metric::Size => r.size,
        Metric::Bandwidth => r.bandwidth,
    };
    match v {
        Some(x) => x,
        None => 0,
    }
}

/// Index `i` holds a maximal value, and no earlier index holds as much.
pub open spec fn is_best(reps: Seq<Representation>, m: Metric, i: int) -> bool {
    &&& 0 <= i < reps.len()
    &&& forall|j: int| 0 <= j < reps.len() ==> metric_of(#[trigger] reps[j], m) <= metric_of(reps[i], m)
    &&& forall|j: int| 0 <= j < i ==> metric_of(#[trigger] reps[j], m) < metric_of(reps[i], m)
}

/// The first index of maximal value.
pub open spec fn best_index(reps: Seq<Representation>, m: Metric) -> int
    decreases reps.len(),
{
    if reps.len() <= 1 {
        0
    } else {
        let b = best_index(reps.drop_last(), m);
        if metric_of(reps.last(), m) > metric_of(reps[b], m) {
            reps.len() - 1
        } else {
            b
        }
    }
}

/// The primary URL of a representation, when it is usable.
pub open spec fn primary_url(r: Representation) -> Option<Seq<char>> {
    if r.urls@.len() > 0 && r.urls@[0]@.len() > 0 {
        Some(r.urls@[0]@)
    } else {
        None
    }
}

/// The URL chosen from a representation list, if the list yields one.
pub open spec fn chosen_url(list: Option<Vec<Representation>>, m: Metric) -> Option<Seq<char>> {
    match list {
        None => None,
        Some(v) => if v@.len() == 0 {
            None
        } else {
            primary_url(v@[best_index(v@, m)])
        },
    }
}

/// The first index of maximal value is maximal, and every earlier one is smaller.
pub proof fn lemma_best_index_is_best(reps: Seq<Representation>, m: Metric)
    requires
        reps.len() > 0,
    ensures
        is_best(reps, m, best_index(reps, m)),
    decreases reps.len(),
{
    if reps.len() > 1 {
        let init = reps.drop_last();
        lemma_best_index_is_best(init, m);
        let b = best_index(init, m);
        assert forall|j: int| 0 <= j < init.len() implies #[trigger] reps[j] == init[j] by {}
    }
}

/// Only one index is best: ties go to the lowest index.
pub proof fn lemma_best_is_unique(reps: Seq<Representation>, m: Metric, i: int, k: int)
    requires
        is_best(reps, m, i),
        is_best(reps, m, k),
    ensures
        i == k,
{
    if i < k {
        assert(metric_of(reps[i], m) < metric_of(reps[k], m));
    } else if k < i {
        assert(metric_of(reps[k], m) < metric_of(reps[i], m));
    }
}

/// With at least one video and one audio representation, the URL chosen for
/// each track is that of a representation of largest metric, and of the
/// lowest index among those that tie (`is_best` holds of that one only); when
/// that representation's first URL is not empty, it is the one chosen.
pub proof fn lemma_select_prefers_largest(manifest: Manifest, metric: Metric)
    requires
        manifest.video matches Some(v) && v@.len() >= 1,
        manifest.audio matches Some(a) && a@.len() >= 1,
    ensures
        exists|i: int| is_best(manifest.video->0@, metric, i),
        exists|k: int| is_best(manifest.audio->0@, metric, k),
        forall|i: int|
            is_best(manifest.video->0@, metric, i) ==> chosen_url(manifest.video, metric)
                == primary_url(#[trigger] manifest.video->0@[i]),
        forall|k: int|
            is_best(manifest.audio->0@, metric, k) ==> chosen_url(manifest.audio, metric)
                == primary_url(#[trigger] manifest.audio->0@[k]),
        forall|i: int|
            is_best(manifest.video->0@, metric, i) && (#[trigger] manifest.video->0@[i]).urls@.len() > 0
                && manifest.video->0@[i].urls@[0]@.len() > 0 ==> chosen_url(manifest.video, metric)
                == Some(manifest.video->0@[i].urls@[0]@),
        forall|k: int|
            is_best(manifest.audio->0@, metric, k) && (#[trigger] manifest.audio->0@[k]).urls@.len() > 0
                && manifest.audio->0@[k].urls@[0]@.len() > 0 ==> chosen_url(manifest.audio, metric)
                == Some(manifest.audio->0@[k].urls@[0]@),
{
    let v = manifest.video->0@;
    let a = manifest.audio->0@;
    lemma_best_index_is_best(v, metric);
    lemma_best_index_is_best(a, metric);
    assert forall|i: int| is_best(v, metric, i) implies chosen_url(manifest.video, metric)
        == primary_url(#[trigger] v[i]) by {
        lemma_best_is_unique(v, metric, i, best_index(v, metric));
    }
    assert forall|k: int| is_best(a, metric, k) implies chosen_url(manifest.audio, metric)
        == primary_url(#[trigger] a[k]) by {
        lemma_best_is_unique(a, metric, k, best_index(a, metric));
    }
}

/// A missing or empty representation list yields no stream, so selection
/// fails on it.
pub proof fn lemma_select_needs_representations(manifest: Manifest, metric: Metric)
    requires
        manifest.video is None || manifest.video->0@.len() == 0 || manifest.audio is None
            || manifest.audio->0@.len() == 0,
    ensures
        chosen_url(manifest.video, metric) is None || chosen_url(manifest.audio, metric) is None,
{
}

fn metric_value(r: &Representation, m: Metric) -> (v: i64)
    ensures
        v == metric_of(*r, m),
{
    let f = match m {
        Metric::Size => r.size,
        Metric::Bandwidth => r.bandwidth,
    };
    match f {
        Some(x) => x,
        None => 0,
    }
}

/// The index of the first representation with the largest value of `m`.
pub fn best_representation(reps: &Vec<Representation>, m: Metric) -> (i: usize)
    requires
        reps.len() > 0,
    ensures
        i == best_index(reps@, m),
        is_best(reps@, m, i as int),
{
    let mut best: usize = 0;
    let mut best_value: i64 = metric_value(&reps[0], m);
    let mut k: usize = 1;
    while k < reps.len()
        invariant
            1 <= k <= reps.len(),
            best < k,
            best == best_index(reps@.take(k as int), m),
            best_value == metric_of(reps@[best as int], m),
        decreases reps.len() - k,
    {
        let v = metric_value(&reps[k], m);
        assert(reps@.take(k + 1).drop_last() == reps@.take(k as int));
        assert(reps@.take(k as int)[best as int] == reps@[best as int]);
        if v > best_value {
            best = k;
            best_value = v;
        }
        k = k + 1;
    }
    assert(reps@.take(reps.len() as int) == reps@);
    proof {
        lemma_best_index_is_best(reps@, m);
    }
    best
}

fn chosen_stream(list: &Option<Vec<Representation>>, m: Metric) -> (r: Option<String>)
    ensures
        match r {
            Some(u) => chosen_url(*list, m) == Some(u@),
            None => chosen_url(*list, m) is None,
        },
{
    match list {
        None => None,
        Some(reps) => {
            if reps.len() == 0 {
                None
            } else {
                let i = best_representation(reps, m);
                let rep = &reps[i];
                if rep.urls.len() > 0 && rep.urls[0].as_str().unicode_len() > 0 {
                    Some(rep.urls[0].clone())
                } else {
                    None
                }
            }
        },
    }
}

/// Picks the video and the audio stream of the largest `metric` (the first
/// one on a tie) and returns their primary URLs.
pub fn select(manifest: &Manifest, metric: Metric) -> (r: Result<StreamPair, NoStreamFound>)
    ensures
        match (chosen_url(manifest.video, metric), chosen_url(manifest.audio, metric)) {
            (Some(v), Some(a)) => r matches Ok(p) && p.video_url@ == v && p.audio_url@ == a,
            (None, _) => r == Err::<StreamPair, NoStreamFound>(NoStreamFound { track: Track::Video }),
            (Some(_), None) => r == Err::<StreamPair, NoStreamFound>(
                NoStreamFound { track: Track::Audio },
            ),
        },
{
    let video_url = match chosen_stream(&manifest.video, metric) {
        Some(u) => u,
        None => {
            return Err(NoStreamFound { track: Track::Video });
        },
    };
    let audio_url = match chosen_stream(&manifest.audio, metric) {
        Some(u) => u,
        None => {
            return Err(NoStreamFound { track: Track::Audio });
        },
    };
    Ok(StreamPair { video_url, audio_url })
}

} // verus!
