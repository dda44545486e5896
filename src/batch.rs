//! A season downloaded episode by episode, each failure recorded and passed
//! over, but for a muxer that cannot be started, which ends the run.
use vstd::prelude::*;
use crate::item::{ItemError, MuxError};
use crate::naming::{Episode, SeasonInfo};

verus! {

/// The ids of a season's episodes, in the order listed.
pub open spec fn season_ids(season: SeasonInfo) -> Seq<Option<i64>> {
    match season.episodes {
        None => Seq::empty(),
        Some(eps) => eps@.map_values(|e: Episode| e.ep_id),
    }
}

/// The episode ids of a season, in the order listed; `None` for an episode
/// that has none.
pub fn season_episode_ids(season: &SeasonInfo) -> (r: Vec<Option<i64>>)
    ensures
        r@ == season_ids(*season),
{
    let mut r: Vec<Option<i64>> = Vec::new();
    match &season.episodes {
        None => {},
        Some(eps) => {
            let mut i: usize = 0;
            while i < eps.len()
                invariant
                    i <= eps.len(),
                    r@ == eps@.take(i as int).map_values(|e: Episode| e.ep_id),
                decreases eps.len() - i,
            {
                r.push(eps[i].ep_id);
                assert(eps@.take(i + 1) == eps@.take(i as int).push(eps@[i as int]));
                assert(eps@.take(i + 1).map_values(|e: Episode| e.ep_id) =~= eps@.take(
                    i as int,
                ).map_values(|e: Episode| e.ep_id).push(eps@[i as int].ep_id));
                i = i + 1;
            }
            assert(eps@.take(eps.len() as int) == eps@);
        },
    }
    r
}

/// What became of one episode: its base name, or why it failed.
#[derive(Debug)]
pub struct EpisodeOutcome {
    pub ep_id: Option<i64>,
    pub result: Result<String, ItemError>,
}

/// A batch in progress: the episodes to do, and the outcomes so far, one per
/// episode, in the same order.
#[derive(Debug)]
pub struct Batch {
    pub episodes: Vec<Option<i64>>,
    pub outcomes: Vec<EpisodeOutcome>,
}

/// The failure that ends the whole run: the muxer could not be started.
pub open spec fn is_fatal(r: Result<String, ItemError>) -> bool {
    r == Err::<String, ItemError>(ItemError::Mux(MuxError::ProcessSpawn))
}

/// Some outcome recorded so far ends the run.
pub open spec fn stopped(outs: Seq<EpisodeOutcome>) -> bool {
    exists|i: int| 0 <= i < outs.len() && is_fatal(#[trigger] outs[i].result)
}

/// The names of the episodes that succeeded, in order.
pub open spec fn succeeded(outs: Seq<EpisodeOutcome>) -> Seq<Seq<char>>
    decreases outs.len(),
{
    if outs.len() == 0 {
        Seq::empty()
    } else {
        let rest = succeeded(outs.drop_last());
        match outs.last().result {
            Ok(n) => rest.push(n@),
            Err(_) => rest,
        }
    }
}

/// The episodes that failed, with their errors, in order.
pub open spec fn failed(outs: Seq<EpisodeOutcome>) -> Seq<(Option<i64>, ItemError)>
    decreases outs.len(),
{
    if outs.len() == 0 {
        Seq::empty()
    } else {
        let rest = failed(outs.drop_last());
        match outs.last().result {
            Ok(_) => rest,
            Err(e) => rest.push((outs.last().ep_id, e)),
        }
    }
}

impl Batch {
    /// Each outcome belongs to the episode at its position.
    pub open spec fn wf(&self) -> bool {
        &&& self.outcomes@.len() <= self.episodes@.len()
        &&& forall|i: int| 0 <= i < self.outcomes@.len() ==> #[trigger] self.outcomes@[i].ep_id == self.episodes@[i]
    }

    /// The episode to do next: none once the run is stopped or every
    /// episode has an outcome.
    pub open spec fn next_spec(&self) -> Option<Option<i64>> {
        if !stopped(self.outcomes@) && self.outcomes@.len() < self.episodes@.len() {
            Some(self.episodes@[self.outcomes@.len() as int])
        } else {
            None
        }
    }

    /// A batch over `episodes`, none of them done.
    pub fn new(episodes: Vec<Option<i64>>) -> (b: Batch)
        ensures
            b.episodes@ == episodes@,
            b.outcomes@.len() == 0,
            b.wf(),
    {
        Batch { episodes, outcomes: Vec::new() }
    }

    /// Whether a recorded outcome ends the run.
    pub fn is_stopped(&self) -> (r: bool)
        ensures
            r == stopped(self.outcomes@),
    {
        let mut i: usize = 0;
        while i < self.outcomes.len()
            invariant
                i <= self.outcomes.len(),
                forall|j: int| 0 <= j < i ==> !is_fatal(#[trigger] self.outcomes@[j].result),
            decreases self.outcomes.len() - i,
        {
            let fatal = match &self.outcomes[i].result {
                Err(ItemError::Mux(MuxError::ProcessSpawn)) => true,
                _ => false,
            };
            if fatal {
                assert(is_fatal(self.outcomes@[i as int].result));
                return true;
            }
            i = i + 1;
        }
        false
    }

    /// The next episode to download, whatever became of the ones before,
    /// unless the muxer could not be started; `Some(None)` is an episode
    /// without an id.
    pub fn next_episode(&self) -> (r: Option<Option<i64>>)
        ensures
            r == self.next_spec(),
    {
        if !self.is_stopped() && self.outcomes.len() < self.episodes.len() {
            Some(self.episodes[self.outcomes.len()])
        } else {
            None
        }
    }

    /// Records the outcome of the episode returned by `next_episode`.
    pub fn record(&mut self, result: Result<String, ItemError>)
        requires
            old(self).wf(),
            old(self).outcomes@.len() < old(self).episodes@.len(),
        ensures
            final(self).wf(),
            final(self).episodes@ == old(self).episodes@,
            final(self).outcomes@ == old(self).outcomes@.push(
                EpisodeOutcome { ep_id: old(self).episodes@[old(self).outcomes@.len() as int], result },
            ),
    {
        let ep_id = self.episodes[self.outcomes.len()];
        self.outcomes.push(EpisodeOutcome { ep_id, result });
    }

    /// Whether every episode has an outcome.
    pub fn is_complete(&self) -> (r: bool)
        ensures
            r == (self.outcomes@.len() >= self.episodes@.len()),
    {
        self.outcomes.len() >= self.episodes.len()
    }

    /// The base names of the episodes that succeeded, in order.
    pub fn succeeded_names(&self) -> (r: Vec<String>)
        ensures
            r@.map_values(|s: String| s@) == succeeded(self.outcomes@),
    {
        let mut r: Vec<String> = Vec::new();
        let mut i: usize = 0;
        while i < self.outcomes.len()
            invariant
                i <= self.outcomes.len(),
                r@.map_values(|s: String| s@) == succeeded(self.outcomes@.take(i as int)),
            decreases self.outcomes.len() - i,
        {
            assert(self.outcomes@.take(i + 1).drop_last() == self.outcomes@.take(i as int));
            match &self.outcomes[i].result {
                Ok(n) => {
                    let ghost before = r@;
                    r.push(n.clone());
                    assert(r@.map_values(|s: String| s@) =~= before.map_values(|s: String| s@).push(n@));
                },
                Err(_) => {},
            }
            i = i + 1;
        }
        assert(self.outcomes@.take(self.outcomes.len() as int) == self.outcomes@);
        r
    }

    /// The episodes that failed, with their errors, in order.
    pub fn failures(&self) -> (r: Vec<(Option<i64>, ItemError)>)
        ensures
            r@ == failed(self.outcomes@),
    {
        let mut r: Vec<(Option<i64>, ItemError)> = Vec::new();
        let mut i: usize = 0;
        while i < self.outcomes.len()
            invariant
                i <= self.outcomes.len(),
                r@ == failed(self.outcomes@.take(i as int)),
            decreases self.outcomes.len() - i,
        {
            assert(self.outcomes@.take(i + 1).drop_last() == self.outcomes@.take(i as int));
            match &self.outcomes[i].result {
                Ok(_) => {},
                Err(e) => {
                    r.push((self.outcomes[i].ep_id, *e));
                },
            }
            i = i + 1;
        }
        assert(self.outcomes@.take(self.outcomes.len() as int) == self.outcomes@);
        r
    }
}

/// The outcomes of a batch once `results` have been recorded in order.
pub open spec fn recorded(episodes: Seq<Option<i64>>, results: Seq<Result<String, ItemError>>) -> Seq<
    EpisodeOutcome,
>
    decreases results.len(),
{
    if results.len() == 0 {
        Seq::empty()
    } else {
        recorded(episodes, results.drop_last()).push(
            EpisodeOutcome { ep_id: episodes[results.len() - 1], result: results.last() },
        )
    }
}

/// Recording results one after another, failures among them, gives every
/// episode its own outcome in order; and unless one of them is a muxer that
/// could not be started, the next episode handed out is the following one,
/// so no other failure stops the batch.
pub proof fn lemma_failure_does_not_stop_batch(b: Batch, results: Seq<Result<String, ItemError>>)
    requires
        results.len() < b.episodes@.len(),
        b.outcomes@ == recorded(b.episodes@, results),
        forall|i: int| 0 <= i < results.len() ==> !is_fatal(#[trigger] results[i]),
    ensures
        b.outcomes@.len() == results.len(),
        forall|i: int|
            0 <= i < results.len() ==> #[trigger] b.outcomes@[i] == (EpisodeOutcome {
                ep_id: b.episodes@[i],
                result: results[i],
            }),
        b.wf(),
        b.next_spec() == Some(b.episodes@[results.len() as int]),
{
    lemma_recorded(b.episodes@, results);
}

proof fn lemma_recorded(episodes: Seq<Option<i64>>, results: Seq<Result<String, ItemError>>)
    requires
        results.len() <= episodes.len(),
    ensures
        recorded(episodes, results).len() == results.len(),
        forall|i: int|
            0 <= i < results.len() ==> #[trigger] recorded(episodes, results)[i] == (EpisodeOutcome {
                ep_id: episodes[i],
                result: results[i],
            }),
    decreases results.len(),
{
    if results.len() > 0 {
        lemma_recorded(episodes, results.drop_last());
        let prev = recorded(episodes, results.drop_last());
        assert forall|i: int| 0 <= i < results.len() implies #[trigger] recorded(episodes, results)[i]
            == (EpisodeOutcome { ep_id: episodes[i], result: results[i] }) by {
            if i < results.len() - 1 {
                assert(recorded(episodes, results)[i] == prev[i]);
                assert(results.drop_last()[i] == results[i]);
            }
        }
    }
}

/// Once a muxer that could not be started is recorded, no further episode
/// is handed out.
pub proof fn lemma_missing_muxer_stops_batch(b: Batch, i: int)
    requires
        0 <= i < b.outcomes@.len(),
        is_fatal(b.outcomes@[i].result),
    ensures
        b.next_spec() is None,
{
    assert(stopped(b.outcomes@));
}

} // verus!
