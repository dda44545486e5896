//! The download of one content item as a state machine: the caller performs
//! each action and reports back what came of it as an event.
use vstd::prelude::*;
use crate::layout::{distinct_paths, DownloadTarget};
use crate::manifest::{NoStreamFound, StreamPair, Track};

verus! {

/// Why one stream could not be fetched.
#[derive(Clone, Copy, Debug, PartialEq, Eq, Structural)]
pub enum FetchError {
    /// The transfer failed or timed out.
    Network,
    /// The server answered with a status that is not a success.
    Status(u16),
    /// The local file could not be written.
    Io,
}

/// Why the muxer did not produce the output.
#[derive(Clone, Copy, Debug, PartialEq, Eq, Structural)]
pub enum MuxError {
    /// The muxer could not be started at all.
    ProcessSpawn,
    /// The muxer ended with a failure status (its exit code, if it had one).
    ProcessFailed(Option<i32>),
    /// A local file operation around the muxer failed.
    Io,
}

/// Why an item failed.
#[derive(Clone, Copy, Debug, PartialEq, Eq, Structural)]
pub enum ItemError {
    /// The episode has no id, so nothing can be asked for it.
    NoEpisodeId,
    /// The playback manifest could not be fetched or read.
    Manifest,
    /// The manifest offers no usable stream.
    NoStream(NoStreamFound),
    /// Fetching one of the streams failed.
    Fetch(Track, FetchError),
    /// Muxing failed; the intermediates are kept.
    Mux(MuxError),
}

/// What a successful muxer run did.
#[derive(Clone, Copy, Debug, PartialEq, Eq, Structural)]
pub enum MuxOutcome {
    /// The muxer ran and wrote the output.
    Muxed,
    /// The output was already there, so the muxer was not run.
    OutputPresent,
}

/// How an item came to be done.
#[derive(Clone, Copy, Debug, PartialEq, Eq, Structural)]
pub enum Completion {
    /// The output existed before anything was fetched.
    FoundExisting,
    /// Both streams were fetched and muxed into the output.
    Muxed,
    /// Both streams were fetched, but the output had appeared meanwhile.
    MuxSkipped,
}

/// The state of one stream fetch.
#[derive(Clone, Copy, Debug, PartialEq, Eq, Structural)]
pub enum FetchState {
    Running,
    Succeeded,
    Failed(FetchError),
}

/// Where the download of an item stands.
#[derive(Clone, Copy, Debug, PartialEq, Eq, Structural)]
pub enum Phase {
    /// The name is known; whether the output exists is not yet.
    NameResolved,
    /// The output is missing; the streams are being chosen.
    SelectingStreams,
    /// Both streams are being fetched.
    Fetching { video: FetchState, audio: FetchState },
    /// Both streams are on disk; the muxer runs.
    Muxing,
    Done(Completion),
    Failed(ItemError),
}

/// What the caller reports back.
#[derive(Debug)]
pub enum Event {
    /// Whether the output file exists.
    OutputChecked(bool),
    /// The playback manifest could not be fetched or read.
    ManifestFailed,
    /// The result of stream selection on the manifest.
    Selected(Result<StreamPair, NoStreamFound>),
    VideoFetched(Result<(), FetchError>),
    AudioFetched(Result<(), FetchError>),
    MuxFinished(Result<MuxOutcome, MuxError>),
}

/// What the caller is to do next.
#[derive(Debug)]
pub enum Action {
    /// Nothing: wait for the next event.
    Wait,
    /// Fetch the playback manifest and select its streams.
    LoadManifest,
    /// Fetch both streams, concurrently, into the intermediate files.
    Fetch(StreamPair),
    /// Run the muxer on the intermediates.
    Mux,
    /// Delete both intermediates; a failure to do so is only reported.
    RemoveIntermediates,
    /// The item is finished.
    Finish,
}

/// One item's download in progress.
#[derive(Debug)]
pub struct ItemRun {
    pub target: DownloadTarget,
    pub phase: Phase,
}

pub open spec fn fetch_state(r: Result<(), FetchError>) -> FetchState {
    match r {
        Ok(_) => FetchState::Succeeded,
        Err(e) => FetchState::Failed(e),
    }
}

/// Both fetches reported or not: wait, fail on the first failure, or mux.
pub open spec fn settle(video: FetchState, audio: FetchState) -> (Phase, Action) {
    match (video, audio) {
        (FetchState::Failed(e), FetchState::Succeeded) => (
            Phase::Failed(ItemError::Fetch(Track::Video, e)),
            Action::Finish,
        ),
        (FetchState::Failed(e), FetchState::Failed(_)) => (
            Phase::Failed(ItemError::Fetch(Track::Video, e)),
            Action::Finish,
        ),
        (FetchState::Succeeded, FetchState::Failed(e)) => (
            Phase::Failed(ItemError::Fetch(Track::Audio, e)),
            Action::Finish,
        ),
        (FetchState::Succeeded, FetchState::Succeeded) => (Phase::Muxing, Action::Mux),
        _ => (Phase::Fetching { video, audio }, Action::Wait),
    }
}

/// The next phase and action after `ev`; an event that does not fit the
/// phase changes nothing.
pub open spec fn phase_step(phase: Phase, ev: Event) -> (Phase, Action) {
    match (phase, ev) {
        (Phase::NameResolved, Event::OutputChecked(exists)) => if exists {
            (Phase::Done(Completion::FoundExisting), Action::Finish)
        } else {
            (Phase::SelectingStreams, Action::LoadManifest)
        },
        (Phase::SelectingStreams, Event::ManifestFailed) => (
            Phase::Failed(ItemError::Manifest),
            Action::Finish,
        ),
        (Phase::SelectingStreams, Event::Selected(Err(e))) => (
            Phase::Failed(ItemError::NoStream(e)),
            Action::Finish,
        ),
        (Phase::SelectingStreams, Event::Selected(Ok(p))) => (
            Phase::Fetching { video: FetchState::Running, audio: FetchState::Running },
            Action::Fetch(p),
        ),
        (Phase::Fetching { video: FetchState::Running, audio }, Event::VideoFetched(r)) => settle(
            fetch_state(r),
            audio,
        ),
        (Phase::Fetching { video, audio: FetchState::Running }, Event::AudioFetched(r)) => settle(
            video,
            fetch_state(r),
        ),
        (Phase::Muxing, Event::MuxFinished(Ok(MuxOutcome::Muxed))) => (
            Phase::Done(Completion::Muxed),
            Action::RemoveIntermediates,
        ),
        (Phase::Muxing, Event::MuxFinished(Ok(MuxOutcome::OutputPresent))) => (
            Phase::Done(Completion::MuxSkipped),
            Action::Finish,
        ),
        (Phase::Muxing, Event::MuxFinished(Err(e))) => (
            Phase::Failed(ItemError::Mux(e)),
            Action::Finish,
        ),
        _ => (phase, Action::Wait),
    }
}

/// The run after `ev`, and the action it asks for.
pub open spec fn transition(run: ItemRun, ev: Event) -> (ItemRun, Action) {
    let (phase, action) = phase_step(run.phase, ev);
    (ItemRun { target: run.target, phase }, action)
}

fn settle_fetches(video: FetchState, audio: FetchState) -> (r: (Phase, Action))
    ensures
        r == settle(video, audio),
{
    match (video, audio) {
        (FetchState::Failed(e), FetchState::Succeeded) => (
            Phase::Failed(ItemError::Fetch(Track::Video, e)),
            Action::Finish,
        ),
        (FetchState::Failed(e), FetchState::Failed(_)) => (
            Phase::Failed(ItemError::Fetch(Track::Video, e)),
            Action::Finish,
        ),
        (FetchState::Succeeded, FetchState::Failed(e)) => (
            Phase::Failed(ItemError::Fetch(Track::Audio, e)),
            Action::Finish,
        ),
        (FetchState::Succeeded, FetchState::Succeeded) => (Phase::Muxing, Action::Mux),
        _ => (Phase::Fetching { video, audio }, Action::Wait),
    }
}

fn fetch_state_of(r: Result<(), FetchError>) -> (s: FetchState)
    ensures
        s == fetch_state(r),
{
    match r {
        Ok(_) => FetchState::Succeeded,
        Err(e) => FetchState::Failed(e),
    }
}

/// The next phase and action after `ev` in `phase`.
pub fn next_phase(phase: Phase, ev: Event) -> (r: (Phase, Action))
    ensures
        r == phase_step(phase, ev),
{
    match ev {
        Event::OutputChecked(exists) => match phase {
            Phase::NameResolved => if exists {
                (Phase::Done(Completion::FoundExisting), Action::Finish)
            } else {
                (Phase::SelectingStreams, Action::LoadManifest)
            },
            _ => (phase, Action::Wait),
        },
        Event::ManifestFailed => match phase {
            Phase::SelectingStreams => (Phase::Failed(ItemError::Manifest), Action::Finish),
            _ => (phase, Action::Wait),
        },
        Event::Selected(sel) => match phase {
            Phase::SelectingStreams => match sel {
                Ok(p) => (
                    Phase::Fetching { video: FetchState::Running, audio: FetchState::Running },
                    Action::Fetch(p),
                ),
                Err(e) => (Phase::Failed(ItemError::NoStream(e)), Action::Finish),
            },
            _ => (phase, Action::Wait),
        },
        Event::VideoFetched(r) => match phase {
            Phase::Fetching { video: FetchState::Running, audio } => settle_fetches(
                fetch_state_of(r),
                audio,
            ),
            _ => (phase, Action::Wait),
        },
        Event::AudioFetched(r) => match phase {
            Phase::Fetching { video, audio: FetchState::Running } => settle_fetches(
                video,
                fetch_state_of(r),
            ),
            _ => (phase, Action::Wait),
        },
        Event::MuxFinished(r) => match phase {
            Phase::Muxing => match r {
                Ok(MuxOutcome::Muxed) => (Phase::Done(Completion::Muxed), Action::RemoveIntermediates),
                Ok(MuxOutcome::OutputPresent) => (Phase::Done(Completion::MuxSkipped), Action::Finish),
                Err(e) => (Phase::Failed(ItemError::Mux(e)), Action::Finish),
            },
            _ => (phase, Action::Wait),
        },
    }
}

impl ItemRun {
    /// A run for an item whose name, and so whose files, are known.
    pub fn new(target: DownloadTarget) -> (r: ItemRun)
        ensures
            r.target == target,
            r.phase == Phase::NameResolved,
    {
        ItemRun { target, phase: Phase::NameResolved }
    }

    /// Takes in what became of the last action and returns the next one.
    pub fn handle(&mut self, ev: Event) -> (a: Action)
        ensures
            (*final(self), a) == transition(*old(self), ev),
    {
        let (phase, a) = next_phase(self.phase, ev);
        self.phase = phase;
        a
    }

    /// The outcome of a finished run: the item's base name when it is done,
    /// the error when it failed; `None` while it runs.
    pub fn result(&self) -> (r: Option<Result<String, ItemError>>)
        ensures
            match self.phase {
                Phase::Done(_) => r matches Some(Ok(n)) && n@ == self.target.base_name@,
                Phase::Failed(e) => r == Some(Err::<String, ItemError>(e)),
                _ => r is None,
            },
    {
        match self.phase {
            Phase::Done(_) => Some(Ok(self.target.base_name.clone())),
            Phase::Failed(e) => Some(Err(e)),
            _ => None,
        }
    }

    /// Whether the run has ended, done or failed.
    pub fn is_finished(&self) -> (r: bool)
        ensures
            r == (self.phase is Done || self.phase is Failed),
    {
        match self.phase {
            Phase::Done(_) | Phase::Failed(_) => true,
            _ => false,
        }
    }
}

/// What the work reported by `ev` did to the download directory, modelled as
/// the set of paths present in it: a fetch leaves its file behind, complete
/// or not, and a muxer run that succeeded leaves the output.
pub open spec fn event_effect(t: DownloadTarget, phase: Phase, ev: Event, disk: Set<Seq<char>>) -> Set<
    Seq<char>,
> {
    match (phase, ev) {
        (Phase::Fetching { video: FetchState::Running, audio: _ }, Event::VideoFetched(_)) => disk.insert(
            t.video_path@,
        ),
        (Phase::Fetching { video: _, audio: FetchState::Running }, Event::AudioFetched(_)) => disk.insert(
            t.audio_path@,
        ),
        (Phase::Muxing, Event::MuxFinished(Ok(MuxOutcome::Muxed))) => disk.insert(t.output_path@),
        _ => disk,
    }
}

/// What performing `a` does to the download directory.
pub open spec fn action_effect(t: DownloadTarget, a: Action, disk: Set<Seq<char>>) -> Set<Seq<char>> {
    match a {
        Action::RemoveIntermediates => disk.remove(t.video_path@).remove(t.audio_path@),
        _ => disk,
    }
}

/// The run, the download directory and the actions asked for, after the
/// events in order.
pub open spec fn replay(run: ItemRun, disk: Set<Seq<char>>, events: Seq<Event>) -> (
    ItemRun,
    Set<Seq<char>>,
    Seq<Action>,
)
    decreases events.len(),
{
    if events.len() == 0 {
        (run, disk, Seq::empty())
    } else {
        let (r, d, acts) = replay(run, disk, events.drop_last());
        let (r2, a) = transition(r, events.last());
        (r2, action_effect(r.target, a, event_effect(r.target, r.phase, events.last(), d)), acts.push(a))
    }
}

/// An action that goes out to the network.
pub open spec fn is_network(a: Action) -> bool {
    a is LoadManifest || a is Fetch
}

/// The muxer has been asked to run in reaching this phase.
pub open spec fn mux_started(p: Phase) -> bool {
    match p {
        Phase::Muxing => true,
        Phase::Done(c) => c != Completion::FoundExisting,
        Phase::Failed(e) => e is Mux,
        _ => false,
    }
}

/// What holds after any events from a freshly named run.
pub open spec fn replay_inv(
    t: DownloadTarget,
    disk0: Set<Seq<char>>,
    run: ItemRun,
    disk: Set<Seq<char>>,
    acts: Seq<Action>,
) -> bool {
    &&& run.target == t
    &&& !disk0.contains(t.output_path@) ==> (disk.contains(t.output_path@) <==> run.phase
        == Phase::Done(Completion::Muxed))
    &&& run.phase == Phase::Done(Completion::Muxed) ==> disk.contains(t.output_path@) && !disk.contains(
        t.video_path@,
    ) && !disk.contains(t.audio_path@)
    &&& run.phase matches Phase::Fetching { video, audio } ==> (video != FetchState::Running
        ==> disk.contains(t.video_path@)) && (audio != FetchState::Running ==> disk.contains(
        t.audio_path@,
    ))
    &&& (run.phase is Muxing || run.phase matches Phase::Failed(ItemError::Mux(_))
        || run.phase matches Phase::Failed(ItemError::Fetch(_, _))) ==> disk.contains(t.video_path@)
        && disk.contains(t.audio_path@)
    &&& !mux_started(run.phase) ==> forall|i: int| 0 <= i < acts.len() ==> !(#[trigger] acts[i] is Mux)
}

proof fn lemma_replay_inv(run: ItemRun, disk: Set<Seq<char>>, events: Seq<Event>)
    requires
        run.phase == Phase::NameResolved,
        distinct_paths(run.target),
    ensures
        ({
            let (r, d, acts) = replay(run, disk, events);
            replay_inv(run.target, disk, r, d, acts)
        }),
    decreases events.len(),
{
    if events.len() > 0 {
        lemma_replay_inv(run, disk, events.drop_last());
        let (r, d, acts) = replay(run, disk, events.drop_last());
        let (r2, a) = transition(r, events.last());
        let acts2 = acts.push(a);
        if !mux_started(r2.phase) {
            assert(!mux_started(r.phase));
            assert forall|i: int| 0 <= i < acts2.len() implies !(#[trigger] acts2[i] is Mux) by {
                if i < acts.len() {
                    assert(acts2[i] == acts[i]);
                }
            }
        }
    }
}

/// Once the output is found to exist, the run is done at once, and no later
/// event brings about a network request or a change on disk.
pub proof fn lemma_existing_output_is_left_alone(
    run: ItemRun,
    disk: Set<Seq<char>>,
    events: Seq<Event>,
)
    requires
        run.phase == Phase::NameResolved,
        events.len() > 0,
        events[0] == Event::OutputChecked(true),
    ensures
        ({
            let (r, d, acts) = replay(run, disk, events);
            &&& r.phase == Phase::Done(Completion::FoundExisting)
            &&& d == disk
            &&& forall|i: int| 0 <= i < acts.len() ==> !is_network(#[trigger] acts[i])
        }),
    decreases events.len(),
{
    if events.len() > 1 {
        assert(events.drop_last()[0] == events[0]);
        lemma_existing_output_is_left_alone(run, disk, events.drop_last());
        let (r, d, acts) = replay(run, disk, events.drop_last());
        let (r2, a) = transition(r, events.last());
        let acts2 = acts.push(a);
        assert forall|i: int| 0 <= i < acts2.len() implies !is_network(#[trigger] acts2[i]) by {
            if i < acts.len() {
                assert(acts2[i] == acts[i]);
            }
        }
    } else {
        assert(events.drop_last().len() == 0);
        assert(events.last() == events[0]);
        assert(replay(run, disk, events.drop_last()) == (run, disk, Seq::<Action>::empty()));
    }
}

/// A run that muxed its output leaves the output on disk and neither
/// intermediate.
pub proof fn lemma_muxed_item_leaves_only_output(
    run: ItemRun,
    disk: Set<Seq<char>>,
    events: Seq<Event>,
)
    requires
        run.phase == Phase::NameResolved,
        distinct_paths(run.target),
    ensures
        ({
            let (r, d, acts) = replay(run, disk, events);
            r.phase == Phase::Done(Completion::Muxed) ==> d.contains(run.target.output_path@)
                && !d.contains(run.target.video_path@) && !d.contains(run.target.audio_path@)
        }),
{
    lemma_replay_inv(run, disk, events);
}

/// A run whose muxer failed keeps both intermediates and has made no output.
pub proof fn lemma_failed_mux_keeps_intermediates(
    run: ItemRun,
    disk: Set<Seq<char>>,
    events: Seq<Event>,
)
    requires
        run.phase == Phase::NameResolved,
        distinct_paths(run.target),
        !disk.contains(run.target.output_path@),
    ensures
        ({
            let (r, d, acts) = replay(run, disk, events);
            r.phase matches Phase::Failed(ItemError::Mux(_)) ==> d.contains(run.target.video_path@)
                && d.contains(run.target.audio_path@) && !d.contains(run.target.output_path@)
        }),
{
    lemma_replay_inv(run, disk, events);
}

/// A run that failed on a fetch never asked for the muxer, and both files
/// that the fetches wrote are still there.
pub proof fn lemma_failed_fetch_skips_mux(run: ItemRun, disk: Set<Seq<char>>, events: Seq<Event>)
    requires
        run.phase == Phase::NameResolved,
        distinct_paths(run.target),
    ensures
        ({
            let (r, d, acts) = replay(run, disk, events);
            r.phase matches Phase::Failed(ItemError::Fetch(_, _)) ==> (forall|i: int|
                0 <= i < acts.len() ==> !(#[trigger] acts[i] is Mux)) && d.contains(
                run.target.video_path@,
            ) && d.contains(run.target.audio_path@)
        }),
{
    lemma_replay_inv(run, disk, events);
}

/// The two fetches settle independently: a failed audio fetch beside a
/// successful video fetch fails the item on the audio track, in either order
/// of arrival, and does not ask for the muxer.
pub proof fn lemma_audio_failure_fails_item(t: DownloadTarget, e: FetchError)
    ensures
        ({
            let start = ItemRun {
                target: t,
                phase: Phase::Fetching { video: FetchState::Running, audio: FetchState::Running },
            };
            let (r1, a1) = transition(start, Event::VideoFetched(Ok(())));
            let (r2, a2) = transition(r1, Event::AudioFetched(Err(e)));
            let (s1, b1) = transition(start, Event::AudioFetched(Err(e)));
            let (s2, b2) = transition(s1, Event::VideoFetched(Ok(())));
            &&& r2.phase == Phase::Failed(ItemError::Fetch(Track::Audio, e))
            &&& s2.phase == Phase::Failed(ItemError::Fetch(Track::Audio, e))
            &&& !(a1 is Mux) && !(a2 is Mux) && !(b1 is Mux) && !(b2 is Mux)
        }),
{
}

} // verus!
