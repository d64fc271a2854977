//! What tracking does and does not do: to the entries of a configuration,
//! whatever the filesystem answers, and to the data of an entry, on a model
//! of the two paths it touches.
//!
//! The model states what is assumed of the filesystem. A probe changes
//! nothing and tells the truth. A move that succeeds puts at the source what
//! the destination held and leaves nothing at the destination. A link that
//! succeeds puts a link to the source at the destination. An operation that
//! fails changes nothing. Nothing else touches the two paths meanwhile. The
//! theorems on `Paths` hold of every run of answers that such a filesystem
//! can give.
use crate::config::GameEntryView;
use crate::track::{
    FileKind, Phase, ProgressView, SkipReasonView, TrackEventView, TrackFailureView,
    TrackResultView, TrackerView, lemma_start_wf, lemma_step_wf, lemma_unsupported, reported,
};
use vstd::prelude::*;

verus! {

/// Where the work on an entry stands after the first `n` of `events`.
pub open spec fn progress(events: Seq<TrackEventView>, n: nat) -> ProgressView
    decreases n,
{
    if n == 0 {
        ProgressView::Awaiting(Phase::CheckSource)
    } else {
        match progress(events, (n - 1) as nat) {
            ProgressView::Awaiting(phase) => phase.after(events[n - 1]),
            concluded => concluded,
        }
    }
}

/// Each of `events` answers the operation that is due, and none comes after
/// the work on the entry has ended.
pub open spec fn proper(events: Seq<TrackEventView>) -> bool {
    forall|n: nat|
        n < events.len() ==> match #[trigger] progress(events, n) {
            ProgressView::Awaiting(phase) => phase.answered_by(events[n as int]),
            ProgressView::Concluded(_) => false,
        }
}

/// The place of a phase in the order of the work.
pub open spec fn rank(phase: Phase) -> nat {
    match phase {
        Phase::CheckSource => 0,
        Phase::InspectDestination => 1,
        Phase::Move => 2,
        Phase::Link => 3,
    }
}

/// After `n` answers the phase of rank `n` is due, unless the work has
/// ended.
pub proof fn lemma_rank(events: Seq<TrackEventView>, n: nat)
    requires
        proper(events),
        n <= events.len(),
    ensures
        progress(events, n) matches ProgressView::Awaiting(phase) ==> rank(phase) == n,
    decreases n,
{
    if n > 0 {
        lemma_rank(events, (n - 1) as nat);
        assert(progress(events, (n - 1) as nat) is Awaiting);
    }
}

/// The work on an entry goes through the phases in their order, one answer
/// each: the source is looked for, the destination inspected, the destination
/// moved, the link made. It ends after four answers at the latest.
pub proof fn work_goes_in_order(events: Seq<TrackEventView>, n: nat)
    requires
        proper(events),
        n <= events.len(),
    ensures
        progress(events, n) matches ProgressView::Awaiting(phase) ==> rank(phase) == n,
        events.len() <= 4,
{
    lemma_rank(events, n);
    if events.len() > 4 {
        lemma_rank(events, 4);
        assert(progress(events, 4) is Awaiting);
    }
}

/// The tracker after the first `n` of `events`.
pub open spec fn tracker_after(start: TrackerView, events: Seq<TrackEventView>, n: nat) -> TrackerView
    decreases n,
{
    if n == 0 {
        start
    } else {
        tracker_after(start, events, (n - 1) as nat).step(events[n - 1])
    }
}

/// Whatever comes in, a tracker stays well-formed.
pub proof fn lemma_tracker_after_wf(
    games: Seq<GameEntryView>,
    symlinks: bool,
    events: Seq<TrackEventView>,
    n: nat,
)
    ensures
        tracker_after(TrackerView::start(games, symlinks), events, n).wf(),
        tracker_after(TrackerView::start(games, symlinks), events, n).games == games,
    decreases n,
{
    if n == 0 {
        lemma_start_wf(games, symlinks);
    } else {
        lemma_tracker_after_wf(games, symlinks, events, (n - 1) as nat);
        lemma_step_wf(
            tracker_after(TrackerView::start(games, symlinks), events, (n - 1) as nat),
            events[n - 1],
        );
    }
}

/// What a tracker does with the entry under its cursor is the work on that
/// entry. While the work goes on only the phase moves; when it ends the
/// result is reported and the tracker turns to the next enabled entry,
/// whatever the result was.
pub proof fn tracker_does_the_work_on_an_entry(
    tracker: TrackerView,
    events: Seq<TrackEventView>,
    n: nat,
)
    requires
        !tracker.finished(),
        tracker.phase == Phase::CheckSource,
        n <= events.len(),
        forall|k: nat| k < n ==> #[trigger] progress(events, k) is Awaiting,
    ensures
        tracker_after(tracker, events, n) == match progress(events, n) {
            ProgressView::Awaiting(phase) => TrackerView { phase, ..tracker },
            ProgressView::Concluded(result) => tracker.conclude(result),
        },
    decreases n,
{
    if n > 0 {
        let m = (n - 1) as nat;
        tracker_does_the_work_on_an_entry(tracker, events, m);
        assert(progress(events, m) is Awaiting);
    }
}

/// An entry that is disabled is never touched. Whatever comes in, no
/// operation is ever due on it and no report speaks of it.
pub proof fn disabled_entries_are_untouched(
    games: Seq<GameEntryView>,
    symlinks: bool,
    events: Seq<TrackEventView>,
    n: nat,
    entry: int,
)
    requires
        0 <= entry < games.len(),
        !games[entry].enabled,
    ensures
        tracker_after(TrackerView::start(games, symlinks), events, n).cursor != entry,
        !reported(tracker_after(TrackerView::start(games, symlinks), events, n).reports, entry),
{
    lemma_tracker_after_wf(games, symlinks, events, n);
}

/// A tracker that has finished holds one report for each enabled entry and
/// none for any other entry, in the order of the entries.
pub proof fn every_enabled_entry_is_reported_once(tracker: TrackerView)
    requires
        tracker.wf(),
        tracker.finished(),
    ensures
        forall|i: int|
            0 <= i < tracker.games.len() ==> ((#[trigger] tracker.games[i]).enabled <==> reported(
                tracker.reports,
                i,
            )),
        forall|j: int, k: int|
            0 <= j < k < tracker.reports.len() ==> (#[trigger] tracker.reports[j]).entry < (
            #[trigger] tracker.reports[k]).entry,
        forall|k: int|
            0 <= k < tracker.reports.len() ==> (#[trigger] tracker.reports[k]).entry
                < tracker.games.len(),
{
    assert forall|i: int|
        0 <= i < tracker.games.len() && reported(tracker.reports, i) implies (
    #[trigger] tracker.games[i]).enabled by {
        let k = choose|k: int| 0 <= k < tracker.reports.len() && #[trigger] tracker.reports[k].entry == i;
        assert(tracker.games[tracker.reports[k].entry as int].enabled);
    }
}

/// On a platform without symbolic links no operation is ever due, and each
/// enabled entry is reported as skipped for that reason.
pub proof fn unsupported_platform_does_nothing(
    games: Seq<GameEntryView>,
    events: Seq<TrackEventView>,
    n: nat,
)
    ensures
        tracker_after(TrackerView::start(games, false), events, n) == TrackerView::start(
            games,
            false,
        ),
        TrackerView::start(games, false).finished(),
        forall|k: int|
            0 <= k < TrackerView::start(games, false).reports.len() ==> (
            #[trigger] TrackerView::start(games, false).reports[k]).result
                == TrackResultView::Skipped(SkipReasonView::UnsupportedPlatform),
    decreases n,
{
    if n > 0 {
        unsupported_platform_does_nothing(games, events, (n - 1) as nat);
    } else {
        lemma_unsupported(games, games.len());
    }
}

/// What a path holds, read without following a link.
pub enum Node {
    /// Nothing is there.
    Absent,
    /// A regular file and its bytes.
    File { bytes: Seq<u8> },
    /// A directory and all that lies below it.
    Directory { bytes: Seq<u8> },
    /// Something else that is no link.
    Other { bytes: Seq<u8> },
    /// A symbolic link.
    Link { target: Seq<char> },
}

impl Node {
    /// What an inspection of the path reports, where something is there.
    pub open spec fn kind(self) -> Option<FileKind> {
        match self {
            Node::Absent => None,
            Node::File { .. } => Some(FileKind::Regular),
            Node::Directory { .. } => Some(FileKind::Directory),
            Node::Other { .. } => Some(FileKind::Other),
            Node::Link { .. } => Some(FileKind::Symlink),
        }
    }

    /// Something is there and it is no link.
    pub open spec fn is_data(self) -> bool {
        self is File || self is Directory || self is Other
    }
}

/// What the two paths of an entry hold.
pub struct Paths {
    pub source: Node,
    pub destination: Node,
}

impl Paths {
    /// A filesystem that holds this can give `event` as its answer to the
    /// operation of `phase`. Whether a link at the source leads anywhere is
    /// not modelled: the probe may say either. Any operation may fail.
    pub open spec fn allows(self, phase: Phase, event: TrackEventView) -> bool {
        match (phase, event) {
            (Phase::CheckSource, TrackEventView::SourceChecked { exists }) => {
                &&& self.source.is_data() ==> exists
                &&& self.source is Absent ==> !exists
            },
            (
                Phase::InspectDestination,
                TrackEventView::DestinationInspected { kind },
            ) => self.destination.kind() == Some(kind),
            (Phase::InspectDestination, TrackEventView::DestinationUnreadable { .. }) => true,
            (Phase::Move, TrackEventView::Moved) => !(self.destination is Absent),
            (Phase::Move, TrackEventView::MoveFailed { .. }) => true,
            (Phase::Link, TrackEventView::Linked) => self.destination is Absent,
            (Phase::Link, TrackEventView::LinkFailed { .. }) => true,
            _ => false,
        }
    }

    /// What the two paths hold once the operation of `phase` has been
    /// answered by `event`.
    pub open spec fn after(self, entry: GameEntryView, phase: Phase, event: TrackEventView) -> Paths {
        match (phase, event) {
            (Phase::Move, TrackEventView::Moved) => Paths {
                source: self.destination,
                destination: Node::Absent,
            },
            (Phase::Link, TrackEventView::Linked) => Paths {
                source: self.source,
                destination: Node::Link { target: entry.source },
            },
            _ => self,
        }
    }
}

/// What the two paths hold after the first `n` of `events`, where they held
/// `start` before.
pub open spec fn paths(entry: GameEntryView, start: Paths, events: Seq<TrackEventView>, n: nat) -> Paths
    decreases n,
{
    if n == 0 {
        start
    } else {
        let before = paths(entry, start, events, (n - 1) as nat);
        match progress(events, (n - 1) as nat) {
            ProgressView::Awaiting(phase) => before.after(entry, phase, events[n - 1]),
            _ => before,
        }
    }
}

/// `events` is a run on one entry that the filesystem can give from `start`:
/// each event answers the operation that is due, as the model allows, and
/// none comes after the work has ended.
pub open spec fn possible(entry: GameEntryView, start: Paths, events: Seq<TrackEventView>) -> bool {
    forall|n: nat|
        n < events.len() ==> match #[trigger] progress(events, n) {
            ProgressView::Awaiting(phase) => paths(entry, start, events, n).allows(
                phase,
                events[n as int],
            ),
            ProgressView::Concluded(_) => false,
        }
}

/// A run that the filesystem can give is a proper one.
pub proof fn lemma_possible_is_proper(entry: GameEntryView, start: Paths, events: Seq<TrackEventView>)
    requires
        possible(entry, start, events),
    ensures
        proper(events),
{
    assert forall|n: nat| n < events.len() implies match #[trigger] progress(events, n) {
        ProgressView::Awaiting(phase) => phase.answered_by(events[n as int]),
        ProgressView::Concluded(_) => false,
    } by {
        if let ProgressView::Awaiting(phase) = progress(events, n) {
            assert(paths(entry, start, events, n).allows(phase, events[n as int]));
        }
    }
}

/// How far the work has come says what the two paths hold.
pub open spec fn matches_progress(
    entry: GameEntryView,
    start: Paths,
    progress: ProgressView,
    now: Paths,
) -> bool {
    let moved = Paths { source: start.destination, destination: Node::Absent };
    let linked = Paths {
        source: start.destination,
        destination: Node::Link { target: entry.source },
    };
    match progress {
        ProgressView::Awaiting(Phase::CheckSource) => now == start,
        ProgressView::Awaiting(Phase::InspectDestination) => now == start
            && !start.source.is_data(),
        ProgressView::Awaiting(Phase::Move) => now == start && start.destination.is_data()
            && !start.source.is_data(),
        ProgressView::Awaiting(Phase::Link) => now == moved && start.destination.is_data(),
        ProgressView::Concluded(TrackResultView::Success) => now == linked
            && start.destination.is_data(),
        ProgressView::Concluded(TrackResultView::Failed(TrackFailureView::Link(_))) => now == moved
            && start.destination.is_data(),
        ProgressView::Concluded(TrackResultView::Failed(TrackFailureView::Move(_))) => now == start
            && start.destination.is_data(),
        ProgressView::Concluded(TrackResultView::AlreadyTracked) => now == start && !(
        start.source is Absent),
        ProgressView::Concluded(TrackResultView::Skipped(SkipReasonView::AlreadySymlink)) => now
            == start && start.destination is Link,
        ProgressView::Concluded(TrackResultView::Skipped(_)) => now == start,
    }
}

/// At every point of a possible run, how far the work has come says what the
/// two paths hold.
pub proof fn lemma_run(entry: GameEntryView, start: Paths, events: Seq<TrackEventView>, n: nat)
    requires
        possible(entry, start, events),
        n <= events.len(),
    ensures
        matches_progress(entry, start, progress(events, n), paths(entry, start, events, n)),
    decreases n,
{
    if n > 0 {
        let m = (n - 1) as nat;
        lemma_run(entry, start, events, m);
        assert(progress(events, m) is Awaiting);
    }
}

/// The data of an entry is never lost. Where the destination holds data and
/// the source nothing, then at every point of a run the two paths are as they
/// were, or the data lies at the source: with nothing at the destination
/// between the move and the link and after a link that failed, and with a
/// link to the source there after a success.
pub proof fn data_is_never_lost(
    entry: GameEntryView,
    start: Paths,
    events: Seq<TrackEventView>,
    n: nat,
)
    requires
        entry.wf(),
        start.destination.is_data(),
        start.source is Absent,
        possible(entry, start, events),
        n <= events.len(),
    ensures
        ({
            let now = paths(entry, start, events, n);
            ||| now == start
            ||| now.source == start.destination && now.destination is Absent
            ||| now.source == start.destination && now.destination == (Node::Link {
                target: entry.source,
            })
        }),
{
    lemma_run(entry, start, events, n);
}

/// Linked or left alone. Where the destination holds data and the source
/// nothing, and the work on the entry has ended in anything but a failed
/// link, then either the data lies at the source and the destination is a
/// link to the source, which is so exactly when the result is a success, or
/// the two paths are as they were.
pub proof fn tracked_or_untouched(
    entry: GameEntryView,
    start: Paths,
    events: Seq<TrackEventView>,
    result: TrackResultView,
)
    requires
        entry.wf(),
        start.destination.is_data(),
        start.source is Absent,
        possible(entry, start, events),
        progress(events, events.len()) == ProgressView::Concluded(result),
        !(result matches TrackResultView::Failed(TrackFailureView::Link(_))),
    ensures
        ({
            let end = paths(entry, start, events, events.len());
            if result is Success {
                &&& end.source == start.destination
                &&& end.destination == (Node::Link { target: entry.source })
            } else {
                end == start
            }
        }),
        !(result is AlreadyTracked),
{
    lemma_run(entry, start, events, events.len());
}

/// After a link that failed the data lies at the source and nothing at the
/// destination: the link is missing and nothing else.
pub proof fn failed_link_keeps_data(
    entry: GameEntryView,
    start: Paths,
    events: Seq<TrackEventView>,
    error: Seq<char>,
)
    requires
        entry.wf(),
        possible(entry, start, events),
        progress(events, events.len()) == ProgressView::Concluded(
            TrackResultView::Failed(TrackFailureView::Link(error)),
        ),
    ensures
        start.destination.is_data(),
        paths(entry, start, events, events.len()) == (Paths {
            source: start.destination,
            destination: Node::Absent,
        }),
{
    lemma_run(entry, start, events, events.len());
}

/// Tracking twice is tracking once. After a run that ended in success, any
/// second run on the same entry consists of the one probe of the source,
/// ends in `AlreadyTracked` and leaves the two paths as the first run left
/// them.
pub proof fn second_run_changes_nothing(
    entry: GameEntryView,
    start: Paths,
    first: Seq<TrackEventView>,
    second: Seq<TrackEventView>,
)
    requires
        entry.wf(),
        possible(entry, start, first),
        progress(first, first.len()) == ProgressView::Concluded(TrackResultView::Success),
        possible(entry, paths(entry, start, first, first.len()), second),
        second.len() > 0,
    ensures
        second.len() == 1,
        progress(second, 1) == ProgressView::Concluded(TrackResultView::AlreadyTracked),
        paths(entry, paths(entry, start, first, first.len()), second, 1) == paths(
            entry,
            start,
            first,
            first.len(),
        ),
{
    let settled = paths(entry, start, first, first.len());
    lemma_run(entry, start, first, first.len());
    assert(settled.source.is_data());
    assert(progress(second, 0) == ProgressView::Awaiting(Phase::CheckSource));
    assert(settled.allows(Phase::CheckSource, second[0]));
    assert(progress(second, 1) == ProgressView::Concluded(TrackResultView::AlreadyTracked));
    assert(paths(entry, settled, second, 0) == settled);
    if second.len() > 1 {
        assert(progress(second, 1) is Awaiting);
    }
}

/// A destination that is a link already is left alone. At no point of a run
/// is an operation due that changes the filesystem, the two paths stay as
/// they were, and the work ends after the two probes at the latest, in
/// `AlreadyTracked` or in `Skipped`.
pub proof fn symlink_is_left_alone(
    entry: GameEntryView,
    start: Paths,
    events: Seq<TrackEventView>,
    n: nat,
)
    requires
        entry.wf(),
        start.destination is Link,
        possible(entry, start, events),
        n <= events.len(),
    ensures
        paths(entry, start, events, n) == start,
        progress(events, n) matches ProgressView::Awaiting(phase) ==> !phase.action(
            entry,
        ).mutates(),
        progress(events, n) matches ProgressView::Concluded(result) ==> result
            == TrackResultView::AlreadyTracked || result is Skipped,
        events.len() <= 2,
{
    lemma_run(entry, start, events, n);
    lemma_possible_is_proper(entry, start, events);
    work_goes_in_order(events, n);
    if events.len() > 2 {
        lemma_run(entry, start, events, 2);
        work_goes_in_order(events, 2);
        assert(progress(events, 2) is Awaiting);
    }
}

} // verus!
