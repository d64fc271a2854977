//! What a synchronisation does and does not do: in which order its
//! operations are due, whatever the repository answers, and what becomes of
//! the local branch, on a model of the repository.
//!
//! The model states what is assumed of the repository. A fetch that succeeds
//! brings the history of the remote branch. A rebase that is started takes as
//! its steps the commits that the local branch has and the fetched history
//! lacks, oldest first. A replay that succeeds takes the first step that is
//! left and puts it on top of what was replayed before. The repository says
//! that nothing is left exactly when that is so. A rebase that is finished
//! makes the local branch the fetched history with the replayed steps on top.
//! An operation that fails leaves the local branch alone. Nothing else
//! touches the repository meanwhile. The theorems on `Repository` hold of
//! every run of answers that such a repository can give.
use crate::sync::{SyncErrorView, SyncEventView, SyncPhase, SyncProgressView, SyncSessionView};
use vstd::prelude::*;

verus! {

/// The session after the first `n` of `events`.
pub open spec fn session_after(start: SyncSessionView, events: Seq<SyncEventView>, n: nat) -> SyncSessionView
    decreases n,
{
    if n == 0 {
        start
    } else {
        session_after(start, events, (n - 1) as nat).step(events[n - 1])
    }
}

/// How far a synchronisation has come after the first `n` of `events`.
pub open spec fn progress(events: Seq<SyncEventView>, n: nat) -> SyncProgressView
    decreases n,
{
    if n == 0 {
        SyncProgressView::Awaiting(SyncPhase::Open)
    } else {
        match progress(events, (n - 1) as nat) {
            SyncProgressView::Awaiting(phase) => phase.after(events[n - 1]),
            concluded => concluded,
        }
    }
}

/// A session keeps what it was made with, and its progress is that of the
/// events alone.
pub proof fn lemma_session_after(
    repo: Seq<char>,
    remote: Seq<char>,
    branch: Seq<char>,
    events: Seq<SyncEventView>,
    n: nat,
)
    ensures
        session_after(SyncSessionView::start(repo, remote, branch), events, n) == (SyncSessionView {
            repo,
            remote,
            branch,
            progress: progress(events, n),
        }),
    decreases n,
{
    if n > 0 {
        lemma_session_after(repo, remote, branch, events, (n - 1) as nat);
    }
}

/// Each of `events` answers the operation that is due, and none comes after
/// the synchronisation has ended.
pub open spec fn proper(events: Seq<SyncEventView>) -> bool {
    forall|n: nat|
        n < events.len() ==> match #[trigger] progress(events, n) {
            SyncProgressView::Awaiting(phase) => phase.answered_by(events[n as int]),
            SyncProgressView::Concluded(_) => false,
        }
}

/// The phase that the operation at position `i` of a run without failure
/// belongs to, as long as steps are left to replay.
pub open spec fn phase_at(i: nat) -> SyncPhase {
    if i == 0 {
        SyncPhase::Open
    } else if i == 1 {
        SyncPhase::FindRemote
    } else if i == 2 {
        SyncPhase::Fetch
    } else if i == 3 {
        SyncPhase::ResolveHeads
    } else if i == 4 {
        SyncPhase::StartRebase
    } else {
        SyncPhase::Replay
    }
}

/// The first `k` operations were due in the order of `phase_at` and each
/// succeeded.
pub open spec fn regular(events: Seq<SyncEventView>, k: nat) -> bool {
    forall|i: nat|
        i < k ==> #[trigger] progress(events, i) == SyncProgressView::Awaiting(phase_at(i))
            && events[i as int] is Succeeded
}

/// The shape of a run so far, by how far it has come.
pub open spec fn shaped(events: Seq<SyncEventView>, n: nat) -> bool {
    match progress(events, n) {
        SyncProgressView::Awaiting(SyncPhase::FinishRebase) => {
            &&& n >= 6
            &&& regular(events, (n - 1) as nat)
            &&& progress(events, (n - 1) as nat) == SyncProgressView::Awaiting(SyncPhase::Replay)
            &&& events[n - 1] is Exhausted
        },
        SyncProgressView::Awaiting(phase) => regular(events, n) && phase == phase_at(n),
        SyncProgressView::Concluded(Ok(_)) => {
            &&& n >= 7
            &&& regular(events, (n - 2) as nat)
            &&& progress(events, (n - 2) as nat) == SyncProgressView::Awaiting(SyncPhase::Replay)
            &&& events[n - 2] is Exhausted
            &&& progress(events, (n - 1) as nat) == SyncProgressView::Awaiting(
                SyncPhase::FinishRebase,
            )
            &&& events[n - 1] is Succeeded
        },
        SyncProgressView::Concluded(Err(error)) => {
            &&& n >= 1
            &&& progress(events, (n - 1) as nat) matches SyncProgressView::Awaiting(phase)
            &&& events[n - 1] matches SyncEventView::Failed { cause }
            &&& error == phase.error(cause)
        },
    }
}

/// Every proper run has the shape of `shaped` at each of its points.
pub proof fn lemma_shaped(events: Seq<SyncEventView>, n: nat)
    requires
        proper(events),
        n <= events.len(),
    ensures
        shaped(events, n),
    decreases n,
{
    if n > 0 {
        let m = (n - 1) as nat;
        lemma_shaped(events, m);
        assert(progress(events, m) is Awaiting);
    }
}

/// A synchronisation succeeds in one way only. The repository was opened,
/// the remote found, the branch fetched, the heads resolved and the rebase
/// started, each once and in this order; then every step that the rebase
/// offered was replayed, one after the other, until the repository said that
/// none was left; then the rebase was finished. No operation failed.
pub proof fn success_replays_every_step(events: Seq<SyncEventView>)
    requires
        proper(events),
        progress(events, events.len()) == SyncProgressView::Concluded(Ok(())),
    ensures
        events.len() >= 7,
        forall|i: nat|
            i < events.len() - 2 ==> #[trigger] progress(events, i) == SyncProgressView::Awaiting(
                phase_at(i),
            ) && events[i as int] is Succeeded,
        progress(events, (events.len() - 2) as nat) == SyncProgressView::Awaiting(SyncPhase::Replay),
        events[events.len() - 2] is Exhausted,
        progress(events, (events.len() - 1) as nat) == SyncProgressView::Awaiting(
            SyncPhase::FinishRebase,
        ),
        events[events.len() - 1] is Succeeded,
{
    lemma_shaped(events, events.len());
}

/// The first failure ends a synchronisation, with the error of the phase it
/// happened in and the text that came with it.
pub proof fn failure_ends_the_run(events: Seq<SyncEventView>, n: nat, cause: Seq<char>)
    requires
        proper(events),
        n < events.len(),
        events[n as int] == (SyncEventView::Failed { cause }),
    ensures
        n == events.len() - 1,
        progress(events, n) matches SyncProgressView::Awaiting(phase) && progress(
            events,
            events.len(),
        ) == SyncProgressView::Concluded(Err(phase.error(cause))),
{
    assert(progress(events, n) is Awaiting);
    assert(progress(events, n + 1) is Concluded);
    if n + 1 < events.len() {
        assert(progress(events, n + 1) is Awaiting);
    }
}

/// A synchronisation whose fetch failed has opened the repository, looked up
/// the remote and tried the fetch, and nothing else: no operation of a rebase
/// was ever due.
pub proof fn failed_fetch_starts_no_rebase(
    start: SyncSessionView,
    events: Seq<SyncEventView>,
    cause: Seq<char>,
    n: nat,
)
    requires
        start == SyncSessionView::start(start.repo, start.remote, start.branch),
        proper(events),
        progress(events, events.len()) == SyncProgressView::Concluded(
            Err(SyncErrorView::FetchFailed(cause)),
        ),
        n <= events.len(),
    ensures
        events.len() == 3,
        !session_after(start, events, n).action().rebases(),
{
    lemma_session_after(start.repo, start.remote, start.branch, events, n);
    lemma_shaped(events, events.len());
    let last = (events.len() - 1) as nat;
    lemma_shaped(events, last);
    assert(progress(events, last) == SyncProgressView::Awaiting(SyncPhase::Fetch));
    assert(last == 2);
    if n < events.len() {
        lemma_shaped(events, n);
    }
}

/// A commit as what a rebase keeps of it.
pub struct Change {
    pub author: Seq<char>,
    pub message: Seq<char>,
    pub patch: Seq<u8>,
}

/// A rebase that has been started and not finished.
pub struct Rebase {
    /// The history that the steps are put on.
    pub onto: Seq<Change>,
    /// The steps that are left, the next one first.
    pub pending: Seq<Change>,
    /// The steps that were replayed, the first one first.
    pub replayed: Seq<Change>,
}

/// A repository, as far as a synchronisation is concerned. A history is
/// written oldest commit first.
pub struct Repository {
    /// The history of the branch at the remote.
    pub remote: Seq<Change>,
    /// The history that was fetched, if any was.
    pub fetched: Option<Seq<Change>>,
    /// The history of the local branch.
    pub branch: Seq<Change>,
    /// The rebase in progress, if there is one.
    pub rebase: Option<Rebase>,
}

/// The commits of `branch` that `upstream` lacks, in their order.
pub open spec fn local_only(branch: Seq<Change>, upstream: Seq<Change>) -> Seq<Change> {
    branch.filter(|change: Change| !upstream.contains(change))
}

impl Repository {
    /// A repository in this state can give `event` as its answer to the
    /// operation of `phase`.
    pub open spec fn allows(self, phase: SyncPhase, event: SyncEventView) -> bool {
        match (phase, event) {
            (_, SyncEventView::Failed { .. }) => true,
            (SyncPhase::Replay, SyncEventView::Exhausted) => self.rebase matches Some(rebase)
                && rebase.pending.len() == 0,
            (_, SyncEventView::Exhausted) => false,
            (SyncPhase::ResolveHeads, SyncEventView::Succeeded) => self.fetched is Some,
            (SyncPhase::StartRebase, SyncEventView::Succeeded) => self.fetched is Some,
            (SyncPhase::Replay, SyncEventView::Succeeded) => self.rebase matches Some(rebase)
                && rebase.pending.len() > 0,
            (SyncPhase::FinishRebase, SyncEventView::Succeeded) => self.rebase is Some,
            (_, SyncEventView::Succeeded) => true,
        }
    }

    /// The repository once the operation of `phase` has been answered by
    /// `event`.
    pub open spec fn after(self, phase: SyncPhase, event: SyncEventView) -> Repository {
        match (phase, event) {
            (SyncPhase::Fetch, SyncEventView::Succeeded) => Repository {
                fetched: Some(self.remote),
                ..self
            },
            (SyncPhase::StartRebase, SyncEventView::Succeeded) => Repository {
                rebase: Some(
                    Rebase {
                        onto: self.fetched->Some_0,
                        pending: local_only(self.branch, self.fetched->Some_0),
                        replayed: Seq::empty(),
                    },
                ),
                ..self
            },
            (SyncPhase::Replay, SyncEventView::Succeeded) => Repository {
                rebase: Some(
                    Rebase {
                        onto: self.rebase->Some_0.onto,
                        pending: self.rebase->Some_0.pending.drop_first(),
                        replayed: self.rebase->Some_0.replayed.push(
                            self.rebase->Some_0.pending.first(),
                        ),
                    },
                ),
                ..self
            },
            (SyncPhase::FinishRebase, SyncEventView::Succeeded) => Repository {
                branch: self.rebase->Some_0.onto + self.rebase->Some_0.replayed,
                rebase: None,
                ..self
            },
            _ => self,
        }
    }
}

/// The repository after the first `n` of `events`, where it was `start`
/// before.
pub open spec fn repository(start: Repository, events: Seq<SyncEventView>, n: nat) -> Repository
    decreases n,
{
    if n == 0 {
        start
    } else {
        let before = repository(start, events, (n - 1) as nat);
        match progress(events, (n - 1) as nat) {
            SyncProgressView::Awaiting(phase) => before.after(phase, events[n - 1]),
            _ => before,
        }
    }
}

/// `events` is a run that the repository can give from `start`: each event
/// answers the operation that is due, as the model allows, and none comes
/// after the synchronisation has ended.
pub open spec fn possible(start: Repository, events: Seq<SyncEventView>) -> bool {
    forall|n: nat|
        n < events.len() ==> match #[trigger] progress(events, n) {
            SyncProgressView::Awaiting(phase) => repository(start, events, n).allows(
                phase,
                events[n as int],
            ),
            SyncProgressView::Concluded(_) => false,
        }
}

/// How far the synchronisation has come says what state the repository is
/// in.
pub open spec fn matches_progress(start: Repository, progress: SyncProgressView, now: Repository) -> bool {
    let steps = local_only(start.branch, start.remote);
    &&& now.remote == start.remote
    &&& match progress {
        SyncProgressView::Concluded(Ok(_)) => now.branch == start.remote + steps,
        _ => now.branch == start.branch,
    }
    &&& match progress {
        SyncProgressView::Awaiting(SyncPhase::Open) => now == start,
        SyncProgressView::Awaiting(SyncPhase::FindRemote) => now == start,
        SyncProgressView::Awaiting(SyncPhase::Fetch) => now == start,
        SyncProgressView::Awaiting(SyncPhase::ResolveHeads) => now.fetched == Some(start.remote)
            && now.rebase == start.rebase,
        SyncProgressView::Awaiting(SyncPhase::StartRebase) => now.fetched == Some(start.remote)
            && now.rebase == start.rebase,
        SyncProgressView::Awaiting(SyncPhase::Replay) => {
            &&& now.rebase matches Some(rebase)
            &&& rebase.onto == start.remote
            &&& rebase.replayed + rebase.pending == steps
        },
        SyncProgressView::Awaiting(SyncPhase::FinishRebase) => {
            &&& now.rebase matches Some(rebase)
            &&& rebase.onto == start.remote
            &&& rebase.replayed == steps
        },
        SyncProgressView::Concluded(Ok(_)) => now.rebase is None,
        SyncProgressView::Concluded(Err(SyncErrorView::RepositoryNotFound(_))) => now == start,
        SyncProgressView::Concluded(Err(SyncErrorView::RemoteNotFound(_))) => now == start,
        SyncProgressView::Concluded(Err(SyncErrorView::FetchFailed(_))) => now == start,
        SyncProgressView::Concluded(Err(_)) => true,
    }
}

/// At every point of a possible run, how far the synchronisation has come
/// says what state the repository is in.
pub proof fn lemma_run(start: Repository, events: Seq<SyncEventView>, n: nat)
    requires
        possible(start, events),
        n <= events.len(),
    ensures
        matches_progress(start, progress(events, n), repository(start, events, n)),
    decreases n,
{
    if n > 0 {
        let m = (n - 1) as nat;
        lemma_run(start, events, m);
        assert(progress(events, m) is Awaiting);
        let before = repository(start, events, m);
        if progress(events, m) == SyncProgressView::Awaiting(SyncPhase::Replay) {
            let rebase = before.rebase->Some_0;
            if events[m as int] is Succeeded {
                assert(rebase.replayed.push(rebase.pending.first()) + rebase.pending.drop_first()
                    =~= rebase.replayed + rebase.pending);
            } else if events[m as int] is Exhausted {
                assert(rebase.replayed + rebase.pending =~= rebase.replayed);
            }
        } else if progress(events, m) == SyncProgressView::Awaiting(SyncPhase::StartRebase) {
            let steps = local_only(start.branch, start.remote);
            assert(Seq::<Change>::empty() + steps =~= steps);
        }
    }
}

/// A run that the repository can give is a proper one.
pub proof fn lemma_possible_is_proper(start: Repository, events: Seq<SyncEventView>)
    requires
        possible(start, events),
    ensures
        proper(events),
{
    assert forall|n: nat| n < events.len() implies match #[trigger] progress(events, n) {
        SyncProgressView::Awaiting(phase) => phase.answered_by(events[n as int]),
        SyncProgressView::Concluded(_) => false,
    } by {
        if let SyncProgressView::Awaiting(phase) = progress(events, n) {
            assert(repository(start, events, n).allows(phase, events[n as int]));
        }
    }
}

/// While steps are replayed, as many have been replayed as answers have come
/// in since the rebase was started.
pub proof fn lemma_replayed(start: Repository, events: Seq<SyncEventView>, n: nat)
    requires
        possible(start, events),
        n <= events.len(),
    ensures
        progress(events, n) == SyncProgressView::Awaiting(SyncPhase::Replay) ==> repository(
            start,
            events,
            n,
        ).rebase->Some_0.replayed.len() == n - 5,
        progress(events, n) == SyncProgressView::Awaiting(SyncPhase::FinishRebase) ==> repository(
            start,
            events,
            n,
        ).rebase->Some_0.replayed.len() == n - 6,
    decreases n,
{
    lemma_possible_is_proper(start, events);
    lemma_shaped(events, n);
    lemma_run(start, events, n);
    if n > 0 {
        let m = (n - 1) as nat;
        lemma_replayed(start, events, m);
        lemma_shaped(events, m);
        lemma_run(start, events, m);
        assert(progress(events, m) is Awaiting);
    }
}

/// The history stays linear. After a synchronisation that succeeded, the
/// history of the local branch is the history of the remote branch with, on
/// top of it, the commits that only the local branch had, in their order.
/// Each of them was replayed once, and no rebase is left in progress.
pub proof fn success_puts_local_commits_on_top(start: Repository, events: Seq<SyncEventView>)
    requires
        possible(start, events),
        progress(events, events.len()) == SyncProgressView::Concluded(Ok(())),
    ensures
        repository(start, events, events.len()).branch == start.remote + local_only(
            start.branch,
            start.remote,
        ),
        repository(start, events, events.len()).rebase is None,
        events.len() == 7 + local_only(start.branch, start.remote).len(),
{
    lemma_run(start, events, events.len());
    lemma_possible_is_proper(start, events);
    lemma_shaped(events, events.len());
    let last = (events.len() - 1) as nat;
    lemma_run(start, events, last);
    lemma_replayed(start, events, last);
}

/// A synchronisation comes to an end: it takes no more answers than seven
/// and one for each commit that only the local branch has.
pub proof fn run_comes_to_an_end(start: Repository, events: Seq<SyncEventView>)
    requires
        possible(start, events),
    ensures
        events.len() <= 7 + local_only(start.branch, start.remote).len(),
{
    if events.len() > 0 {
        let last = (events.len() - 1) as nat;
        lemma_possible_is_proper(start, events);
        lemma_shaped(events, last);
        lemma_run(start, events, last);
        lemma_replayed(start, events, last);
        assert(progress(events, last) is Awaiting);
        let steps = local_only(start.branch, start.remote);
        if progress(events, last) == SyncProgressView::Awaiting(SyncPhase::Replay) {
            let rebase = repository(start, events, last).rebase->Some_0;
            assert((rebase.replayed + rebase.pending).len() == steps.len());
        }
    }
}

/// Until a synchronisation has succeeded the local branch is as it was.
pub proof fn branch_moves_on_success_only(start: Repository, events: Seq<SyncEventView>, n: nat)
    requires
        possible(start, events),
        n <= events.len(),
        !(progress(events, n) matches SyncProgressView::Concluded(Ok(_))),
    ensures
        repository(start, events, n).branch == start.branch,
{
    lemma_run(start, events, n);
}

/// A fetch that failed leaves the repository as it was.
pub proof fn failed_fetch_changes_nothing(
    start: Repository,
    events: Seq<SyncEventView>,
    cause: Seq<char>,
)
    requires
        possible(start, events),
        progress(events, events.len()) == SyncProgressView::Concluded(
            Err(SyncErrorView::FetchFailed(cause)),
        ),
    ensures
        repository(start, events, events.len()) == start,
{
    lemma_run(start, events, events.len());
}

} // verus!
