//! Tracking: making the place where an application keeps its save data a
//! symbolic link into the managed repository.
//!
//! The library never touches the filesystem. It decides. A `Tracker` names
//! the one filesystem operation that is due (`TrackAction`), the caller
//! performs it and hands back what happened (`TrackEvent`), and the tracker
//! moves on. Each entry is worked on by at most four operations, in a fixed
//! order: look for the source, inspect the destination, move the destination
//! to the source, link the destination to the source.
use crate::config::{Config, GameEntry, GameEntryView};
use vstd::prelude::*;
use vstd::string::StringExecFns;

verus! {

/// What kind of thing a path names, read without following a link.
#[derive(Debug, Clone, Copy, PartialEq, Eq, Structural)]
pub enum FileKind {
    /// A regular file.
    Regular,
    /// A directory.
    Directory,
    /// A symbolic link.
    Symlink,
    /// Anything else: a socket, a device, a pipe.
    Other,
}

/// Why an entry was left as it was found.
#[derive(Debug, Clone, PartialEq, Eq)]
pub enum SkipReason {
    /// The destination could not be inspected; the text is the filesystem's own.
    DestinationUnreadable(String),
    /// The destination is a symbolic link already.
    AlreadySymlink,
    /// This platform has no symbolic links.
    UnsupportedPlatform,
}

/// What a `SkipReason` stands for.
pub enum SkipReasonView {
    DestinationUnreadable(Seq<char>),
    AlreadySymlink,
    UnsupportedPlatform,
}

impl View for SkipReason {
    type V = SkipReasonView;

    open spec fn view(&self) -> SkipReasonView {
        match self {
            SkipReason::DestinationUnreadable(error) => SkipReasonView::DestinationUnreadable(
                error@,
            ),
            SkipReason::AlreadySymlink => SkipReasonView::AlreadySymlink,
            SkipReason::UnsupportedPlatform => SkipReasonView::UnsupportedPlatform,
        }
    }
}

impl SkipReasonView {
    /// The reason in words.
    pub open spec fn text(self) -> Seq<char> {
        match self {
            SkipReasonView::DestinationUnreadable(error) => error,
            SkipReasonView::AlreadySymlink => "already a symlink"@,
            SkipReasonView::UnsupportedPlatform => "unsupported platform"@,
        }
    }
}

impl SkipReason {
    /// The reason in words.
    pub fn text(&self) -> (r: String)
        ensures
            r@ == self@.text(),
    {
        match self {
            SkipReason::DestinationUnreadable(error) => error.clone(),
            SkipReason::AlreadySymlink => "already a symlink".to_owned(),
            SkipReason::UnsupportedPlatform => "unsupported platform".to_owned(),
        }
    }
}

/// Which of the two changes to the filesystem failed; the text is the
/// filesystem's own.
#[derive(Debug, Clone, PartialEq, Eq)]
pub enum TrackFailure {
    /// The destination could not be moved to the source. Nothing has changed.
    Move(String),
    /// The data was moved to the source, but no link could be made at the
    /// destination.
    Link(String),
}

/// What a `TrackFailure` stands for.
pub enum TrackFailureView {
    Move(Seq<char>),
    Link(Seq<char>),
}

impl View for TrackFailure {
    type V = TrackFailureView;

    open spec fn view(&self) -> TrackFailureView {
        match self {
            TrackFailure::Move(error) => TrackFailureView::Move(error@),
            TrackFailure::Link(error) => TrackFailureView::Link(error@),
        }
    }
}

/// How the work on one entry ended.
#[derive(Debug, Clone, PartialEq, Eq)]
pub enum TrackResult {
    /// The data now lies at the source and the destination links to it.
    Success,
    /// The source exists already: nothing was done.
    AlreadyTracked,
    /// Nothing was done, for the reason given.
    Skipped(SkipReason),
    /// A change to the filesystem failed.
    Failed(TrackFailure),
}

/// What a `TrackResult` stands for.
pub enum TrackResultView {
    Success,
    AlreadyTracked,
    Skipped(SkipReasonView),
    Failed(TrackFailureView),
}

impl View for TrackResult {
    type V = TrackResultView;

    open spec fn view(&self) -> TrackResultView {
        match self {
            TrackResult::Success => TrackResultView::Success,
            TrackResult::AlreadyTracked => TrackResultView::AlreadyTracked,
            TrackResult::Skipped(reason) => TrackResultView::Skipped(reason@),
            TrackResult::Failed(failure) => TrackResultView::Failed(failure@),
        }
    }
}

impl TrackResultView {
    /// A line for people to read on how the work on `entry` ended. After a
    /// move that failed there are two lines.
    pub open spec fn text(self, entry: GameEntryView) -> Seq<char> {
        match self {
            TrackResultView::Success => "Succesfully tracked game saves of "@ + entry.name,
            TrackResultView::AlreadyTracked => entry.name + ": Game file is already tracked"@,
            TrackResultView::Skipped(SkipReasonView::AlreadySymlink) => entry.name
                + ": Game file is a symlink, will not backup symlink"@,
            TrackResultView::Skipped(SkipReasonView::DestinationUnreadable(error)) => entry.name
                + ": "@ + entry.destination + " -> "@ + error,
            TrackResultView::Skipped(SkipReasonView::UnsupportedPlatform) => entry.name + ": "@
                + SkipReasonView::UnsupportedPlatform.text(),
            TrackResultView::Failed(TrackFailureView::Move(_)) => "Error moving file from "@
                + entry.destination + " to "@ + entry.source + "\nSkipping "@ + entry.name,
            TrackResultView::Failed(TrackFailureView::Link(error)) => error,
        }
    }
}

impl TrackResult {
    /// A line for people to read on how the work on `entry` ended. After a
    /// move that failed there are two lines.
    pub fn text(&self, entry: &GameEntry) -> (r: String)
        ensures
            r@ == self@.text(entry@),
    {
        match self {
            TrackResult::Success => "Succesfully tracked game saves of ".to_owned().concat(
                entry.name(),
            ),
            TrackResult::AlreadyTracked => entry.name().to_owned().concat(
                ": Game file is already tracked",
            ),
            TrackResult::Skipped(SkipReason::AlreadySymlink) => entry.name().to_owned().concat(
                ": Game file is a symlink, will not backup symlink",
            ),
            TrackResult::Skipped(SkipReason::DestinationUnreadable(error)) => {
                entry.name().to_owned().concat(": ").concat(entry.destination()).concat(
                    " -> ",
                ).concat(error.as_str())
            },
            TrackResult::Skipped(SkipReason::UnsupportedPlatform) => {
                let reason = SkipReason::UnsupportedPlatform.text();
                entry.name().to_owned().concat(": ").concat(reason.as_str())
            },
            TrackResult::Failed(TrackFailure::Move(_)) => {
                "Error moving file from ".to_owned().concat(entry.destination()).concat(
                    " to ",
                ).concat(entry.source()).concat("\nSkipping ").concat(entry.name())
            },
            TrackResult::Failed(TrackFailure::Link(error)) => error.clone(),
        }
    }
}

/// What the filesystem answered to the operation that was due.
#[derive(Debug, Clone, PartialEq, Eq)]
pub enum TrackEvent {
    /// The source was looked for, following links.
    SourceChecked { exists: bool },
    /// The destination was inspected without following a link.
    DestinationInspected { kind: FileKind },
    /// The destination could not be inspected.
    DestinationUnreadable { error: String },
    /// The destination was moved to the source.
    Moved,
    /// The move failed.
    MoveFailed { error: String },
    /// The link was made.
    Linked,
    /// The link could not be made.
    LinkFailed { error: String },
}

/// What a `TrackEvent` stands for.
pub enum TrackEventView {
    SourceChecked { exists: bool },
    DestinationInspected { kind: FileKind },
    DestinationUnreadable { error: Seq<char> },
    Moved,
    MoveFailed { error: Seq<char> },
    Linked,
    LinkFailed { error: Seq<char> },
}

impl View for TrackEvent {
    type V = TrackEventView;

    open spec fn view(&self) -> TrackEventView {
        match self {
            TrackEvent::SourceChecked { exists } => TrackEventView::SourceChecked {
                exists: *exists,
            },
            TrackEvent::DestinationInspected { kind } => TrackEventView::DestinationInspected {
                kind: *kind,
            },
            TrackEvent::DestinationUnreadable { error } => TrackEventView::DestinationUnreadable {
                error: error@,
            },
            TrackEvent::Moved => TrackEventView::Moved,
            TrackEvent::MoveFailed { error } => TrackEventView::MoveFailed { error: error@ },
            TrackEvent::Linked => TrackEventView::Linked,
            TrackEvent::LinkFailed { error } => TrackEventView::LinkFailed { error: error@ },
        }
    }
}

/// The filesystem operation that is due.
#[derive(Debug, Clone, PartialEq, Eq)]
pub enum TrackAction {
    /// Say whether `path` exists, following links.
    CheckSource { path: String },
    /// Say what `path` is, without following a link.
    InspectDestination { path: String },
    /// Rename `from` to `to`.
    Move { from: String, to: String },
    /// Make a symbolic link at `link` that points to `target`.
    Link { target: String, link: String },
    /// Nothing is left to do.
    Finish,
}

/// What a `TrackAction` stands for.
pub enum TrackActionView {
    CheckSource { path: Seq<char> },
    InspectDestination { path: Seq<char> },
    Move { from: Seq<char>, to: Seq<char> },
    Link { target: Seq<char>, link: Seq<char> },
    Finish,
}

impl View for TrackAction {
    type V = TrackActionView;

    open spec fn view(&self) -> TrackActionView {
        match self {
            TrackAction::CheckSource { path } => TrackActionView::CheckSource { path: path@ },
            TrackAction::InspectDestination { path } => TrackActionView::InspectDestination {
                path: path@,
            },
            TrackAction::Move { from, to } => TrackActionView::Move { from: from@, to: to@ },
            TrackAction::Link { target, link } => TrackActionView::Link {
                target: target@,
                link: link@,
            },
            TrackAction::Finish => TrackActionView::Finish,
        }
    }
}

impl TrackActionView {
    /// The operation changes the filesystem.
    pub open spec fn mutates(self) -> bool {
        self is Move || self is Link
    }
}

impl TrackAction {
    /// The operation changes the filesystem.
    pub fn mutates(&self) -> (r: bool)
        ensures
            r == self@.mutates(),
    {
        match self {
            TrackAction::Move { .. } => true,
            TrackAction::Link { .. } => true,
            _ => false,
        }
    }
}

/// The operation on an entry that awaits its answer.
#[derive(Debug, Clone, Copy, PartialEq, Eq, Structural)]
pub enum Phase {
    /// Whether the source exists.
    CheckSource,
    /// What the destination is.
    InspectDestination,
    /// The move of the destination to the source.
    Move,
    /// The link at the destination to the source.
    Link,
}

/// Where the work on an entry stands after an answer.
#[derive(Debug, Clone, PartialEq, Eq)]
pub enum Progress {
    /// The named operation is due.
    Awaiting(Phase),
    /// The work has ended.
    Concluded(TrackResult),
}

/// What a `Progress` stands for.
pub enum ProgressView {
    Awaiting(Phase),
    Concluded(TrackResultView),
}

impl View for Progress {
    type V = ProgressView;

    open spec fn view(&self) -> ProgressView {
        match self {
            Progress::Awaiting(phase) => ProgressView::Awaiting(*phase),
            Progress::Concluded(result) => ProgressView::Concluded(result@),
        }
    }
}

impl Phase {
    /// The event says how the operation of this phase went.
    pub open spec fn answered_by(self, event: TrackEventView) -> bool {
        match self {
            Phase::CheckSource => event is SourceChecked,
            Phase::InspectDestination => event is DestinationInspected
                || event is DestinationUnreadable,
            Phase::Move => event is Moved || event is MoveFailed,
            Phase::Link => event is Linked || event is LinkFailed,
        }
    }

    /// Where the work stands once `event` has come in. An event that does not
    /// answer the operation of this phase changes nothing.
    pub open spec fn after(self, event: TrackEventView) -> ProgressView {
        match (self, event) {
            (Phase::CheckSource, TrackEventView::SourceChecked { exists }) => if exists {
                ProgressView::Concluded(TrackResultView::AlreadyTracked)
            } else {
                ProgressView::Awaiting(Phase::InspectDestination)
            },
            (Phase::InspectDestination, TrackEventView::DestinationInspected { kind }) => if kind
                == FileKind::Symlink {
                ProgressView::Concluded(TrackResultView::Skipped(SkipReasonView::AlreadySymlink))
            } else {
                ProgressView::Awaiting(Phase::Move)
            },
            (
                Phase::InspectDestination,
                TrackEventView::DestinationUnreadable { error },
            ) => ProgressView::Concluded(
                TrackResultView::Skipped(SkipReasonView::DestinationUnreadable(error)),
            ),
            (Phase::Move, TrackEventView::Moved) => ProgressView::Awaiting(Phase::Link),
            (Phase::Move, TrackEventView::MoveFailed { error }) => ProgressView::Concluded(
                TrackResultView::Failed(TrackFailureView::Move(error)),
            ),
            (Phase::Link, TrackEventView::Linked) => ProgressView::Concluded(
                TrackResultView::Success,
            ),
            (Phase::Link, TrackEventView::LinkFailed { error }) => ProgressView::Concluded(
                TrackResultView::Failed(TrackFailureView::Link(error)),
            ),
            _ => ProgressView::Awaiting(self),
        }
    }

    /// The operation of this phase on the paths of `entry`. A move goes from
    /// the destination to the source; a link at the destination points to the
    /// source.
    pub open spec fn action(self, entry: GameEntryView) -> TrackActionView {
        match self {
            Phase::CheckSource => TrackActionView::CheckSource { path: entry.source },
            Phase::InspectDestination => TrackActionView::InspectDestination {
                path: entry.destination,
            },
            Phase::Move => TrackActionView::Move { from: entry.destination, to: entry.source },
            Phase::Link => TrackActionView::Link { target: entry.source, link: entry.destination },
        }
    }

    /// Takes the answer to the operation of this phase and says what comes
    /// next.
    pub fn step(self, event: TrackEvent) -> (r: Progress)
        ensures
            r@ == self.after(event@),
    {
        match (self, event) {
            (Phase::CheckSource, TrackEvent::SourceChecked { exists }) => {
                if exists {
                    Progress::Concluded(TrackResult::AlreadyTracked)
                } else {
                    Progress::Awaiting(Phase::InspectDestination)
                }
            },
            (Phase::InspectDestination, TrackEvent::DestinationInspected { kind }) => {
                if kind == FileKind::Symlink {
                    Progress::Concluded(TrackResult::Skipped(SkipReason::AlreadySymlink))
                } else {
                    Progress::Awaiting(Phase::Move)
                }
            },
            (Phase::InspectDestination, TrackEvent::DestinationUnreadable { error }) => {
                Progress::Concluded(TrackResult::Skipped(SkipReason::DestinationUnreadable(error)))
            },
            (Phase::Move, TrackEvent::Moved) => Progress::Awaiting(Phase::Link),
            (Phase::Move, TrackEvent::MoveFailed { error }) => {
                Progress::Concluded(TrackResult::Failed(TrackFailure::Move(error)))
            },
            (Phase::Link, TrackEvent::Linked) => Progress::Concluded(TrackResult::Success),
            (Phase::Link, TrackEvent::LinkFailed { error }) => {
                Progress::Concluded(TrackResult::Failed(TrackFailure::Link(error)))
            },
            (phase, _) => Progress::Awaiting(phase),
        }
    }

    /// Names the operation of this phase on the paths of `entry`.
    pub fn operation(self, entry: &GameEntry) -> (r: TrackAction)
        ensures
            r@ == self.action(entry@),
    {
        match self {
            Phase::CheckSource => TrackAction::CheckSource { path: entry.source().to_owned() },
            Phase::InspectDestination => TrackAction::InspectDestination {
                path: entry.destination().to_owned(),
            },
            Phase::Move => TrackAction::Move {
                from: entry.destination().to_owned(),
                to: entry.source().to_owned(),
            },
            Phase::Link => TrackAction::Link {
                target: entry.source().to_owned(),
                link: entry.destination().to_owned(),
            },
        }
    }
}

/// How the work on the entry at position `entry` of the configuration ended.
#[derive(Debug, Clone, PartialEq, Eq)]
pub struct TrackReport {
    pub entry: usize,
    pub result: TrackResult,
}

/// What a `TrackReport` stands for.
pub struct TrackReportView {
    pub entry: nat,
    pub result: TrackResultView,
}

impl View for TrackReport {
    type V = TrackReportView;

    open spec fn view(&self) -> TrackReportView {
        TrackReportView { entry: self.entry as nat, result: self.result@ }
    }
}

/// The reports of a sequence, one by one.
pub open spec fn report_views(reports: Seq<TrackReport>) -> Seq<TrackReportView> {
    Seq::new(reports.len(), |k: int| reports[k]@)
}

/// Some report speaks of the entry at position `entry`.
pub open spec fn reported(reports: Seq<TrackReportView>, entry: int) -> bool {
    exists|k: int| 0 <= k < reports.len() && #[trigger] reports[k].entry == entry
}

/// The first position at or after `from` whose entry is enabled; the number
/// of entries where there is none.
pub open spec fn next_enabled(games: Seq<GameEntryView>, from: nat) -> nat
    decreases games.len() - from,
{
    if from >= games.len() {
        games.len()
    } else if games[from as int].enabled {
        from
    } else {
        next_enabled(games, from + 1)
    }
}

/// One report for each enabled entry among the first `upto`, in their order,
/// each saying that the platform has no symbolic links.
pub open spec fn unsupported(games: Seq<GameEntryView>, upto: nat) -> Seq<TrackReportView>
    decreases upto,
{
    if upto == 0 {
        Seq::empty()
    } else if games[upto - 1].enabled {
        unsupported(games, (upto - 1) as nat).push(
            TrackReportView {
                entry: (upto - 1) as nat,
                result: TrackResultView::Skipped(SkipReasonView::UnsupportedPlatform),
            },
        )
    } else {
        unsupported(games, (upto - 1) as nat)
    }
}

/// What a `Tracker` stands for.
pub struct TrackerView {
    /// The entries, in the order of the configuration.
    pub games: Seq<GameEntryView>,
    /// The position of the entry that is being worked on; the number of
    /// entries once all are done.
    pub cursor: nat,
    /// The operation on that entry that awaits its answer.
    pub phase: Phase,
    /// How the work on the entries before the cursor ended.
    pub reports: Seq<TrackReportView>,
}

impl TrackerView {
    /// The tracker for a set of entries before any operation. Where the
    /// platform has no symbolic links, every enabled entry is skipped at once.
    pub open spec fn start(games: Seq<GameEntryView>, symlinks: bool) -> TrackerView {
        if symlinks {
            TrackerView {
                games,
                cursor: next_enabled(games, 0),
                phase: Phase::CheckSource,
                reports: Seq::empty(),
            }
        } else {
            TrackerView {
                games,
                cursor: games.len(),
                phase: Phase::CheckSource,
                reports: unsupported(games, games.len()),
            }
        }
    }

    /// No entry is left to work on.
    pub open spec fn finished(self) -> bool {
        self.cursor >= self.games.len()
    }

    /// The entry under the cursor is enabled; there is exactly one report for
    /// each enabled entry before the cursor, in the order of the entries, and
    /// none for any other entry.
    pub open spec fn wf(self) -> bool {
        &&& self.cursor <= self.games.len()
        &&& self.cursor < self.games.len() ==> self.games[self.cursor as int].enabled
        &&& forall|k: int|
            0 <= k < self.reports.len() ==> (#[trigger] self.reports[k]).entry < self.cursor
                && self.games[self.reports[k].entry as int].enabled
        &&& forall|j: int, k: int|
            0 <= j < k < self.reports.len() ==> (#[trigger] self.reports[j]).entry < (
            #[trigger] self.reports[k]).entry
        &&& forall|i: int|
            0 <= i < self.cursor && (#[trigger] self.games[i]).enabled ==> reported(
                self.reports,
                i,
            )
    }

    /// The operation that is due.
    pub open spec fn action(self) -> TrackActionView {
        if self.finished() {
            TrackActionView::Finish
        } else {
            self.phase.action(self.games[self.cursor as int])
        }
    }

    /// The tracker once the work on the entry under the cursor has ended in
    /// `result`: the report is added, and the cursor moves to the next enabled
    /// entry, whatever the result was.
    pub open spec fn conclude(self, result: TrackResultView) -> TrackerView {
        TrackerView {
            games: self.games,
            cursor: next_enabled(self.games, self.cursor + 1),
            phase: Phase::CheckSource,
            reports: self.reports.push(TrackReportView { entry: self.cursor, result }),
        }
    }

    /// The tracker once `event` has come in. Nothing moves a tracker that has
    /// finished.
    pub open spec fn step(self, event: TrackEventView) -> TrackerView {
        if self.finished() {
            self
        } else {
            match self.phase.after(event) {
                ProgressView::Awaiting(phase) => TrackerView { phase, ..self },
                ProgressView::Concluded(result) => self.conclude(result),
            }
        }
    }
}

/// `next_enabled` finds an enabled entry or the end, and passes over nothing
/// that is enabled.
pub proof fn lemma_next_enabled(games: Seq<GameEntryView>, from: nat)
    requires
        from <= games.len(),
    ensures
        from <= next_enabled(games, from) <= games.len(),
        next_enabled(games, from) < games.len() ==> games[next_enabled(games, from) as int].enabled,
        forall|i: int| from <= i < next_enabled(games, from) ==> !(#[trigger] games[i]).enabled,
    decreases games.len() - from,
{
    if from < games.len() && !games[from as int].enabled {
        lemma_next_enabled(games, from + 1);
    }
}

/// The reports of `unsupported` are in order, one for each enabled entry.
pub proof fn lemma_unsupported(games: Seq<GameEntryView>, upto: nat)
    requires
        upto <= games.len(),
    ensures
        forall|k: int|
            0 <= k < unsupported(games, upto).len() ==> {
                let report = #[trigger] unsupported(games, upto)[k];
                &&& report.entry < upto
                &&& games[report.entry as int].enabled
                &&& report.result == TrackResultView::Skipped(SkipReasonView::UnsupportedPlatform)
            },
        forall|j: int, k: int|
            0 <= j < k < unsupported(games, upto).len() ==> (#[trigger] unsupported(
                games,
                upto,
            )[j]).entry < (#[trigger] unsupported(games, upto)[k]).entry,
        forall|i: int|
            0 <= i < upto && (#[trigger] games[i]).enabled ==> reported(
                unsupported(games, upto),
                i,
            ),
    decreases upto,
{
    if upto > 0 {
        let before = unsupported(games, (upto - 1) as nat);
        lemma_unsupported(games, (upto - 1) as nat);
        let now = unsupported(games, upto);
        if games[upto - 1].enabled {
            assert(now[before.len() as int].entry == upto - 1);
            assert forall|i: int| 0 <= i < upto && (#[trigger] games[i]).enabled implies reported(
                now,
                i,
            ) by {
                if i < upto - 1 {
                    let k = choose|k: int| 0 <= k < before.len() && #[trigger] before[k].entry == i;
                    assert(now[k].entry == i);
                }
            }
        }
    }
}

/// A tracker starts well-formed.
pub proof fn lemma_start_wf(games: Seq<GameEntryView>, symlinks: bool)
    ensures
        TrackerView::start(games, symlinks).wf(),
{
    if symlinks {
        lemma_next_enabled(games, 0);
    } else {
        lemma_unsupported(games, games.len());
    }
}

/// A step keeps a tracker well-formed.
pub proof fn lemma_step_wf(tracker: TrackerView, event: TrackEventView)
    requires
        tracker.wf(),
    ensures
        tracker.step(event).wf(),
{
    let next = tracker.step(event);
    if !tracker.finished() {
        if let ProgressView::Concluded(result) = tracker.phase.after(event) {
            lemma_next_enabled(tracker.games, tracker.cursor + 1);
            let last = tracker.reports.len() as int;
            assert(next.reports[last].entry == tracker.cursor);
            assert forall|i: int|
                0 <= i < next.cursor && (#[trigger] next.games[i]).enabled implies reported(
                next.reports,
                i,
            ) by {
                if i < tracker.cursor {
                    let k = choose|k: int|
                        0 <= k < tracker.reports.len() && #[trigger] tracker.reports[k].entry == i;
                    assert(next.reports[k].entry == i);
                } else {
                    assert(i == tracker.cursor);
                }
            }
        }
    }
}

/// The entries of a configuration without their keys.
pub open spec fn entry_views(games: Seq<(String, GameEntry)>) -> Seq<GameEntryView> {
    Seq::new(games.len(), |i: int| games[i].1@)
}

/// Works through the entries of a configuration, one filesystem operation at
/// a time.
pub struct Tracker<'a> {
    config: &'a Config,
    cursor: usize,
    phase: Phase,
    reports: Vec<TrackReport>,
}

impl<'a> View for Tracker<'a> {
    type V = TrackerView;

    closed spec fn view(&self) -> TrackerView {
        TrackerView {
            games: self.config@.entries(),
            cursor: self.cursor as nat,
            phase: self.phase,
            reports: report_views(self.reports@),
        }
    }
}

/// Finds the first enabled entry at or after `from`.
fn find_enabled(games: &Vec<(String, GameEntry)>, from: usize) -> (r: usize)
    requires
        from <= games.len(),
    ensures
        r == next_enabled(entry_views(games@), from as nat),
{
    let mut at: usize = from;
    while at < games.len() && !games[at].1.enabled()
        invariant
            from <= at <= games.len(),
            next_enabled(entry_views(games@), at as nat) == next_enabled(
                entry_views(games@),
                from as nat,
            ),
        decreases games.len() - at,
    {
        at += 1;
    }
    at
}

impl<'a> Tracker<'a> {
    #[verifier::type_invariant]
    closed spec fn inv(self) -> bool {
        self@.wf()
    }

    /// Starts on the entries of `config`. `symlinks` says whether the platform
    /// has symbolic links.
    pub fn new(config: &'a Config, symlinks: bool) -> (r: Tracker<'a>)
        ensures
            r@ == TrackerView::start(config@.entries(), symlinks),
            r@.wf(),
    {
        let games = config.games();
        proof {
            lemma_start_wf(config@.entries(), symlinks);
            assert(config@.entries() =~= entry_views(games@));
        }
        if symlinks {
            let cursor: usize = find_enabled(games, 0);
            let tracker = Tracker { config, cursor, phase: Phase::CheckSource, reports: Vec::new() };
            assert(tracker@.reports =~= Seq::empty());
            tracker
        } else {
            let mut reports: Vec<TrackReport> = Vec::new();
            let mut at: usize = 0;
            while at < games.len()
                invariant
                    at <= games.len(),
                    report_views(reports@) == unsupported(entry_views(games@), at as nat),
                decreases games.len() - at,
            {
                if games[at].1.enabled() {
                    reports.push(
                        TrackReport {
                            entry: at,
                            result: TrackResult::Skipped(SkipReason::UnsupportedPlatform),
                        },
                    );
                }
                at += 1;
                assert(report_views(reports@) =~= unsupported(entry_views(games@), at as nat));
            }
            Tracker { config, cursor: at, phase: Phase::CheckSource, reports }
        }
    }

    /// Whether every entry has been dealt with.
    pub fn finished(&self) -> (r: bool)
        ensures
            r == self@.finished(),
            self@.wf(),
    {
        proof {
            use_type_invariant(self);
        }
        self.cursor >= self.config.games().len()
    }

    /// The filesystem operation that is due.
    pub fn action(&self) -> (r: TrackAction)
        ensures
            r@ == self@.action(),
            self@.wf(),
    {
        proof {
            use_type_invariant(self);
        }
        let games = self.config.games();
        if self.cursor >= games.len() {
            TrackAction::Finish
        } else {
            self.phase.operation(&games[self.cursor].1)
        }
    }

    /// Takes what the filesystem answered to the operation that was due.
    pub fn step(self, event: TrackEvent) -> (r: Tracker<'a>)
        ensures
            r@ == self@.step(event@),
            r@.wf(),
    {
        proof {
            use_type_invariant(&self);
            lemma_step_wf(self@, event@);
        }
        let Tracker { config, cursor, phase, reports } = self;
        let games = config.games();
        assert(config@.entries() =~= entry_views(games@));
        if cursor >= games.len() {
            Tracker { config, cursor, phase, reports }
        } else {
            match phase.step(event) {
                Progress::Awaiting(phase) => Tracker { config, cursor, phase, reports },
                Progress::Concluded(result) => {
                    let mut reports = reports;
                    let ghost before = report_views(reports@);
                    reports.push(TrackReport { entry: cursor, result });
                    assert(report_views(reports@) =~= before.push(
                        TrackReportView { entry: cursor as nat, result: result@ },
                    ));
                    let cursor: usize = find_enabled(games, cursor + 1);
                    Tracker { config, cursor, phase: Phase::CheckSource, reports }
                },
            }
        }
    }

    /// The reports so far: one for each enabled entry that has been dealt
    /// with, in the order of the configuration.
    pub fn reports(&self) -> (r: &Vec<TrackReport>)
        ensures
            report_views(r@) == self@.reports,
            self@.wf(),
    {
        proof {
            use_type_invariant(self);
        }
        &self.reports
    }
}

} // verus!
