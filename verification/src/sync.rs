//! Synchronisation: bringing the current branch of the managed repository up
//! to date with a branch of a remote, by a fetch and a rebase.
//!
//! The library never touches the repository. It decides. A `SyncSession`
//! names the one operation that is due (`SyncAction`), the caller performs it
//! and hands back what happened (`SyncEvent`), and the session moves on. The
//! first failure ends the session with the error of the phase it happened in;
//! nothing is retried and nothing is undone.
use vstd::prelude::*;
use vstd::string::StringExecFns;

verus! {

/// Why a synchronisation ended early. The text is the repository's own.
#[derive(Debug, Clone, PartialEq, Eq)]
pub enum SyncError {
    /// There is no repository at the configured path.
    RepositoryNotFound(String),
    /// The repository knows no remote of that name.
    RemoteNotFound(String),
    /// The branch could not be fetched from the remote.
    FetchFailed(String),
    /// What was fetched, or the head of the local branch, names no commit.
    ResolveFailed(String),
    /// The rebase could not be started.
    RebaseStartFailed(String),
    /// A step of the rebase could not be replayed or committed.
    RebaseConflict(String),
    /// The rebase could not be finished.
    RebaseFinishFailed(String),
}

/// What a `SyncError` stands for.
pub enum SyncErrorView {
    RepositoryNotFound(Seq<char>),
    RemoteNotFound(Seq<char>),
    FetchFailed(Seq<char>),
    ResolveFailed(Seq<char>),
    RebaseStartFailed(Seq<char>),
    RebaseConflict(Seq<char>),
    RebaseFinishFailed(Seq<char>),
}

impl View for SyncError {
    type V = SyncErrorView;

    open spec fn view(&self) -> SyncErrorView {
        match self {
            SyncError::RepositoryNotFound(cause) => SyncErrorView::RepositoryNotFound(cause@),
            SyncError::RemoteNotFound(cause) => SyncErrorView::RemoteNotFound(cause@),
            SyncError::FetchFailed(cause) => SyncErrorView::FetchFailed(cause@),
            SyncError::ResolveFailed(cause) => SyncErrorView::ResolveFailed(cause@),
            SyncError::RebaseStartFailed(cause) => SyncErrorView::RebaseStartFailed(cause@),
            SyncError::RebaseConflict(cause) => SyncErrorView::RebaseConflict(cause@),
            SyncError::RebaseFinishFailed(cause) => SyncErrorView::RebaseFinishFailed(cause@),
        }
    }
}

impl SyncErrorView {
    /// The text that came with the failure.
    pub open spec fn cause(self) -> Seq<char> {
        match self {
            SyncErrorView::RepositoryNotFound(cause) => cause,
            SyncErrorView::RemoteNotFound(cause) => cause,
            SyncErrorView::FetchFailed(cause) => cause,
            SyncErrorView::ResolveFailed(cause) => cause,
            SyncErrorView::RebaseStartFailed(cause) => cause,
            SyncErrorView::RebaseConflict(cause) => cause,
            SyncErrorView::RebaseFinishFailed(cause) => cause,
        }
    }
}

impl SyncErrorView {
    /// What failed, in words.
    pub open spec fn failure(self) -> Seq<char> {
        match self {
            SyncErrorView::RepositoryNotFound(_) => "Failed to open repo"@,
            SyncErrorView::RemoteNotFound(_) => "Failed to find remote"@,
            SyncErrorView::FetchFailed(_) => "Failed to fetch"@,
            SyncErrorView::ResolveFailed(_) => "Failed to resolve heads"@,
            SyncErrorView::RebaseStartFailed(_) => "Failed to start rebase"@,
            SyncErrorView::RebaseConflict(_) => "Failed to replay commit"@,
            SyncErrorView::RebaseFinishFailed(_) => "Failed to finish rebase"@,
        }
    }

    /// The error in words: what failed, a colon, and the text that came with
    /// the failure.
    pub open spec fn text(self) -> Seq<char> {
        self.failure() + ": "@ + self.cause()
    }
}

impl SyncError {
    /// What failed, in words.
    pub fn failure(&self) -> (r: &'static str)
        ensures
            r@ == self@.failure(),
    {
        match self {
            SyncError::RepositoryNotFound(_) => "Failed to open repo",
            SyncError::RemoteNotFound(_) => "Failed to find remote",
            SyncError::FetchFailed(_) => "Failed to fetch",
            SyncError::ResolveFailed(_) => "Failed to resolve heads",
            SyncError::RebaseStartFailed(_) => "Failed to start rebase",
            SyncError::RebaseConflict(_) => "Failed to replay commit",
            SyncError::RebaseFinishFailed(_) => "Failed to finish rebase",
        }
    }

    /// The error in words: what failed, a colon, and the text that came with
    /// the failure.
    pub fn text(&self) -> (r: String)
        ensures
            r@ == self@.text(),
    {
        self.failure().to_owned().concat(": ").concat(self.cause())
    }

    /// The text that came with the failure.
    pub fn cause(&self) -> (r: &str)
        ensures
            r@ == self@.cause(),
    {
        match self {
            SyncError::RepositoryNotFound(cause) => cause.as_str(),
            SyncError::RemoteNotFound(cause) => cause.as_str(),
            SyncError::FetchFailed(cause) => cause.as_str(),
            SyncError::ResolveFailed(cause) => cause.as_str(),
            SyncError::RebaseStartFailed(cause) => cause.as_str(),
            SyncError::RebaseConflict(cause) => cause.as_str(),
            SyncError::RebaseFinishFailed(cause) => cause.as_str(),
        }
    }
}

/// What a result of a synchronisation stands for.
pub open spec fn result_view(result: Result<(), SyncError>) -> Result<(), SyncErrorView> {
    match result {
        Ok(_) => Ok(()),
        Err(error) => Err(error@),
    }
}

/// What the repository answered to the operation that was due.
#[derive(Debug, Clone, PartialEq, Eq)]
pub enum SyncEvent {
    /// The operation was carried out.
    Succeeded,
    /// No step of the rebase was left to replay.
    Exhausted,
    /// The operation failed.
    Failed { cause: String },
}

/// What a `SyncEvent` stands for.
pub enum SyncEventView {
    Succeeded,
    Exhausted,
    Failed { cause: Seq<char> },
}

impl View for SyncEvent {
    type V = SyncEventView;

    open spec fn view(&self) -> SyncEventView {
        match self {
            SyncEvent::Succeeded => SyncEventView::Succeeded,
            SyncEvent::Exhausted => SyncEventView::Exhausted,
            SyncEvent::Failed { cause } => SyncEventView::Failed { cause: cause@ },
        }
    }
}

/// Which tags a fetch brings along.
#[derive(Debug, Clone, Copy, PartialEq, Eq, Structural)]
pub enum TagPolicy {
    /// Every tag of the remote.
    All,
}

/// Where the key for the remote comes from.
#[derive(Debug, Clone, Copy, PartialEq, Eq, Structural)]
pub enum Credentials {
    /// The SSH agent of whoever runs the program. No passphrase and no path
    /// of a key is handled here.
    SshAgent,
}

/// A commit that an earlier operation of the session has resolved.
#[derive(Debug, Clone, Copy, PartialEq, Eq, Structural)]
pub enum Commit {
    /// The commit that the fetch brought.
    Fetched,
    /// The head of the local branch.
    LocalHead,
}

/// Whose name stands on a commit.
#[derive(Debug, Clone, Copy, PartialEq, Eq, Structural)]
pub enum Identity {
    /// The name and address in the repository's own configuration.
    Configured,
}

/// The operation on the repository that is due.
#[derive(Debug, Clone, PartialEq, Eq)]
pub enum SyncAction {
    /// Open the repository at `path`.
    OpenRepository { path: String },
    /// Look up the remote called `name`.
    FindRemote { name: String },
    /// Fetch `branch` from the remote.
    Fetch { branch: String, tags: TagPolicy, credentials: Credentials },
    /// Resolve the reference `fetched` to a commit, and the head of the
    /// local branch to a commit.
    ResolveHeads { fetched: String },
    /// Start a rebase. `rebased` is what is rebased, the branch that is
    /// checked out where it is `None`; `upstream` and `onto` are git's.
    StartRebase { rebased: Option<Commit>, upstream: Option<Commit>, onto: Option<Commit> },
    /// Replay the next step of the rebase, if one is left, and commit it as
    /// `committer`. Where `author` or `message` is `None`, the new commit
    /// keeps that of the commit it replays.
    ReplayNext { author: Option<Identity>, committer: Identity, message: Option<String> },
    /// Finish the rebase.
    FinishRebase,
    /// Nothing is left to do.
    Finish,
}

/// What a `SyncAction` stands for.
pub enum SyncActionView {
    OpenRepository { path: Seq<char> },
    FindRemote { name: Seq<char> },
    Fetch { branch: Seq<char>, tags: TagPolicy, credentials: Credentials },
    ResolveHeads { fetched: Seq<char> },
    StartRebase { rebased: Option<Commit>, upstream: Option<Commit>, onto: Option<Commit> },
    ReplayNext { author: Option<Identity>, committer: Identity, message: Option<Seq<char>> },
    FinishRebase,
    Finish,
}

impl View for SyncAction {
    type V = SyncActionView;

    open spec fn view(&self) -> SyncActionView {
        match self {
            SyncAction::OpenRepository { path } => SyncActionView::OpenRepository { path: path@ },
            SyncAction::FindRemote { name } => SyncActionView::FindRemote { name: name@ },
            SyncAction::Fetch { branch, tags, credentials } => SyncActionView::Fetch {
                branch: branch@,
                tags: *tags,
                credentials: *credentials,
            },
            SyncAction::ResolveHeads { fetched } => SyncActionView::ResolveHeads {
                fetched: fetched@,
            },
            SyncAction::StartRebase { rebased, upstream, onto } => SyncActionView::StartRebase {
                rebased: *rebased,
                upstream: *upstream,
                onto: *onto,
            },
            SyncAction::ReplayNext { author, committer, message } => SyncActionView::ReplayNext {
                author: *author,
                committer: *committer,
                message: match message {
                    Some(text) => Some(text@),
                    None => None,
                },
            },
            SyncAction::FinishRebase => SyncActionView::FinishRebase,
            SyncAction::Finish => SyncActionView::Finish,
        }
    }
}

impl SyncActionView {
    /// The operation is part of a rebase: it may move the local branch.
    pub open spec fn rebases(self) -> bool {
        self is StartRebase || self is ReplayNext || self is FinishRebase
    }
}

impl SyncAction {
    /// The operation is part of a rebase: it may move the local branch.
    pub fn rebases(&self) -> (r: bool)
        ensures
            r == self@.rebases(),
    {
        match self {
            SyncAction::StartRebase { .. } => true,
            SyncAction::ReplayNext { .. } => true,
            SyncAction::FinishRebase => true,
            _ => false,
        }
    }
}

/// The operation of a synchronisation that awaits its answer.
#[derive(Debug, Clone, Copy, PartialEq, Eq, Structural)]
pub enum SyncPhase {
    /// The repository is opened.
    Open,
    /// The remote is looked up.
    FindRemote,
    /// The branch is fetched.
    Fetch,
    /// What was fetched and the local head are resolved to commits.
    ResolveHeads,
    /// The rebase is started.
    StartRebase,
    /// The next step of the rebase is replayed and committed.
    Replay,
    /// The rebase is finished.
    FinishRebase,
}

/// Where a synchronisation stands after an answer.
#[derive(Debug, PartialEq, Eq)]
pub enum SyncProgress {
    /// The named operation is due.
    Awaiting(SyncPhase),
    /// The synchronisation has ended.
    Concluded(Result<(), SyncError>),
}

/// What a `SyncProgress` stands for.
pub enum SyncProgressView {
    Awaiting(SyncPhase),
    Concluded(Result<(), SyncErrorView>),
}

impl View for SyncProgress {
    type V = SyncProgressView;

    open spec fn view(&self) -> SyncProgressView {
        match self {
            SyncProgress::Awaiting(phase) => SyncProgressView::Awaiting(*phase),
            SyncProgress::Concluded(result) => SyncProgressView::Concluded(result_view(*result)),
        }
    }
}

impl SyncPhase {
    /// The error of a failure in this phase.
    pub open spec fn error(self, cause: Seq<char>) -> SyncErrorView {
        match self {
            SyncPhase::Open => SyncErrorView::RepositoryNotFound(cause),
            SyncPhase::FindRemote => SyncErrorView::RemoteNotFound(cause),
            SyncPhase::Fetch => SyncErrorView::FetchFailed(cause),
            SyncPhase::ResolveHeads => SyncErrorView::ResolveFailed(cause),
            SyncPhase::StartRebase => SyncErrorView::RebaseStartFailed(cause),
            SyncPhase::Replay => SyncErrorView::RebaseConflict(cause),
            SyncPhase::FinishRebase => SyncErrorView::RebaseFinishFailed(cause),
        }
    }

    /// The event says how the operation of this phase went. Only a replay
    /// can find that nothing is left.
    pub open spec fn answered_by(self, event: SyncEventView) -> bool {
        event is Exhausted ==> self == SyncPhase::Replay
    }

    /// Where the synchronisation stands once `event` has come in. A failure
    /// ends it with the error of this phase. A replay that succeeded is
    /// followed by another; the rebase is finished once nothing is left to
    /// replay. An event that does not answer the operation of this phase
    /// changes nothing.
    pub open spec fn after(self, event: SyncEventView) -> SyncProgressView {
        match event {
            SyncEventView::Failed { cause } => SyncProgressView::Concluded(
                Err(self.error(cause)),
            ),
            SyncEventView::Exhausted => if self == SyncPhase::Replay {
                SyncProgressView::Awaiting(SyncPhase::FinishRebase)
            } else {
                SyncProgressView::Awaiting(self)
            },
            SyncEventView::Succeeded => match self {
                SyncPhase::Open => SyncProgressView::Awaiting(SyncPhase::FindRemote),
                SyncPhase::FindRemote => SyncProgressView::Awaiting(SyncPhase::Fetch),
                SyncPhase::Fetch => SyncProgressView::Awaiting(SyncPhase::ResolveHeads),
                SyncPhase::ResolveHeads => SyncProgressView::Awaiting(SyncPhase::StartRebase),
                SyncPhase::StartRebase => SyncProgressView::Awaiting(SyncPhase::Replay),
                SyncPhase::Replay => SyncProgressView::Awaiting(SyncPhase::Replay),
                SyncPhase::FinishRebase => SyncProgressView::Concluded(Ok(())),
            },
        }
    }

    /// Makes the error of a failure in this phase.
    pub fn fail(self, cause: String) -> (r: SyncError)
        ensures
            r@ == self.error(cause@),
    {
        match self {
            SyncPhase::Open => SyncError::RepositoryNotFound(cause),
            SyncPhase::FindRemote => SyncError::RemoteNotFound(cause),
            SyncPhase::Fetch => SyncError::FetchFailed(cause),
            SyncPhase::ResolveHeads => SyncError::ResolveFailed(cause),
            SyncPhase::StartRebase => SyncError::RebaseStartFailed(cause),
            SyncPhase::Replay => SyncError::RebaseConflict(cause),
            SyncPhase::FinishRebase => SyncError::RebaseFinishFailed(cause),
        }
    }

    /// Takes the answer to the operation of this phase and says what comes
    /// next.
    pub fn step(self, event: SyncEvent) -> (r: SyncProgress)
        ensures
            r@ == self.after(event@),
    {
        match event {
            SyncEvent::Failed { cause } => SyncProgress::Concluded(Err(self.fail(cause))),
            SyncEvent::Exhausted => {
                if self == SyncPhase::Replay {
                    SyncProgress::Awaiting(SyncPhase::FinishRebase)
                } else {
                    SyncProgress::Awaiting(self)
                }
            },
            SyncEvent::Succeeded => match self {
                SyncPhase::Open => SyncProgress::Awaiting(SyncPhase::FindRemote),
                SyncPhase::FindRemote => SyncProgress::Awaiting(SyncPhase::Fetch),
                SyncPhase::Fetch => SyncProgress::Awaiting(SyncPhase::ResolveHeads),
                SyncPhase::ResolveHeads => SyncProgress::Awaiting(SyncPhase::StartRebase),
                SyncPhase::StartRebase => SyncProgress::Awaiting(SyncPhase::Replay),
                SyncPhase::Replay => SyncProgress::Awaiting(SyncPhase::Replay),
                SyncPhase::FinishRebase => SyncProgress::Concluded(Ok(())),
            },
        }
    }
}

/// What a `SyncSession` stands for.
pub struct SyncSessionView {
    /// The path of the repository.
    pub repo: Seq<char>,
    /// The name of the remote.
    pub remote: Seq<char>,
    /// The branch that is fetched.
    pub branch: Seq<char>,
    /// How far the synchronisation has come.
    pub progress: SyncProgressView,
}

impl SyncSessionView {
    /// A session before any operation.
    pub open spec fn start(repo: Seq<char>, remote: Seq<char>, branch: Seq<char>) -> SyncSessionView {
        SyncSessionView { repo, remote, branch, progress: SyncProgressView::Awaiting(SyncPhase::Open) }
    }

    /// The operation that is due. The fetch brings every tag and takes its
    /// key from the SSH agent; what was fetched is found under `FETCH_HEAD`;
    /// the branch that is checked out is rebased with the fetched commit as
    /// its upstream; each step is committed under the configured identity,
    /// with the author and the message of the commit it replays.
    pub open spec fn action(self) -> SyncActionView {
        match self.progress {
            SyncProgressView::Concluded(_) => SyncActionView::Finish,
            SyncProgressView::Awaiting(SyncPhase::Open) => SyncActionView::OpenRepository {
                path: self.repo,
            },
            SyncProgressView::Awaiting(SyncPhase::FindRemote) => SyncActionView::FindRemote {
                name: self.remote,
            },
            SyncProgressView::Awaiting(SyncPhase::Fetch) => SyncActionView::Fetch {
                branch: self.branch,
                tags: TagPolicy::All,
                credentials: Credentials::SshAgent,
            },
            SyncProgressView::Awaiting(SyncPhase::ResolveHeads) => SyncActionView::ResolveHeads {
                fetched: "FETCH_HEAD"@,
            },
            SyncProgressView::Awaiting(SyncPhase::StartRebase) => SyncActionView::StartRebase {
                rebased: None,
                upstream: Some(Commit::Fetched),
                onto: None,
            },
            SyncProgressView::Awaiting(SyncPhase::Replay) => SyncActionView::ReplayNext {
                author: None,
                committer: Identity::Configured,
                message: None,
            },
            SyncProgressView::Awaiting(SyncPhase::FinishRebase) => SyncActionView::FinishRebase,
        }
    }

    /// The session once `event` has come in. Nothing moves a session that
    /// has ended.
    pub open spec fn step(self, event: SyncEventView) -> SyncSessionView {
        match self.progress {
            SyncProgressView::Awaiting(phase) => SyncSessionView {
                progress: phase.after(event),
                ..self
            },
            SyncProgressView::Concluded(_) => self,
        }
    }

    /// How the synchronisation ended, once it has.
    pub open spec fn result(self) -> Option<Result<(), SyncErrorView>> {
        match self.progress {
            SyncProgressView::Awaiting(_) => None,
            SyncProgressView::Concluded(result) => Some(result),
        }
    }
}

/// One synchronisation of a repository with a branch of a remote.
#[derive(Debug)]
pub struct SyncSession {
    repo: String,
    remote: String,
    branch: String,
    progress: SyncProgress,
}

impl View for SyncSession {
    type V = SyncSessionView;

    closed spec fn view(&self) -> SyncSessionView {
        SyncSessionView {
            repo: self.repo@,
            remote: self.remote@,
            branch: self.branch@,
            progress: self.progress@,
        }
    }
}

impl SyncSession {
    /// A session that will bring the current branch of the repository at
    /// `repo` up to date with `branch` of the remote called `remote`.
    pub fn new(repo: String, remote: String, branch: String) -> (r: SyncSession)
        ensures
            r@ == SyncSessionView::start(repo@, remote@, branch@),
    {
        SyncSession { repo, remote, branch, progress: SyncProgress::Awaiting(SyncPhase::Open) }
    }

    /// The operation on the repository that is due.
    pub fn action(&self) -> (r: SyncAction)
        ensures
            r@ == self@.action(),
    {
        match &self.progress {
            SyncProgress::Concluded(_) => SyncAction::Finish,
            SyncProgress::Awaiting(phase) => match phase {
                SyncPhase::Open => SyncAction::OpenRepository { path: self.repo.clone() },
                SyncPhase::FindRemote => SyncAction::FindRemote { name: self.remote.clone() },
                SyncPhase::Fetch => SyncAction::Fetch {
                    branch: self.branch.clone(),
                    tags: TagPolicy::All,
                    credentials: Credentials::SshAgent,
                },
                SyncPhase::ResolveHeads => SyncAction::ResolveHeads {
                    fetched: "FETCH_HEAD".to_owned(),
                },
                SyncPhase::StartRebase => SyncAction::StartRebase {
                    rebased: None,
                    upstream: Some(Commit::Fetched),
                    onto: None,
                },
                SyncPhase::Replay => SyncAction::ReplayNext {
                    author: None,
                    committer: Identity::Configured,
                    message: None,
                },
                SyncPhase::FinishRebase => SyncAction::FinishRebase,
            },
        }
    }

    /// Takes what the repository answered to the operation that was due.
    pub fn step(self, event: SyncEvent) -> (r: SyncSession)
        ensures
            r@ == self@.step(event@),
    {
        let SyncSession { repo, remote, branch, progress } = self;
        match progress {
            SyncProgress::Awaiting(phase) => SyncSession {
                repo,
                remote,
                branch,
                progress: phase.step(event),
            },
            concluded => SyncSession { repo, remote, branch, progress: concluded },
        }
    }

    /// Whether the synchronisation has ended.
    pub fn finished(&self) -> (r: bool)
        ensures
            r == self@.result().is_some(),
    {
        match &self.progress {
            SyncProgress::Awaiting(_) => false,
            SyncProgress::Concluded(_) => true,
        }
    }

    /// How the synchronisation ended; `None` while an operation is due.
    pub fn result(self) -> (r: Option<Result<(), SyncError>>)
        ensures
            match r {
                Some(result) => self@.result() == Some(result_view(result)),
                None => self@.result().is_none(),
            },
    {
        match self.progress {
            SyncProgress::Awaiting(_) => None,
            SyncProgress::Concluded(result) => Some(result),
        }
    }
}

/// The user under which the SSH agent is asked for a key: the one that the
/// address of the remote names, and `git` where it names none.
pub fn agent_username<'a>(from_url: Option<&'a str>) -> (r: &'a str)
    ensures
        r@ == match from_url {
            Some(user) => user@,
            None => "git"@,
        },
{
    match from_url {
        Some(user) => user,
        None => "git",
    }
}

} // verus!
