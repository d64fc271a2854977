use saves_sync::config::{Config, GameEntry};
use saves_sync::sync::{
    agent_username, Commit, Credentials, Identity, SyncAction, SyncError, SyncEvent, SyncPhase,
    SyncProgress, SyncSession, TagPolicy,
};

fn failed(cause: &str) -> SyncEvent {
    SyncEvent::Failed { cause: cause.to_string() }
}

fn session() -> SyncSession {
    SyncSession::new("/repo".to_string(), "origin".to_string(), "main".to_string())
}

/// Feeds `events` to a new session and gives the operations that were due
/// before each of them, and the session after the last.
fn feed(events: Vec<SyncEvent>) -> (Vec<SyncAction>, SyncSession) {
    let mut s = session();
    let mut due = Vec::new();
    for event in events {
        due.push(s.action());
        s = s.step(event);
    }
    (due, s)
}

fn replay() -> SyncAction {
    SyncAction::ReplayNext { author: None, committer: Identity::Configured, message: None }
}

fn setup() -> Vec<SyncAction> {
    vec![
        SyncAction::OpenRepository { path: "/repo".to_string() },
        SyncAction::FindRemote { name: "origin".to_string() },
        SyncAction::Fetch {
            branch: "main".to_string(),
            tags: TagPolicy::All,
            credentials: Credentials::SshAgent,
        },
        SyncAction::ResolveHeads { fetched: "FETCH_HEAD".to_string() },
        SyncAction::StartRebase { rebased: None, upstream: Some(Commit::Fetched), onto: None },
    ]
}

#[test]
fn pull_goes_to_origin_and_main() {
    let games = vec![(
        "foo".to_string(),
        GameEntry::new("Foo".to_string(), "/r/f".to_string(), "/h/f".to_string(), true).unwrap(),
    )];
    let config = Config::new("/srv/saves".to_string(), games).unwrap();
    let mut s = config.pull();
    assert_eq!(s.action(), SyncAction::OpenRepository { path: "/srv/saves".to_string() });
    s = s.step(SyncEvent::Succeeded);
    assert_eq!(s.action(), SyncAction::FindRemote { name: "origin".to_string() });
    s = s.step(SyncEvent::Succeeded);
    assert_eq!(
        s.action(),
        SyncAction::Fetch {
            branch: "main".to_string(),
            tags: TagPolicy::All,
            credentials: Credentials::SshAgent,
        }
    );
}

#[test]
fn a_new_session_opens_the_repository_first() {
    let s = SyncSession::new("/elsewhere".to_string(), "upstream".to_string(), "dev".to_string());
    assert!(!s.finished());
    assert_eq!(s.action(), SyncAction::OpenRepository { path: "/elsewhere".to_string() });
    assert_eq!(s.result(), None);
}

#[test]
fn a_session_asks_for_its_own_remote_and_branch() {
    let mut s =
        SyncSession::new("/elsewhere".to_string(), "upstream".to_string(), "dev".to_string());
    s = s.step(SyncEvent::Succeeded);
    assert_eq!(s.action(), SyncAction::FindRemote { name: "upstream".to_string() });
    s = s.step(SyncEvent::Succeeded);
    assert_eq!(
        s.action(),
        SyncAction::Fetch {
            branch: "dev".to_string(),
            tags: TagPolicy::All,
            credentials: Credentials::SshAgent,
        }
    );
}

#[test]
fn success_with_nothing_to_replay() {
    let events = vec![
        SyncEvent::Succeeded,
        SyncEvent::Succeeded,
        SyncEvent::Succeeded,
        SyncEvent::Succeeded,
        SyncEvent::Succeeded,
        SyncEvent::Exhausted,
        SyncEvent::Succeeded,
    ];
    let (due, s) = feed(events);
    let mut expected = setup();
    expected.push(replay());
    expected.push(SyncAction::FinishRebase);
    assert_eq!(due, expected);
    assert!(s.finished());
    assert_eq!(s.action(), SyncAction::Finish);
    assert_eq!(s.result(), Some(Ok(())));
}

#[test]
fn success_replays_each_step_before_it_finishes() {
    let mut events = vec![SyncEvent::Succeeded; 5];
    events.extend(vec![SyncEvent::Succeeded; 3]);
    events.push(SyncEvent::Exhausted);
    events.push(SyncEvent::Succeeded);
    let (due, s) = feed(events);
    let mut expected = setup();
    for _ in 0..4 {
        expected.push(replay());
    }
    expected.push(SyncAction::FinishRebase);
    assert_eq!(due, expected);
    assert_eq!(s.result(), Some(Ok(())));
}

#[test]
fn a_session_is_not_done_while_steps_are_replayed() {
    let (_, s) = feed(vec![SyncEvent::Succeeded; 40]);
    assert!(!s.finished());
    assert_eq!(s.action(), replay());
    assert_eq!(s.result(), None);
}

#[test]
fn a_repository_that_does_not_open_is_not_found() {
    let (due, s) = feed(vec![failed("no repository at /repo")]);
    assert_eq!(due, setup()[..1].to_vec());
    assert!(s.finished());
    assert_eq!(s.action(), SyncAction::Finish);
    assert_eq!(
        s.result(),
        Some(Err(SyncError::RepositoryNotFound("no repository at /repo".to_string())))
    );
}

#[test]
fn a_missing_remote_is_not_found() {
    let (due, s) = feed(vec![SyncEvent::Succeeded, failed("remote 'origin' does not exist")]);
    assert_eq!(due, setup()[..2].to_vec());
    assert_eq!(
        s.result(),
        Some(Err(SyncError::RemoteNotFound("remote 'origin' does not exist".to_string())))
    );
}

#[test]
fn fetch_failure_ends_the_pull_before_any_rebase() {
    let (due, s) = feed(vec![SyncEvent::Succeeded, SyncEvent::Succeeded, failed("network down")]);
    assert_eq!(due, setup()[..3].to_vec());
    assert!(due.iter().all(|action| !action.rebases()));
    assert!(s.finished());
    assert_eq!(s.action(), SyncAction::Finish);
    assert!(!s.action().rebases());
    assert_eq!(s.result(), Some(Err(SyncError::FetchFailed("network down".to_string()))));
}

#[test]
fn heads_that_do_not_resolve_end_the_pull() {
    let (due, s) = feed(vec![
        SyncEvent::Succeeded,
        SyncEvent::Succeeded,
        SyncEvent::Succeeded,
        failed("reference 'FETCH_HEAD' not found"),
    ]);
    assert_eq!(due, setup()[..4].to_vec());
    assert_eq!(
        s.result(),
        Some(Err(SyncError::ResolveFailed("reference 'FETCH_HEAD' not found".to_string())))
    );
}

#[test]
fn a_rebase_that_does_not_start_ends_the_pull() {
    let mut events = vec![SyncEvent::Succeeded; 4];
    events.push(failed("a rebase is in progress"));
    let (due, s) = feed(events);
    assert_eq!(due, setup());
    assert_eq!(
        s.result(),
        Some(Err(SyncError::RebaseStartFailed("a rebase is in progress".to_string())))
    );
}

#[test]
fn a_step_that_does_not_apply_is_a_conflict() {
    let mut events = vec![SyncEvent::Succeeded; 7];
    events.push(failed("conflict in save.dat"));
    let (due, s) = feed(events);
    assert_eq!(due.len(), 8);
    assert_eq!(due[7], replay());
    assert!(s.finished());
    assert_eq!(s.action(), SyncAction::Finish);
    assert_eq!(s.result(), Some(Err(SyncError::RebaseConflict("conflict in save.dat".to_string()))));
}

#[test]
fn a_conflict_on_the_first_step_is_a_conflict() {
    let mut events = vec![SyncEvent::Succeeded; 5];
    events.push(failed("conflict"));
    let (_, s) = feed(events);
    assert_eq!(s.result(), Some(Err(SyncError::RebaseConflict("conflict".to_string()))));
}

#[test]
fn a_rebase_that_does_not_finish_ends_the_pull() {
    let mut events = vec![SyncEvent::Succeeded; 6];
    events.push(SyncEvent::Exhausted);
    events.push(failed("cannot update refs"));
    let (due, s) = feed(events);
    assert_eq!(due[7], SyncAction::FinishRebase);
    assert_eq!(
        s.result(),
        Some(Err(SyncError::RebaseFinishFailed("cannot update refs".to_string())))
    );
}

#[test]
fn nothing_moves_a_session_that_has_ended() {
    let (_, s) = feed(vec![SyncEvent::Succeeded, failed("first")]);
    let s = s.step(SyncEvent::Succeeded);
    let s = s.step(failed("second"));
    let s = s.step(SyncEvent::Exhausted);
    assert_eq!(s.action(), SyncAction::Finish);
    assert_eq!(s.result(), Some(Err(SyncError::RemoteNotFound("first".to_string()))));
}

#[test]
fn nothing_left_means_nothing_before_the_replay() {
    let (due, s) = feed(vec![SyncEvent::Exhausted, SyncEvent::Succeeded, SyncEvent::Exhausted]);
    assert_eq!(
        due,
        vec![
            SyncAction::OpenRepository { path: "/repo".to_string() },
            SyncAction::OpenRepository { path: "/repo".to_string() },
            SyncAction::FindRemote { name: "origin".to_string() },
        ]
    );
    assert_eq!(s.action(), SyncAction::FindRemote { name: "origin".to_string() });
}

#[test]
fn nothing_left_means_nothing_when_the_rebase_is_being_finished() {
    let mut events = vec![SyncEvent::Succeeded; 5];
    events.push(SyncEvent::Exhausted);
    events.push(SyncEvent::Exhausted);
    let (_, s) = feed(events);
    assert!(!s.finished());
    assert_eq!(s.action(), SyncAction::FinishRebase);
}

#[test]
fn each_phase_steps_to_the_next() {
    let order = [
        SyncPhase::Open,
        SyncPhase::FindRemote,
        SyncPhase::Fetch,
        SyncPhase::ResolveHeads,
        SyncPhase::StartRebase,
        SyncPhase::Replay,
    ];
    for pair in order.windows(2) {
        assert_eq!(pair[0].step(SyncEvent::Succeeded), SyncProgress::Awaiting(pair[1]));
    }
    assert_eq!(
        SyncPhase::Replay.step(SyncEvent::Succeeded),
        SyncProgress::Awaiting(SyncPhase::Replay)
    );
    assert_eq!(
        SyncPhase::Replay.step(SyncEvent::Exhausted),
        SyncProgress::Awaiting(SyncPhase::FinishRebase)
    );
    assert_eq!(SyncPhase::FinishRebase.step(SyncEvent::Succeeded), SyncProgress::Concluded(Ok(())));
}

#[test]
fn each_phase_fails_with_its_own_error() {
    let c = "why".to_string();
    assert_eq!(SyncPhase::Open.fail(c.clone()), SyncError::RepositoryNotFound(c.clone()));
    assert_eq!(SyncPhase::FindRemote.fail(c.clone()), SyncError::RemoteNotFound(c.clone()));
    assert_eq!(SyncPhase::Fetch.fail(c.clone()), SyncError::FetchFailed(c.clone()));
    assert_eq!(SyncPhase::ResolveHeads.fail(c.clone()), SyncError::ResolveFailed(c.clone()));
    assert_eq!(SyncPhase::StartRebase.fail(c.clone()), SyncError::RebaseStartFailed(c.clone()));
    assert_eq!(SyncPhase::Replay.fail(c.clone()), SyncError::RebaseConflict(c.clone()));
    assert_eq!(SyncPhase::FinishRebase.fail(c.clone()), SyncError::RebaseFinishFailed(c.clone()));
    assert_eq!(
        SyncPhase::Fetch.step(failed("why")),
        SyncProgress::Concluded(Err(SyncError::FetchFailed(c)))
    );
}

#[test]
fn an_error_hands_out_its_cause() {
    assert_eq!(SyncError::RepositoryNotFound("a".to_string()).cause(), "a");
    assert_eq!(SyncError::RemoteNotFound("b".to_string()).cause(), "b");
    assert_eq!(SyncError::FetchFailed("c".to_string()).cause(), "c");
    assert_eq!(SyncError::ResolveFailed("d".to_string()).cause(), "d");
    assert_eq!(SyncError::RebaseStartFailed("e".to_string()).cause(), "e");
    assert_eq!(SyncError::RebaseConflict("f".to_string()).cause(), "f");
    assert_eq!(SyncError::RebaseFinishFailed(String::new()).cause(), "");
}

#[test]
fn an_error_says_what_failed_and_why() {
    let c = || "why".to_string();
    assert_eq!(SyncError::RepositoryNotFound(c()).text(), "Failed to open repo: why");
    assert_eq!(SyncError::RemoteNotFound(c()).text(), "Failed to find remote: why");
    assert_eq!(SyncError::FetchFailed("network down".to_string()).text(), "Failed to fetch: network down");
    assert_eq!(SyncError::ResolveFailed(c()).text(), "Failed to resolve heads: why");
    assert_eq!(SyncError::RebaseStartFailed(c()).text(), "Failed to start rebase: why");
    assert_eq!(SyncError::RebaseConflict(c()).text(), "Failed to replay commit: why");
    assert_eq!(SyncError::RebaseFinishFailed(String::new()).text(), "Failed to finish rebase: ");
    assert_eq!(SyncError::FetchFailed(c()).failure(), "Failed to fetch");
}

#[test]
fn only_the_operations_of_a_rebase_rebase() {
    assert!(!SyncAction::OpenRepository { path: "p".to_string() }.rebases());
    assert!(!SyncAction::FindRemote { name: "n".to_string() }.rebases());
    assert!(!SyncAction::Fetch {
        branch: "b".to_string(),
        tags: TagPolicy::All,
        credentials: Credentials::SshAgent
    }
    .rebases());
    assert!(!SyncAction::ResolveHeads { fetched: "FETCH_HEAD".to_string() }.rebases());
    assert!(SyncAction::StartRebase { rebased: None, upstream: Some(Commit::Fetched), onto: None }
        .rebases());
    assert!(replay().rebases());
    assert!(SyncAction::FinishRebase.rebases());
    assert!(!SyncAction::Finish.rebases());
}

#[test]
fn the_agent_is_asked_as_the_user_of_the_address() {
    assert_eq!(agent_username(Some("alice")), "alice");
    assert_eq!(agent_username(Some("")), "");
}

#[test]
fn the_agent_is_asked_as_git_where_the_address_names_nobody() {
    assert_eq!(agent_username(None), "git");
}

/// A repository in memory that carries out what a session asks for and keeps
/// a record of it. A history is written oldest commit first.
#[derive(Clone, Debug, PartialEq)]
struct MemRepo {
    remote: Vec<&'static str>,
    branch: Vec<&'static str>,
    fetched: Option<Vec<&'static str>>,
    onto: Vec<&'static str>,
    pending: Vec<&'static str>,
    replayed: Vec<&'static str>,
    rebasing: bool,
    network_down: bool,
    conflict_in: Option<&'static str>,
    asked: Vec<SyncAction>,
}

impl MemRepo {
    fn new(remote: &[&'static str], branch: &[&'static str]) -> MemRepo {
        MemRepo {
            remote: remote.to_vec(),
            branch: branch.to_vec(),
            fetched: None,
            onto: Vec::new(),
            pending: Vec::new(),
            replayed: Vec::new(),
            rebasing: false,
            network_down: false,
            conflict_in: None,
            asked: Vec::new(),
        }
    }

    fn answer(&mut self, action: &SyncAction) -> SyncEvent {
        self.asked.push(action.clone());
        match action {
            SyncAction::OpenRepository { .. } => SyncEvent::Succeeded,
            SyncAction::FindRemote { .. } => SyncEvent::Succeeded,
            SyncAction::Fetch { .. } => {
                if self.network_down {
                    return failed("network down");
                }
                self.fetched = Some(self.remote.clone());
                SyncEvent::Succeeded
            }
            SyncAction::ResolveHeads { .. } => match self.fetched {
                Some(_) => SyncEvent::Succeeded,
                None => failed("reference 'FETCH_HEAD' not found"),
            },
            SyncAction::StartRebase { rebased: None, upstream: Some(Commit::Fetched), onto: None } => {
                let upstream = self.fetched.clone().expect("the heads were resolved");
                self.pending =
                    self.branch.iter().filter(|c| !upstream.contains(c)).cloned().collect();
                self.onto = upstream;
                self.replayed = Vec::new();
                self.rebasing = true;
                SyncEvent::Succeeded
            }
            SyncAction::StartRebase { .. } => panic!("the rebase is started with other commits"),
            SyncAction::ReplayNext { author: None, committer: Identity::Configured, message: None } => {
                assert!(self.rebasing);
                if self.pending.is_empty() {
                    return SyncEvent::Exhausted;
                }
                if self.conflict_in == Some(self.pending[0]) {
                    return failed("conflict");
                }
                let step = self.pending.remove(0);
                self.replayed.push(step);
                SyncEvent::Succeeded
            }
            SyncAction::ReplayNext { .. } => panic!("the commit is replayed in another way"),
            SyncAction::FinishRebase => {
                assert!(self.rebasing);
                self.branch = self.onto.clone();
                self.branch.extend(self.replayed.iter().cloned());
                self.rebasing = false;
                SyncEvent::Succeeded
            }
            SyncAction::Finish => panic!("nothing is asked of the repository at the end"),
        }
    }
}

fn pull(repo: &mut MemRepo) -> Result<(), SyncError> {
    let mut s = session();
    let mut budget = 1000;
    while !s.finished() {
        assert!(budget > 0, "the session does not come to an end");
        budget -= 1;
        let event = repo.answer(&s.action());
        s = s.step(event);
    }
    s.result().expect("the session has ended")
}

#[test]
fn a_pull_puts_the_local_commits_on_top_of_the_remote_history() {
    let mut repo = MemRepo::new(&["a", "b", "c"], &["a", "x", "y"]);
    assert_eq!(pull(&mut repo), Ok(()));
    assert_eq!(repo.branch, vec!["a", "b", "c", "x", "y"]);
    assert!(!repo.rebasing);
    assert_eq!(repo.asked.len(), 7 + 2);
    assert_eq!(repo.asked.iter().filter(|a| **a == replay()).count(), 3);
}

#[test]
fn a_pull_with_nothing_local_takes_the_remote_history() {
    let mut repo = MemRepo::new(&["a", "b"], &["a"]);
    assert_eq!(pull(&mut repo), Ok(()));
    assert_eq!(repo.branch, vec!["a", "b"]);
    assert_eq!(repo.asked.len(), 7);
}

#[test]
fn a_pull_with_nothing_new_at_the_remote_keeps_the_history() {
    let mut repo = MemRepo::new(&["a"], &["a", "x", "y", "z"]);
    assert_eq!(pull(&mut repo), Ok(()));
    assert_eq!(repo.branch, vec!["a", "x", "y", "z"]);
    assert_eq!(repo.asked.len(), 7 + 3);
}

#[test]
fn a_fetch_that_fails_leaves_the_repository_as_it_was() {
    let mut repo = MemRepo::new(&["a", "b", "c"], &["a", "x", "y"]);
    repo.network_down = true;
    let before = repo.clone();
    assert_eq!(pull(&mut repo), Err(SyncError::FetchFailed("network down".to_string())));
    assert_eq!(repo.asked, setup()[..3].to_vec());
    repo.asked.clear();
    assert_eq!(repo, before);
}

#[test]
fn a_conflict_leaves_the_branch_as_it_was_and_the_rebase_open() {
    let mut repo = MemRepo::new(&["a", "b"], &["a", "x", "y", "z"]);
    repo.conflict_in = Some("y");
    assert_eq!(pull(&mut repo), Err(SyncError::RebaseConflict("conflict".to_string())));
    assert_eq!(repo.branch, vec!["a", "x", "y", "z"]);
    assert!(repo.rebasing);
    assert_eq!(repo.replayed, vec!["x"]);
    assert_eq!(repo.pending, vec!["y", "z"]);
    assert_eq!(repo.asked.last(), Some(&replay()));
    assert!(!repo.asked.contains(&SyncAction::FinishRebase));
}
