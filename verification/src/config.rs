//! The configuration: where the managed repository lies and which
//! applications are tracked.
use crate::sync::{SyncError, SyncSession, SyncSessionView};
use crate::track::{Tracker, TrackerView};
use vstd::prelude::*;

verus! {

/// Why a configuration value was turned down.
#[derive(Debug, Clone, Copy, PartialEq, Eq, Structural)]
pub enum ConfigError {
    /// An entry names one path as both its source and its destination.
    SamePath,
    /// Two entries of the collection share a key.
    DuplicateKey,
}

/// What a `GameEntry` stands for.
pub struct GameEntryView {
    /// A label for people to read.
    pub name: Seq<char>,
    /// The path inside the managed repository that holds the save data.
    pub source: Seq<char>,
    /// The path where the application looks for its save data.
    pub destination: Seq<char>,
    /// Whether the entry takes part in tracking.
    pub enabled: bool,
}

impl GameEntryView {
    /// The two paths of an entry differ.
    pub open spec fn wf(self) -> bool {
        self.source != self.destination
    }
}

/// One tracked application: a label, the two paths its save data moves
/// between, and a switch. The two paths always differ.
#[derive(Debug)]
pub struct GameEntry {
    name: String,
    source: String,
    destination: String,
    enabled: bool,
}

impl View for GameEntry {
    type V = GameEntryView;

    closed spec fn view(&self) -> GameEntryView {
        GameEntryView {
            name: self.name@,
            source: self.source@,
            destination: self.destination@,
            enabled: self.enabled,
        }
    }
}

impl GameEntry {
    #[verifier::type_invariant]
    closed spec fn inv(self) -> bool {
        self@.wf()
    }

    /// Makes an entry, unless `source` and `destination` are one path.
    pub fn new(name: String, source: String, destination: String, enabled: bool) -> (r: Result<
        GameEntry,
        ConfigError,
    >)
        ensures
            source@ == destination@ ==> r == Err::<GameEntry, ConfigError>(ConfigError::SamePath),
            source@ != destination@ ==> r is Ok && r->Ok_0@ == (GameEntryView {
                name: name@,
                source: source@,
                destination: destination@,
                enabled,
            }),
    {
        if source == destination {
            Err(ConfigError::SamePath)
        } else {
            Ok(GameEntry { name, source, destination, enabled })
        }
    }

    /// A label for people to read.
    pub fn name(&self) -> (r: &str)
        ensures
            r@ == self@.name,
    {
        self.name.as_str()
    }

    /// The path inside the managed repository that holds the save data.
    pub fn source(&self) -> (r: &str)
        ensures
            r@ == self@.source,
            self@.wf(),
    {
        proof {
            use_type_invariant(self);
        }
        self.source.as_str()
    }

    /// The path where the application looks for its save data.
    pub fn destination(&self) -> (r: &str)
        ensures
            r@ == self@.destination,
            self@.wf(),
    {
        proof {
            use_type_invariant(self);
        }
        self.destination.as_str()
    }

    /// Whether the entry takes part in tracking.
    pub fn enabled(&self) -> (r: bool)
        ensures
            r == self@.enabled,
    {
        self.enabled
    }
}

/// What a `Config` stands for.
pub struct ConfigView {
    /// The path of the managed repository.
    pub repo: Seq<char>,
    /// The entries with their keys, in order.
    pub games: Seq<(Seq<char>, GameEntryView)>,
}

impl ConfigView {
    /// The keys, in order.
    pub open spec fn keys(self) -> Seq<Seq<char>> {
        Seq::new(self.games.len(), |i: int| self.games[i].0)
    }

    /// The entries, in order.
    pub open spec fn entries(self) -> Seq<GameEntryView> {
        Seq::new(self.games.len(), |i: int| self.games[i].1)
    }

    /// No key occurs twice, and the two paths of each entry differ.
    pub open spec fn wf(self) -> bool {
        &&& distinct_keys(self.keys())
        &&& forall|i: int| 0 <= i < self.games.len() ==> (#[trigger] self.games[i]).1.wf()
    }
}

/// No key occurs twice.
pub open spec fn distinct_keys(keys: Seq<Seq<char>>) -> bool {
    forall|i: int, j: int| 0 <= i < j < keys.len() ==> keys[i] != keys[j]
}

/// The keys of a keyed collection of entries, in order.
pub open spec fn key_views(games: Seq<(String, GameEntry)>) -> Seq<Seq<char>> {
    Seq::new(games.len(), |i: int| games[i].0@)
}

/// A keyed collection of entries as what it stands for.
pub open spec fn game_views(games: Seq<(String, GameEntry)>) -> Seq<(Seq<char>, GameEntryView)> {
    Seq::new(games.len(), |i: int| (games[i].0@, games[i].1@))
}

/// The path of the managed repository and the tracked applications, each
/// under a key of its own, in a fixed order.
#[derive(Debug)]
pub struct Config {
    repo: String,
    games: Vec<(String, GameEntry)>,
}

impl View for Config {
    type V = ConfigView;

    closed spec fn view(&self) -> ConfigView {
        ConfigView { repo: self.repo@, games: game_views(self.games@) }
    }
}

impl Config {
    #[verifier::type_invariant]
    closed spec fn inv(self) -> bool {
        self@.wf()
    }

    /// Makes a configuration, unless two of the entries share a key.
    pub fn new(repo: String, games: Vec<(String, GameEntry)>) -> (r: Result<Config, ConfigError>)
        ensures
            !distinct_keys(key_views(games@)) ==> r == Err::<Config, ConfigError>(
                ConfigError::DuplicateKey,
            ),
            distinct_keys(key_views(games@)) ==> r is Ok && r->Ok_0@ == (ConfigView {
                repo: repo@,
                games: game_views(games@),
            }),
    {
        let ghost keys = key_views(games@);
        let mut j: usize = 0;
        while j < games.len()
            invariant
                j <= games.len(),
                keys == key_views(games@),
                forall|a: int, b: int| 0 <= a < b < j ==> keys[a] != keys[b],
                forall|a: int| 0 <= a < j ==> (#[trigger] games@[a]).1@.wf(),
            decreases games.len() - j,
        {
            let entry = &games[j].1;
            proof {
                use_type_invariant(entry);
            }
            let mut i: usize = 0;
            while i < j
                invariant
                    i <= j < games.len(),
                    keys == key_views(games@),
                    forall|a: int| 0 <= a < i ==> keys[a] != keys[j as int],
                decreases j - i,
            {
                if games[i].0 == games[j].0 {
                    assert(keys[i as int] == keys[j as int]);
                    return Err(ConfigError::DuplicateKey);
                }
                i += 1;
            }
            j += 1;
        }
        let ghost view = ConfigView { repo: repo@, games: game_views(games@) };
        proof {
            assert(view.keys() =~= keys);
            assert forall|i: int| 0 <= i < view.games.len() implies (#[trigger] view.games[i]).1.wf() by {
                assert(games@[i].1@.wf());
            }
        }
        Ok(Config { repo, games })
    }

    /// The path of the managed repository.
    pub fn repo(&self) -> (r: &str)
        ensures
            r@ == self@.repo,
    {
        self.repo.as_str()
    }

    /// The entries with their keys, in order.
    pub fn games(&self) -> (r: &Vec<(String, GameEntry)>)
        ensures
            game_views(r@) == self@.games,
            self@.wf(),
    {
        proof {
            use_type_invariant(self);
        }
        &self.games
    }

    /// The keys of the entries, in order.
    pub fn list(&self) -> (keys: Vec<&str>)
        ensures
            keys@.len() == self@.keys().len(),
            forall|i: int| 0 <= i < keys@.len() ==> keys@[i]@ == self@.keys()[i],
    {
        let mut keys: Vec<&str> = Vec::new();
        let mut i: usize = 0;
        while i < self.games.len()
            invariant
                i <= self.games.len(),
                keys@.len() == i,
                forall|k: int| 0 <= k < i ==> keys@[k]@ == self.games@[k].0@,
            decreases self.games.len() - i,
        {
            keys.push(self.games[i].0.as_str());
            i += 1;
        }
        keys
    }

    /// Starts tracking the enabled entries. `symlinks` says whether the
    /// platform has symbolic links.
    pub fn track(&self, symlinks: bool) -> (r: Tracker<'_>)
        ensures
            r@ == TrackerView::start(self@.entries(), symlinks),
            r@.wf(),
    {
        Tracker::new(self, symlinks)
    }

    /// Starts bringing the current branch of the repository up to date with
    /// the branch `main` of the remote `origin`.
    pub fn pull(&self) -> (r: SyncSession)
        ensures
            r@ == SyncSessionView::start(self@.repo, "origin"@, "main"@),
    {
        SyncSession::new(self.repo.clone(), "origin".to_owned(), "main".to_owned())
    }

    /// Does nothing and succeeds: no change is staged and no remote is
    /// contacted.
    pub fn push(&self) -> (r: Result<(), SyncError>)
        ensures
            r is Ok,
    {
        Ok(())
    }
}

} // verus!
