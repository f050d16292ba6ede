//! Finding the configuration file: which locations are tried, in which order, and
//! what each answer leads to.
//!
//! The library never touches the file system. Loading is a short exchange: the
//! library names a file, the caller reports whether it exists, or what reading it
//! gave, and the library decides what follows.

use crate::config::{Config, ConfigView, ConfigWithPath, ConfigWithPathView};
use crate::error::{Directory, FxError, FxErrorView};
use crate::load::{content_view, read_config, spec_read_config};
use crate::path::{paths_view, ConfigPath, ConfigPathView};
use std::path::PathBuf;
use vstd::prelude::*;

verus! {

/// The platforms that the search tells apart.
#[derive(Debug, Clone, Copy, PartialEq, Eq, Structural)]
pub enum Platform {
    /// macOS, where a second directory is searched after the conventional one.
    MacOs,
    /// Any other platform.
    Other,
}

/// The name of the directory that holds the configuration.
pub const FELIX: &'static str = "felix";

/// The location `base/first/file`.
pub open spec fn spec_below(base: PathBuf, first: Seq<char>, file: Seq<char>) -> ConfigPathView {
    ConfigPathView { base, segments: seq![first, file] }
}

/// The location `base/first/second/file`.
pub open spec fn spec_further_below(
    base: PathBuf,
    first: Seq<char>,
    second: Seq<char>,
    file: Seq<char>,
) -> ConfigPathView {
    ConfigPathView { base, segments: seq![first, second, file] }
}

/// The two locations that every platform searches, in the order of the search:
/// `felix/config.yaml` and `felix/config.yml` below the configuration directory.
pub open spec fn spec_conventional(config_dir: PathBuf) -> Seq<ConfigPathView> {
    seq![
        spec_below(config_dir, "felix"@, "config.yaml"@),
        spec_below(config_dir, "felix"@, "config.yml"@),
    ]
}

/// The two locations that macOS searches besides: `.config/FELIX/config.yaml` and
/// `.config/FELIX/config.yml` below the home directory.
pub open spec fn spec_fallback(home_dir: PathBuf) -> Seq<ConfigPathView> {
    seq![
        spec_further_below(home_dir, ".config"@, "FELIX"@, "config.yaml"@),
        spec_further_below(home_dir, ".config"@, "FELIX"@, "config.yml"@),
    ]
}

/// The locations that a platform searches, in the order of the search. On macOS
/// the conventional ones come first and those below the home directory after
/// them; elsewhere the home directory plays no part.
pub open spec fn spec_candidates(
    platform: Platform,
    config_dir: PathBuf,
    home_dir: PathBuf,
) -> Seq<ConfigPathView> {
    match platform {
        Platform::MacOs => spec_conventional(config_dir) + spec_fallback(home_dir),
        Platform::Other => spec_conventional(config_dir),
    }
}

/// The locations to search, or the directory that could not be had. The
/// configuration directory is needed everywhere, the home directory on macOS.
pub open spec fn spec_plan(
    platform: Platform,
    config_dir: Option<PathBuf>,
    home_dir: Option<PathBuf>,
) -> Result<Seq<ConfigPathView>, Directory> {
    match config_dir {
        None => Err(Directory::Config),
        Some(config) => match platform {
            Platform::Other => Ok(spec_conventional(config)),
            Platform::MacOs => match home_dir {
                None => Err(Directory::Home),
                Some(home) => Ok(spec_conventional(config) + spec_fallback(home)),
            },
        },
    }
}

/// A file system, as far as loading can tell: which files exist, and what reading
/// each one gives, its text or the reader's message.
pub struct World {
    pub present: Set<ConfigPathView>,
    pub content: spec_fn(ConfigPathView) -> Result<Seq<char>, Seq<char>>,
}

/// The first of the locations from index `from` on that exists.
pub open spec fn spec_first_present(
    candidates: Seq<ConfigPathView>,
    from: int,
    world: World,
) -> Option<ConfigPathView>
    decreases candidates.len() - from,
{
    if from < 0 || from >= candidates.len() {
        None
    } else if world.present.contains(candidates[from]) {
        Some(candidates[from])
    } else {
        spec_first_present(candidates, from + 1, world)
    }
}

/// What loading hands back when no configuration file exists.
pub open spec fn spec_built_in() -> ConfigWithPathView {
    ConfigWithPathView { config_path: None, config: ConfigView::built_in() }
}

/// What loading comes to once the search has ended: the file that was found is
/// read, and where none was found the built-in settings stand in.
pub open spec fn spec_loaded(found: Option<ConfigPathView>, world: World) -> Result<
    ConfigWithPathView,
    FxErrorView,
> {
    match found {
        Some(path) => spec_read_config(path, (world.content)(path)),
        None => Ok(spec_built_in()),
    }
}

/// What loading comes to on a platform that names these directories, in a given
/// file system. A directory that is needed and missing is a failure. Otherwise the
/// first location that exists is read, and where none exists the built-in
/// settings stand in.
pub open spec fn spec_load(
    platform: Platform,
    config_dir: Option<PathBuf>,
    home_dir: Option<PathBuf>,
    world: World,
) -> Result<ConfigWithPathView, FxErrorView> {
    match spec_plan(platform, config_dir, home_dir) {
        Err(directory) => Err(FxErrorView::Dirs(directory)),
        Ok(candidates) => spec_loaded(spec_first_present(candidates, 0, world), world),
    }
}

/// The value of what loading handed back.
pub open spec fn outcome_view(outcome: Result<ConfigWithPath, FxError>) -> Result<
    ConfigWithPathView,
    FxErrorView,
> {
    match outcome {
        Ok(loaded) => Ok(loaded@),
        Err(error) => Err(error@),
    }
}

/// The search at a location of which it is not yet known whether it exists.
#[derive(Debug)]
pub struct Probing {
    candidates: Vec<ConfigPath>,
    index: usize,
}

/// The search after a file was found and before it was read.
#[derive(Debug)]
pub struct Reading {
    path: ConfigPath,
}

/// Where loading stands, and with it what the caller is to do next.
#[derive(Debug)]
pub enum Loading {
    /// Report whether the file at `Probing::path` exists.
    Probe(Probing),
    /// Read the file at `Reading::path` and report what that gave.
    Read(Reading),
    /// Nothing: loading has ended, with this outcome.
    Done(Result<ConfigWithPath, FxError>),
}

impl Probing {
    #[verifier::type_invariant]
    closed spec fn in_range(self) -> bool {
        self.index < self.candidates@.len()
    }

    /// The locations of the search, in its order.
    pub closed spec fn candidates(self) -> Seq<ConfigPathView> {
        paths_view(self.candidates@)
    }

    /// The index of the location in question.
    pub closed spec fn index(self) -> int {
        self.index as int
    }

    /// The location in question.
    pub open spec fn spec_path(self) -> ConfigPathView {
        self.candidates()[self.index()]
    }

    /// The location of which the caller is to say whether a file exists there.
    pub fn path(&self) -> (path: &ConfigPath)
        ensures
            path@ == self.spec_path(),
            0 <= self.index() < self.candidates().len(),
    {
        proof {
            use_type_invariant(self);
        }
        &self.candidates[self.index]
    }

    /// Takes the answer. A file that exists ends the search and is to be read. Where
    /// none exists the next location is in question, and after the last one loading
    /// ends with the built-in settings, which is no failure. Whatever the file system,
    /// an answer that is true of it leaves the outcome of loading as it was; and every
    /// answer brings loading nearer to its end.
    pub fn answer(self, found: bool) -> (next: Loading)
        ensures
            0 <= self.index() < self.candidates().len(),
            found ==> (next matches Loading::Read(reading) && reading.spec_path()
                == self.spec_path()),
            !found && self.index() + 1 < self.candidates().len() ==> (next matches Loading::Probe(
                probing,
            ) && probing.candidates() == self.candidates() && probing.index() == self.index() + 1),
            !found && self.index() + 1 == self.candidates().len() ==> (next matches Loading::Done(
                outcome,
            ) && outcome_view(outcome) == Ok::<ConfigWithPathView, FxErrorView>(spec_built_in())),
            forall|world: World|
                world.present.contains(self.spec_path()) == found ==> #[trigger] next.outcome(world)
                    == Loading::Probe(self).outcome(world),
            next.answers_left() < Loading::Probe(self).answers_left(),
    {
        proof {
            use_type_invariant(&self);
        }
        let ghost all = self.candidates();
        let ghost at = self.index();
        let Probing { candidates, index } = self;
        let count = candidates.len();
        let next = if found {
            Loading::Read(Reading { path: candidates[index].clone() })
        } else if index + 1 < count {
            Loading::Probe(Probing { candidates, index: index + 1 })
        } else {
            Loading::Done(Ok(ConfigWithPath { config_path: None, config: Config::default() }))
        };
        proof {
            assert forall|world: World| world.present.contains(all[at]) == found implies (
            #[trigger] next.outcome(world)) == spec_loaded(
                spec_first_present(all, at, world),
                world,
            ) by {
                if !found && at + 1 == all.len() {
                    assert(spec_first_present(all, at + 1, world) is None);
                }
            }
        }
        next
    }
}

impl Reading {
    /// The file that was found.
    pub closed spec fn spec_path(self) -> ConfigPathView {
        self.path@
    }

    /// The file that the caller is to read.
    pub fn path(&self) -> (path: &ConfigPath)
        ensures
            path@ == self.spec_path(),
    {
        &self.path
    }

    /// Takes what reading the file gave, its text or the reader's message, and ends
    /// loading.
    pub fn content(self, content: Result<String, String>) -> (outcome: Result<
        ConfigWithPath,
        FxError,
    >)
        ensures
            outcome_view(outcome) == spec_read_config(self.spec_path(), content_view(content)),
    {
        read_config(self.path, content)
    }
}

impl Loading {
    /// Whether loading stands where a plan puts it at the start: at its end where a
    /// directory could not be had, else in question at the first location.
    pub open spec fn begun(self, plan: Result<Seq<ConfigPathView>, Directory>) -> bool {
        match plan {
            Err(directory) => self matches Loading::Done(Err(FxError::Dirs(missing))) && missing
                == directory,
            Ok(candidates) => self matches Loading::Probe(probing) && probing.candidates()
                == candidates && probing.index() == 0,
        }
    }

    /// How many answers loading can still ask for, at most.
    pub open spec fn answers_left(self) -> nat {
        match self {
            Loading::Probe(probing) => (probing.candidates().len() - probing.index() + 1) as nat,
            Loading::Read(_) => 1,
            Loading::Done(_) => 0,
        }
    }

    /// What loading comes to from here in a given file system.
    pub open spec fn outcome(self, world: World) -> Result<ConfigWithPathView, FxErrorView> {
        match self {
            Loading::Probe(probing) => spec_loaded(
                spec_first_present(probing.candidates(), probing.index(), world),
                world,
            ),
            Loading::Read(reading) => spec_read_config(
                reading.spec_path(),
                (world.content)(reading.spec_path()),
            ),
            Loading::Done(outcome) => outcome_view(outcome),
        }
    }
}

/// `dirs::config_dir`: the per-user configuration directory, if the platform names
/// one for this user. Nothing is claimed of what comes back.
#[verifier::external_body]
fn platform_config_dir() -> Option<PathBuf> {
    dirs::config_dir()
}

/// `dirs::home_dir`: the user's home directory, if the platform names one for this
/// user. Nothing is claimed of what comes back.
#[verifier::external_body]
fn platform_home_dir() -> Option<PathBuf> {
    dirs::home_dir()
}

/// The location `base/first/file`.
fn below(base: &PathBuf, first: &str, file: &str) -> (path: ConfigPath)
    ensures
        path@ == spec_below(*base, first@, file@),
{
    let mut segments: Vec<String> = Vec::new();
    segments.push(first.to_owned());
    segments.push(file.to_owned());
    assert(segments.deep_view() =~= seq![first@, file@]);
    ConfigPath { base: base.clone(), segments }
}

/// The location `base/first/second/file`.
fn further_below(base: &PathBuf, first: &str, second: &str, file: &str) -> (path: ConfigPath)
    ensures
        path@ == spec_further_below(*base, first@, second@, file@),
{
    let mut segments: Vec<String> = Vec::new();
    segments.push(first.to_owned());
    segments.push(second.to_owned());
    segments.push(file.to_owned());
    assert(segments.deep_view() =~= seq![first@, second@, file@]);
    ConfigPath { base: base.clone(), segments }
}

/// Lists the locations to search, in the order of the search, from the
/// directories that the platform named. Where a directory that the platform needs
/// is missing there is nothing to search, and that is a failure.
pub fn candidate_paths(
    platform: Platform,
    config_dir: Option<PathBuf>,
    home_dir: Option<PathBuf>,
) -> (plan: Result<Vec<ConfigPath>, FxError>)
    ensures
        match plan {
            Ok(candidates) => spec_plan(platform, config_dir, home_dir) == Ok::<
                Seq<ConfigPathView>,
                Directory,
            >(paths_view(candidates@)),
            Err(error) => error matches FxError::Dirs(missing) && spec_plan(
                platform,
                config_dir,
                home_dir,
            ) == Err::<Seq<ConfigPathView>, Directory>(missing),
        },
{
    let config = match config_dir {
        Some(config) => config,
        None => {
            return Err(FxError::Dirs(Directory::Config));
        },
    };
    let mut candidates: Vec<ConfigPath> = Vec::new();
    candidates.push(below(&config, FELIX, "config.yaml"));
    candidates.push(below(&config, FELIX, "config.yml"));
    match platform {
        Platform::Other => {
            assert(paths_view(candidates@) =~= spec_conventional(config));
        },
        Platform::MacOs => {
            let home = match home_dir {
                Some(home) => home,
                None => {
                    return Err(FxError::Dirs(Directory::Home));
                },
            };
            candidates.push(further_below(&home, ".config", "FELIX", "config.yaml"));
            candidates.push(further_below(&home, ".config", "FELIX", "config.yml"));
            assert(paths_view(candidates@) =~= spec_conventional(config) + spec_fallback(home));
        },
    }
    Ok(candidates)
}

/// Starts a search through `candidates`, in their order. With nothing to search
/// loading ends at once, with the built-in settings.
pub fn search(candidates: Vec<ConfigPath>) -> (state: Loading)
    ensures
        candidates@.len() == 0 ==> (state matches Loading::Done(outcome) && outcome_view(outcome)
            == Ok::<ConfigWithPathView, FxErrorView>(spec_built_in())),
        candidates@.len() > 0 ==> (state matches Loading::Probe(probing) && probing.candidates()
            == paths_view(candidates@) && probing.index() == 0),
        forall|world: World| #[trigger]
            state.outcome(world) == spec_loaded(
                spec_first_present(paths_view(candidates@), 0, world),
                world,
            ),
{
    if candidates.len() == 0 {
        Loading::Done(Ok(ConfigWithPath { config_path: None, config: Config::default() }))
    } else {
        Loading::Probe(Probing { candidates, index: 0 })
    }
}

/// Starts loading from the directories that the platform named: `None` for one
/// that it could not name. A missing directory that the search needs ends loading
/// with a failure before any file is looked for.
pub fn begin(platform: Platform, config_dir: Option<PathBuf>, home_dir: Option<PathBuf>) -> (state:
    Loading)
    ensures
        state.begun(spec_plan(platform, config_dir, home_dir)),
        forall|world: World| #[trigger]
            state.outcome(world) == spec_load(platform, config_dir, home_dir, world),
{
    match candidate_paths(platform, config_dir, home_dir) {
        Ok(candidates) => {
            assert(candidates@.len() > 0) by {
                assert(spec_conventional(config_dir->Some_0).len() == 2);
                assert(paths_view(candidates@).len() == candidates@.len());
            }
            search(candidates)
        },
        Err(error) => Loading::Done(Err(error)),
    }
}

/// Starts loading the configuration on `platform`: asks for the configuration
/// directory, on macOS for the home directory too, and returns what the caller is
/// to do first. The caller then answers each [`Loading::Probe`] and
/// [`Loading::Read`] until loading is [`Loading::Done`].
///
/// The directories are whatever the platform names at the time of the call; the
/// state is the one that [`begin`] makes of them.
pub fn read_config_or_default(platform: Platform) -> (state: Loading)
    ensures
        exists|config_dir: Option<PathBuf>, home_dir: Option<PathBuf>|
            #![trigger spec_plan(platform, config_dir, home_dir)]
            state.begun(spec_plan(platform, config_dir, home_dir)) && forall|world: World| #[trigger]
                state.outcome(world) == spec_load(platform, config_dir, home_dir, world),
{
    let config_dir = platform_config_dir();
    let home_dir = match (platform, &config_dir) {
        (Platform::MacOs, Some(_)) => platform_home_dir(),
        _ => None,
    };
    let state = begin(platform, config_dir, home_dir);
    assert(state.begun(spec_plan(platform, config_dir, home_dir)));
    state
}

} // verus!
