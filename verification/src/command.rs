//! Commands of the tool: which arguments they take and how their outcome
//! is read.

use vstd::prelude::*;
use vstd::slice::slice_to_vec;
use vstd::string::StringExecFns;
use crate::cache::CacheDecision;
use crate::notation::parse_version;
use crate::notation::version_of;
use crate::text::trim;
use crate::text::trimmed;
use crate::version::Version;
use crate::version::VersionView;

verus! {

/// The supported lines of the tool, by major version. Their commands
/// differ.
#[derive(Clone, Copy, Debug, PartialEq, Eq, Structural)]
pub enum Yarn {
    Yarn1,
    Yarn2,
    Yarn3,
    Yarn4,
}

/// How a process ended that could be started.
#[derive(Clone, Debug, PartialEq, Eq)]
pub struct Exit {
    /// The exit code; none if the process was ended by a signal.
    pub code: Option<i32>,
    pub stdout: Vec<u8>,
    pub stderr: Vec<u8>,
}

/// The outcome of running a command.
#[derive(Clone, Debug, PartialEq, Eq)]
pub enum Outcome {
    /// The process ended with code 0; this is what it printed.
    Success(Vec<u8>),
    /// The process ended otherwise; its code, if it has one, and what it
    /// printed as errors.
    NonZeroExit(Option<i32>, Vec<u8>),
    /// The process could not be started.
    SpawnFailed,
}

/// Why a command gave no answer.
#[derive(Clone, Debug, PartialEq, Eq)]
pub enum CommandError {
    /// The process could not be started.
    SpawnFailed,
    /// The process ended with a code other than 0, or by a signal.
    NonZeroExit(Option<i32>, Vec<u8>),
    /// The process succeeded but printed something else than expected.
    UnparsableOutput(Vec<u8>),
}

/// The strings that a vector of strings holds.
pub open spec fn string_views(v: Seq<String>) -> Seq<Seq<char>> {
    Seq::new(v.len(), |i: int| v[i]@)
}

/// The outcome of a process: `exit` is none where it could not be started.
pub open spec fn outcome_of(exit: Option<Exit>) -> Outcome {
    match exit {
        None => Outcome::SpawnFailed,
        Some(e) => if e.code == Some(0i32) {
            Outcome::Success(e.stdout)
        } else {
            Outcome::NonZeroExit(e.code, e.stderr)
        },
    }
}

/// Tells success, failure and a process that never started apart.
pub fn classify(exit: Option<Exit>) -> (r: Outcome)
    ensures
        r == outcome_of(exit),
{
    match exit {
        None => Outcome::SpawnFailed,
        Some(e) => {
            let ok = match e.code {
                Some(c) => c == 0,
                None => false,
            };
            if ok {
                Outcome::Success(e.stdout)
            } else {
                Outcome::NonZeroExit(e.code, e.stderr)
            }
        },
    }
}

/// What a successful command printed, or why there is nothing to read.
pub open spec fn printed(outcome: Outcome) -> Result<Vec<u8>, CommandError> {
    match outcome {
        Outcome::Success(stdout) => Ok(stdout),
        Outcome::NonZeroExit(code, stderr) => Err(CommandError::NonZeroExit(code, stderr)),
        Outcome::SpawnFailed => Err(CommandError::SpawnFailed),
    }
}

/// The version that a version query answered: what it printed, blanks
/// around it dropped, read as a version.
pub open spec fn version_answer(outcome: Outcome) -> Result<VersionView, CommandError> {
    match printed(outcome) {
        Ok(stdout) => match version_of(trimmed(stdout@)) {
            Some(v) => Ok(v),
            None => Err(CommandError::UnparsableOutput(stdout)),
        },
        Err(e) => Err(e),
    }
}

/// The directory that a cache-folder query answered: what it printed,
/// blanks around it dropped, which must leave something.
pub open spec fn folder_answer(outcome: Outcome) -> Result<Seq<u8>, CommandError> {
    match printed(outcome) {
        Ok(stdout) => if trimmed(stdout@).len() > 0 {
            Ok(trimmed(stdout@))
        } else {
            Err(CommandError::UnparsableOutput(stdout))
        },
        Err(e) => Err(e),
    }
}

/// Whether a command that prints nothing of interest succeeded.
pub open spec fn plain_answer(outcome: Outcome) -> Result<(), CommandError> {
    match printed(outcome) {
        Ok(_) => Ok(()),
        Err(e) => Err(e),
    }
}

impl Outcome {
    /// What the command printed, if it succeeded.
    pub fn into_printed(self) -> (r: Result<Vec<u8>, CommandError>)
        ensures
            r == printed(self),
    {
        match self {
            Outcome::Success(stdout) => Ok(stdout),
            Outcome::NonZeroExit(code, stderr) => Err(CommandError::NonZeroExit(code, stderr)),
            Outcome::SpawnFailed => Err(CommandError::SpawnFailed),
        }
    }
}

/// Reads the answer to a version query.
pub fn read_version(outcome: Outcome) -> (r: Result<Version, CommandError>)
    ensures
        match r {
            Ok(v) => version_answer(outcome) == Ok::<VersionView, CommandError>(v@),
            Err(e) => version_answer(outcome) == Err::<VersionView, CommandError>(e),
        },
{
    match outcome.into_printed() {
        Ok(stdout) => {
            match parse_version(trim(stdout.as_slice())) {
                Some(v) => Ok(v),
                None => Err(CommandError::UnparsableOutput(stdout)),
            }
        },
        Err(e) => Err(e),
    }
}

/// Reads the answer to a cache-folder query.
pub fn read_folder(outcome: Outcome) -> (r: Result<Vec<u8>, CommandError>)
    ensures
        match r {
            Ok(path) => folder_answer(outcome) == Ok::<Seq<u8>, CommandError>(path@),
            Err(e) => folder_answer(outcome) == Err::<Seq<u8>, CommandError>(e),
        },
{
    match outcome.into_printed() {
        Ok(stdout) => {
            let path = trim(stdout.as_slice());
            if path.len() > 0 {
                Ok(slice_to_vec(path))
            } else {
                Err(CommandError::UnparsableOutput(stdout))
            }
        },
        Err(e) => Err(e),
    }
}

/// Reads the outcome of a command that prints nothing of interest.
pub fn read_plain(outcome: Outcome) -> (r: Result<(), CommandError>)
    ensures
        r == plain_answer(outcome),
{
    match outcome.into_printed() {
        Ok(_) => Ok(()),
        Err(e) => Err(e),
    }
}

impl Yarn {
    /// The line of a major version, if it is supported.
    pub open spec fn of_major(major: u64) -> Option<Yarn> {
        if major == 1 {
            Some(Yarn::Yarn1)
        } else if major == 2 {
            Some(Yarn::Yarn2)
        } else if major == 3 {
            Some(Yarn::Yarn3)
        } else if major == 4 {
            Some(Yarn::Yarn4)
        } else {
            None
        }
    }

    /// The arguments that ask the tool for its version.
    pub open spec fn version_arguments() -> Seq<Seq<char>> {
        seq!["--version"@]
    }

    /// The arguments that ask the tool for its cache directory.
    pub open spec fn cache_folder_arguments(self) -> Seq<Seq<char>> {
        if self == Yarn::Yarn1 {
            seq!["cache"@, "dir"@]
        } else {
            seq!["config"@, "get"@, "cacheFolder"@]
        }
    }

    /// The arguments that turn the tool's global cache off. The first line
    /// has no global cache and needs no command.
    pub open spec fn disable_global_cache_arguments(self) -> Option<Seq<Seq<char>>> {
        if self == Yarn::Yarn1 {
            None
        } else {
            Some(seq!["config"@, "set"@, "enableGlobalCache"@, "false"@])
        }
    }

    /// The arguments that install the dependencies. Where the project
    /// brings its own cache, the later lines are told not to change it.
    pub open spec fn install_arguments(self, cache: CacheDecision) -> Seq<Seq<char>> {
        if self == Yarn::Yarn1 {
            seq!["install"@, "--production=false"@, "--frozen-lockfile"@]
        } else if cache == CacheDecision::Bypassed {
            seq!["install"@, "--immutable"@, "--inline-builds"@, "--immutable-cache"@]
        } else {
            seq!["install"@, "--immutable"@, "--inline-builds"@]
        }
    }

    /// The arguments that make `folder` the tool's cache directory. The
    /// first line calls the setting by another name.
    pub open spec fn cache_setting_arguments(self, folder: Seq<char>) -> Seq<Seq<char>> {
        if self == Yarn::Yarn1 {
            seq!["config"@, "set"@, "cache-folder"@, folder]
        } else {
            seq!["config"@, "set"@, "cacheFolder"@, folder]
        }
    }

    /// The arguments that run the script `script`.
    pub open spec fn run_arguments(script: Seq<char>) -> Seq<Seq<char>> {
        seq!["run"@, script]
    }

    /// The line of a major version; none for a version that is not
    /// supported.
    pub fn from_major(major: u64) -> (r: Option<Yarn>)
        ensures
            r == Yarn::of_major(major),
    {
        if major == 1 {
            Some(Yarn::Yarn1)
        } else if major == 2 {
            Some(Yarn::Yarn2)
        } else if major == 3 {
            Some(Yarn::Yarn3)
        } else if major == 4 {
            Some(Yarn::Yarn4)
        } else {
            None
        }
    }

    /// The arguments that ask the tool for its version.
    pub fn version_args() -> (r: Vec<String>)
        ensures
            string_views(r@) == Yarn::version_arguments(),
    {
        let mut v: Vec<String> = Vec::new();
        v.push(String::from_str("--version"));
        assert(string_views(v@) =~= Yarn::version_arguments());
        v
    }

    /// The arguments that ask the tool for its cache directory.
    pub fn cache_folder_args(&self) -> (r: Vec<String>)
        ensures
            string_views(r@) == self.cache_folder_arguments(),
    {
        let mut v: Vec<String> = Vec::new();
        match self {
            Yarn::Yarn1 => {
                v.push(String::from_str("cache"));
                v.push(String::from_str("dir"));
            },
            _ => {
                v.push(String::from_str("config"));
                v.push(String::from_str("get"));
                v.push(String::from_str("cacheFolder"));
            },
        }
        assert(string_views(v@) =~= self.cache_folder_arguments());
        v
    }

    /// The arguments that turn the tool's global cache off, if the line
    /// has one.
    pub fn disable_global_cache_args(&self) -> (r: Option<Vec<String>>)
        ensures
            match r {
                Some(v) => self.disable_global_cache_arguments() == Some(string_views(v@)),
                None => self.disable_global_cache_arguments() is None,
            },
    {
        match self {
            Yarn::Yarn1 => None,
            _ => {
                let mut v: Vec<String> = Vec::new();
                v.push(String::from_str("config"));
                v.push(String::from_str("set"));
                v.push(String::from_str("enableGlobalCache"));
                v.push(String::from_str("false"));
                assert(string_views(v@) =~= self.disable_global_cache_arguments()->0);
                Some(v)
            },
        }
    }

    /// The arguments that install the dependencies.
    pub fn install_args(&self, cache: CacheDecision) -> (r: Vec<String>)
        ensures
            string_views(r@) == self.install_arguments(cache),
    {
        let mut v: Vec<String> = Vec::new();
        v.push(String::from_str("install"));
        match self {
            Yarn::Yarn1 => {
                v.push(String::from_str("--production=false"));
                v.push(String::from_str("--frozen-lockfile"));
            },
            _ => {
                v.push(String::from_str("--immutable"));
                v.push(String::from_str("--inline-builds"));
                if cache == CacheDecision::Bypassed {
                    v.push(String::from_str("--immutable-cache"));
                }
            },
        }
        assert(string_views(v@) =~= self.install_arguments(cache));
        v
    }

    /// The arguments that make `folder` the tool's cache directory.
    pub fn set_cache_folder_args(&self, folder: &str) -> (r: Vec<String>)
        ensures
            string_views(r@) == self.cache_setting_arguments(folder@),
    {
        let mut v: Vec<String> = Vec::new();
        v.push(String::from_str("config"));
        v.push(String::from_str("set"));
        match self {
            Yarn::Yarn1 => {
                v.push(String::from_str("cache-folder"));
            },
            _ => {
                v.push(String::from_str("cacheFolder"));
            },
        }
        v.push(String::from_str(folder));
        assert(string_views(v@) =~= self.cache_setting_arguments(folder@));
        v
    }

    /// The arguments that run the script `script`.
    pub fn run_args(script: &str) -> (r: Vec<String>)
        ensures
            string_views(r@) == Yarn::run_arguments(script@),
    {
        let mut v: Vec<String> = Vec::new();
        v.push(String::from_str("run"));
        v.push(String::from_str(script));
        assert(string_views(v@) =~= Yarn::run_arguments(script@));
        v
    }
}

} // verus!
