//! The order of a build.
//!
//! An [`Orchestrator`] decides, step by step, what is done next. The caller
//! does what an [`Action`] asks for and reports the result as an
//! [`Event`]; running commands, installing the tool and touching
//! directories are the caller's work.

use vstd::prelude::*;
use crate::cache::decision_for;
use crate::cache::key_after;
use crate::cache::reconcile;
use crate::cache::CacheDecision;
use crate::cache::CacheLayer;
use crate::catalog::resolution;
use crate::catalog::Catalog;
use crate::catalog::ReleaseView;
use crate::command::folder_answer;
use crate::command::plain_answer;
use crate::command::read_folder;
use crate::command::read_plain;
use crate::command::read_version;
use crate::command::version_answer;
use crate::command::CommandError;
use crate::command::Outcome;
use crate::command::Yarn;
use crate::constraint::Constraint;
use crate::error::BuildError;
use crate::installer::InstallError;
use crate::plan::launch_for;
use crate::plan::launch_process;
use crate::plan::LaunchProcess;
use crate::plan::LaunchProcessView;
use crate::version::Version;
use crate::version::VersionView;

verus! {

/// What the build knows of the project before it starts.
#[derive(Clone, Debug, PartialEq, Eq)]
pub struct Project {
    /// The range of tool versions that the manifest declares, if any.
    pub declared_range: Option<Constraint>,
    /// The build scripts that the manifest declares, in its order.
    pub scripts: Vec<String>,
    /// Whether build scripts are to run; taken as yes where nothing is
    /// said.
    pub scripts_enabled: Option<bool>,
    /// Whether the manifest declares a start script.
    pub has_start_script: bool,
    /// Whether the project brings a process list of its own.
    pub has_process_file: bool,
}

/// Where a build stands: what it is waiting for.
#[derive(Clone, Copy, Debug, PartialEq, Eq, Structural)]
pub enum Phase {
    /// Nothing was asked for yet.
    Start,
    /// The tool was asked for its version.
    DetectTool,
    /// The release at this position of the catalog is being installed.
    InstallTool { release: usize },
    /// The installed tool was asked for its version.
    ConfirmTool,
    /// The tool's global cache is being turned off.
    DisableGlobalCache { yarn: Yarn },
    /// The tool was asked where its cache lies.
    LocateCache { yarn: Yarn },
    /// The cache directory is being looked into.
    InspectCache { yarn: Yarn },
    /// The cache layer's record and the lockfile are being read.
    ReconcileCache { yarn: Yarn },
    /// The decision on the cache layer is being carried out.
    StoreCache { yarn: Yarn, decision: CacheDecision },
    /// The dependencies are being installed.
    InstallDependencies { yarn: Yarn },
    /// The script at this position is running.
    RunScripts { next: usize },
    /// The build succeeded.
    Done,
    /// The build failed.
    Failed,
}

/// What the caller reports.
#[derive(Clone, Debug, PartialEq, Eq)]
pub enum Event {
    /// The build is to start.
    Begin,
    /// The command asked for has run.
    Ran(Outcome),
    /// The release asked for was installed.
    ToolInstalled,
    /// The release asked for could not be installed.
    ToolNotInstalled(InstallError),
    /// The tool's cache directory was looked into: whether the project
    /// has filled it with archives of its own.
    CacheInspected { populated: bool },
    /// The cache layer's record and the lockfile were read.
    CacheLoaded { layer: CacheLayer, lockfile: Vec<u8> },
    /// The decision on the cache layer was carried out.
    CacheStored,
    /// The decision on the cache layer could not be carried out.
    CacheNotStored(String),
}

/// What the caller is to do next.
#[derive(Clone, Debug, PartialEq, Eq)]
pub enum Action {
    /// Ask the tool for its version and report how the command ran.
    QueryVersion,
    /// Install the release at this position of the catalog.
    InstallTool { release: usize },
    /// Turn the tool's global cache off and report how the command ran.
    DisableGlobalCache { yarn: Yarn },
    /// Ask the tool where its cache lies and report how the command ran.
    LocateCache { yarn: Yarn },
    /// Look whether this directory holds dependency archives.
    InspectCache { folder: Vec<u8> },
    /// Read the cache layer's record and the lockfile.
    LoadCache,
    /// Carry out the decision: clear the layer's directory if it was
    /// invalidated, and store this record.
    StoreCache { decision: CacheDecision, layer: CacheLayer },
    /// Install the dependencies and report how the command ran.
    InstallDependencies { yarn: Yarn, cache: CacheDecision },
    /// Run the script at this position and report how the command ran.
    RunScript { index: usize },
    /// End the build with success and announce this process, if any.
    Finish { launch: Option<LaunchProcess> },
    /// End the build with this failure; nothing is announced.
    Abort(BuildError),
}

/// The mathematical value of an [`Action`].
pub enum ActionView {
    QueryVersion,
    InstallTool { release: usize },
    DisableGlobalCache { yarn: Yarn },
    LocateCache { yarn: Yarn },
    InspectCache { folder: Seq<u8> },
    LoadCache,
    StoreCache { decision: CacheDecision, key: Option<Seq<u8>> },
    InstallDependencies { yarn: Yarn, cache: CacheDecision },
    RunScript { index: usize },
    Finish { launch: Option<LaunchProcessView> },
    Abort(BuildError),
}

impl View for Action {
    type V = ActionView;

    open spec fn view(&self) -> ActionView {
        match self {
            Action::QueryVersion => ActionView::QueryVersion,
            Action::InstallTool { release } => ActionView::InstallTool { release: *release },
            Action::DisableGlobalCache { yarn } => ActionView::DisableGlobalCache { yarn: *yarn },
            Action::LocateCache { yarn } => ActionView::LocateCache { yarn: *yarn },
            Action::InspectCache { folder } => ActionView::InspectCache { folder: folder@ },
            Action::LoadCache => ActionView::LoadCache,
            Action::StoreCache { decision, layer } => ActionView::StoreCache {
                decision: *decision,
                key: layer@,
            },
            Action::InstallDependencies { yarn, cache } => ActionView::InstallDependencies {
                yarn: *yarn,
                cache: *cache,
            },
            Action::RunScript { index } => ActionView::RunScript { index: *index },
            Action::Finish { launch } => ActionView::Finish {
                launch: match launch {
                    Some(p) => Some(p@),
                    None => None,
                },
            },
            Action::Abort(e) => ActionView::Abort(*e),
        }
    }
}

/// The range of tool versions to install from: the declared one, or the
/// default where none is declared.
pub open spec fn requested_range(project: Project) -> Constraint {
    match project.declared_range {
        Some(range) => range,
        None => Constraint::default_range(),
    }
}

/// The build fails with `error`.
pub open spec fn failed(error: BuildError) -> (Phase, ActionView) {
    (Phase::Failed, ActionView::Abort(error))
}

/// The tool is not there: the release that the requested range resolves
/// to is installed, and the build fails where it resolves to none.
pub open spec fn on_missing_tool(project: Project, catalog: Seq<ReleaseView>) -> (
    Phase,
    ActionView,
) {
    let range = requested_range(project);
    match resolution(catalog, range) {
        Some(i) => (
            Phase::InstallTool { release: i as usize },
            ActionView::InstallTool { release: i as usize },
        ),
        None => failed(BuildError::YarnVersionResolve(range)),
    }
}

/// The line of the tool is known: its global cache is turned off if it
/// has one, else its cache is located at once.
pub open spec fn on_line(yarn: Yarn) -> (Phase, ActionView) {
    if yarn.disable_global_cache_arguments() is Some {
        (Phase::DisableGlobalCache { yarn }, ActionView::DisableGlobalCache { yarn })
    } else {
        (Phase::LocateCache { yarn }, ActionView::LocateCache { yarn })
    }
}

/// The tool answered a version query: the build goes on with the line of
/// that version, or fails where the version is unreadable or unsupported.
pub open spec fn on_version_answer(answer: Result<VersionView, CommandError>) -> (
    Phase,
    ActionView,
) {
    match answer {
        Ok(v) => match Yarn::of_major(v.major as u64) {
            Some(yarn) => on_line(yarn),
            None => failed(BuildError::YarnVersionUnsupported(v.major as u64)),
        },
        Err(e) => failed(BuildError::YarnVersionDetect(e)),
    }
}

/// The scripts before position `next` are done: the script at `next` runs
/// if there is one and scripts are not switched off, else the build ends
/// and announces its launch process.
pub open spec fn on_script(project: Project, next: int) -> (Phase, ActionView) {
    if project.scripts_enabled != Some(false) && 0 <= next < project.scripts@.len() {
        (Phase::RunScripts { next: next as usize }, ActionView::RunScript { index: next as usize })
    } else {
        (
            Phase::Done,
            ActionView::Finish {
                launch: launch_for(project.has_process_file, project.has_start_script),
            },
        )
    }
}

/// The phase that follows `phase` on `event`, and the action asked for.
pub open spec fn transition(
    project: Project,
    catalog: Seq<ReleaseView>,
    phase: Phase,
    event: Event,
) -> (Phase, ActionView) {
    match (phase, event) {
        (Phase::Start, Event::Begin) => (Phase::DetectTool, ActionView::QueryVersion),
        (Phase::DetectTool, Event::Ran(outcome)) => {
            if outcome is SpawnFailed {
                on_missing_tool(project, catalog)
            } else {
                on_version_answer(version_answer(outcome))
            }
        },
        (Phase::InstallTool { .. }, Event::ToolInstalled) => (
            Phase::ConfirmTool,
            ActionView::QueryVersion,
        ),
        (Phase::InstallTool { .. }, Event::ToolNotInstalled(e)) => failed(BuildError::CliLayer(e)),
        (Phase::ConfirmTool, Event::Ran(outcome)) => on_version_answer(version_answer(outcome)),
        (Phase::DisableGlobalCache { yarn }, Event::Ran(outcome)) => match plain_answer(outcome) {
            Ok(_) => (Phase::LocateCache { yarn }, ActionView::LocateCache { yarn }),
            Err(e) => failed(BuildError::YarnDisableGlobalCache(e)),
        },
        (Phase::LocateCache { yarn }, Event::Ran(outcome)) => match folder_answer(outcome) {
            Ok(folder) => (Phase::InspectCache { yarn }, ActionView::InspectCache { folder }),
            Err(e) => failed(BuildError::YarnCacheGet(e)),
        },
        (Phase::InspectCache { yarn }, Event::CacheInspected { populated }) => {
            if populated {
                (
                    Phase::InstallDependencies { yarn },
                    ActionView::InstallDependencies { yarn, cache: CacheDecision::Bypassed },
                )
            } else {
                (Phase::ReconcileCache { yarn }, ActionView::LoadCache)
            }
        },
        (Phase::ReconcileCache { yarn }, Event::CacheLoaded { layer, lockfile }) => {
            let decision = decision_for(false, layer@, lockfile@);
            (
                Phase::StoreCache { yarn, decision },
                ActionView::StoreCache { decision, key: key_after(false, layer@, lockfile@) },
            )
        },
        (Phase::StoreCache { yarn, decision }, Event::CacheStored) => (
            Phase::InstallDependencies { yarn },
            ActionView::InstallDependencies { yarn, cache: decision },
        ),
        (Phase::StoreCache { .. }, Event::CacheNotStored(reason)) => failed(
            BuildError::DepsLayer(reason),
        ),
        (Phase::InstallDependencies { .. }, Event::Ran(outcome)) => match plain_answer(outcome) {
            Ok(_) => on_script(project, 0),
            Err(e) => failed(BuildError::YarnInstall(e)),
        },
        (Phase::RunScripts { next }, Event::Ran(outcome)) => match plain_answer(outcome) {
            Ok(_) => on_script(project, next + 1),
            Err(e) => failed(BuildError::BuildScript(e)),
        },
        (Phase::Done, _) => on_script(project, project.scripts@.len() as int),
        _ => failed(BuildError::UnexpectedEvent),
    }
}

/// A build of one project against one catalog.
#[derive(Debug)]
pub struct Orchestrator {
    project: Project,
    catalog: Catalog,
    phase: Phase,
}

impl Orchestrator {
    #[verifier::type_invariant]
    spec fn running_script_exists(&self) -> bool {
        self.phase matches Phase::RunScripts { next } ==> next < self.project.scripts@.len()
    }

    /// The project being built.
    pub closed spec fn project(&self) -> Project {
        self.project
    }

    /// The releases that the tool can be installed from.
    pub closed spec fn catalog(&self) -> Seq<ReleaseView> {
        self.catalog@
    }

    /// Where the build stands.
    pub closed spec fn phase(&self) -> Phase {
        self.phase
    }

    /// A build that has not started.
    pub fn new(project: Project, catalog: Catalog) -> (r: Orchestrator)
        ensures
            r.project() == project,
            r.catalog() == catalog@,
            r.phase() == Phase::Start,
    {
        Orchestrator { project, catalog, phase: Phase::Start }
    }

    /// Where the build stands.
    pub fn current_phase(&self) -> (r: Phase)
        ensures
            r == self.phase(),
    {
        self.phase
    }

    /// The project being built.
    pub fn project_ref(&self) -> (r: &Project)
        ensures
            *r == self.project(),
    {
        &self.project
    }

    /// The catalog that the tool is installed from.
    pub fn catalog_ref(&self) -> (r: &Catalog)
        ensures
            r@ == self.catalog(),
    {
        &self.catalog
    }

    fn missing_tool(&self) -> (r: (Phase, Action))
        ensures
            (r.0, r.1@) == on_missing_tool(self.project(), self.catalog()),
            !(r.0 is RunScripts),
    {
        let range = match self.project.declared_range {
            Some(range) => range,
            None => Constraint::fallback(),
        };
        match self.catalog.resolve_index(&range) {
            Ok(i) => (Phase::InstallTool { release: i }, Action::InstallTool { release: i }),
            Err(_) => (Phase::Failed, Action::Abort(BuildError::YarnVersionResolve(range))),
        }
    }

    fn line(yarn: Yarn) -> (r: (Phase, Action))
        ensures
            (r.0, r.1@) == on_line(yarn),
            !(r.0 is RunScripts),
    {
        match yarn {
            Yarn::Yarn1 => (Phase::LocateCache { yarn }, Action::LocateCache { yarn }),
            _ => (Phase::DisableGlobalCache { yarn }, Action::DisableGlobalCache { yarn }),
        }
    }

    fn version_answered(outcome: Outcome) -> (r: (Phase, Action))
        ensures
            (r.0, r.1@) == on_version_answer(version_answer(outcome)),
            !(r.0 is RunScripts),
    {
        match read_version(outcome) {
            Ok(v) => match Yarn::from_major(v.major) {
                Some(yarn) => Self::line(yarn),
                None => (Phase::Failed, Action::Abort(BuildError::YarnVersionUnsupported(v.major))),
            },
            Err(e) => (Phase::Failed, Action::Abort(BuildError::YarnVersionDetect(e))),
        }
    }

    fn script(&self, next: usize) -> (r: (Phase, Action))
        ensures
            (r.0, r.1@) == on_script(self.project(), next as int),
            r.0 matches Phase::RunScripts { next: n } ==> n < self.project().scripts@.len(),
    {
        let enabled = match self.project.scripts_enabled {
            Some(flag) => flag,
            None => true,
        };
        if enabled && next < self.project.scripts.len() {
            (Phase::RunScripts { next }, Action::RunScript { index: next })
        } else {
            (
                Phase::Done,
                Action::Finish {
                    launch: launch_process(
                        self.project.has_process_file,
                        self.project.has_start_script,
                    ),
                },
            )
        }
    }

    /// Takes the result of what was last asked for and says what is to be
    /// done next.
    pub fn step(&mut self, event: Event) -> (action: Action)
        ensures
            final(self).project() == old(self).project(),
            final(self).catalog() == old(self).catalog(),
            (final(self).phase(), action@) == transition(
                old(self).project(),
                old(self).catalog(),
                old(self).phase(),
                event,
            ),
    {
        proof {
            use_type_invariant(&*self);
        }
        let scripts = self.project.scripts.len();
        let (phase, action) = match self.phase {
            Phase::Start => match event {
                Event::Begin => (Phase::DetectTool, Action::QueryVersion),
                _ => (Phase::Failed, Action::Abort(BuildError::UnexpectedEvent)),
            },
            Phase::DetectTool => match event {
                Event::Ran(outcome) => {
                    let missing = match &outcome {
                        Outcome::SpawnFailed => true,
                        _ => false,
                    };
                    if missing {
                        self.missing_tool()
                    } else {
                        Self::version_answered(outcome)
                    }
                },
                _ => (Phase::Failed, Action::Abort(BuildError::UnexpectedEvent)),
            },
            Phase::InstallTool { release } => match event {
                Event::ToolInstalled => (Phase::ConfirmTool, Action::QueryVersion),
                Event::ToolNotInstalled(e) => (
                    Phase::Failed,
                    Action::Abort(BuildError::CliLayer(e)),
                ),
                _ => (Phase::Failed, Action::Abort(BuildError::UnexpectedEvent)),
            },
            Phase::ConfirmTool => match event {
                Event::Ran(outcome) => Self::version_answered(outcome),
                _ => (Phase::Failed, Action::Abort(BuildError::UnexpectedEvent)),
            },
            Phase::DisableGlobalCache { yarn } => match event {
                Event::Ran(outcome) => match read_plain(outcome) {
                    Ok(_) => (Phase::LocateCache { yarn }, Action::LocateCache { yarn }),
                    Err(e) => (
                        Phase::Failed,
                        Action::Abort(BuildError::YarnDisableGlobalCache(e)),
                    ),
                },
                _ => (Phase::Failed, Action::Abort(BuildError::UnexpectedEvent)),
            },
            Phase::LocateCache { yarn } => match event {
                Event::Ran(outcome) => match read_folder(outcome) {
                    Ok(folder) => (Phase::InspectCache { yarn }, Action::InspectCache { folder }),
                    Err(e) => (Phase::Failed, Action::Abort(BuildError::YarnCacheGet(e))),
                },
                _ => (Phase::Failed, Action::Abort(BuildError::UnexpectedEvent)),
            },
            Phase::InspectCache { yarn } => match event {
                Event::CacheInspected { populated } => {
                    if populated {
                        (
                            Phase::InstallDependencies { yarn },
                            Action::InstallDependencies { yarn, cache: CacheDecision::Bypassed },
                        )
                    } else {
                        (Phase::ReconcileCache { yarn }, Action::LoadCache)
                    }
                },
                _ => (Phase::Failed, Action::Abort(BuildError::UnexpectedEvent)),
            },
            Phase::ReconcileCache { yarn } => match event {
                Event::CacheLoaded { layer, lockfile } => {
                    let mut layer = layer;
                    let decision = reconcile(false, &mut layer, lockfile.as_slice());
                    (Phase::StoreCache { yarn, decision }, Action::StoreCache { decision, layer })
                },
                _ => (Phase::Failed, Action::Abort(BuildError::UnexpectedEvent)),
            },
            Phase::StoreCache { yarn, decision } => match event {
                Event::CacheStored => (
                    Phase::InstallDependencies { yarn },
                    Action::InstallDependencies { yarn, cache: decision },
                ),
                Event::CacheNotStored(reason) => (
                    Phase::Failed,
                    Action::Abort(BuildError::DepsLayer(reason)),
                ),
                _ => (Phase::Failed, Action::Abort(BuildError::UnexpectedEvent)),
            },
            Phase::InstallDependencies { yarn } => match event {
                Event::Ran(outcome) => match read_plain(outcome) {
                    Ok(_) => self.script(0),
                    Err(e) => (Phase::Failed, Action::Abort(BuildError::YarnInstall(e))),
                },
                _ => (Phase::Failed, Action::Abort(BuildError::UnexpectedEvent)),
            },
            Phase::RunScripts { next } => match event {
                Event::Ran(outcome) => match read_plain(outcome) {
                    Ok(_) => self.script(next + 1),
                    Err(e) => (Phase::Failed, Action::Abort(BuildError::BuildScript(e))),
                },
                _ => (Phase::Failed, Action::Abort(BuildError::UnexpectedEvent)),
            },
            Phase::Done => self.script(scripts),
            Phase::Failed => (Phase::Failed, Action::Abort(BuildError::UnexpectedEvent)),
        };
        self.phase = phase;
        action
    }
}

/// A tool that is already there is used as it is: what follows its answer
/// to the version query depends neither on the project's range nor on the
/// catalog, and is never an installation.
pub proof fn lemma_present_tool_is_used(
    project: Project,
    catalog: Seq<ReleaseView>,
    other_project: Project,
    other_catalog: Seq<ReleaseView>,
    outcome: Outcome,
)
    requires
        !(outcome is SpawnFailed),
    ensures
        transition(project, catalog, Phase::DetectTool, Event::Ran(outcome)) == transition(
            other_project,
            other_catalog,
            Phase::DetectTool,
            Event::Ran(outcome),
        ),
        !(transition(project, catalog, Phase::DetectTool, Event::Ran(outcome)).0 is InstallTool),
{
}

/// The tool is installed only where the first version query could not
/// start it, and then from the release that the requested range resolves
/// to.
pub proof fn lemma_install_only_when_missing(
    project: Project,
    catalog: Seq<ReleaseView>,
    phase: Phase,
    event: Event,
)
    requires
        transition(project, catalog, phase, event).0 is InstallTool,
    ensures
        phase == Phase::DetectTool,
        event matches Event::Ran(outcome) && outcome is SpawnFailed,
        resolution(catalog, requested_range(project)) matches Some(i) && transition(
            project,
            catalog,
            phase,
            event,
        ).1 == (ActionView::InstallTool { release: i as usize }),
{
}

/// A cache that the project has filled itself is bypassed: the layer's
/// record and the lockfile are not even read.
pub proof fn lemma_populated_cache_is_bypassed(
    project: Project,
    catalog: Seq<ReleaseView>,
    yarn: Yarn,
)
    ensures
        transition(
            project,
            catalog,
            Phase::InspectCache { yarn },
            Event::CacheInspected { populated: true },
        ) == (
            Phase::InstallDependencies { yarn },
            ActionView::InstallDependencies { yarn, cache: CacheDecision::Bypassed },
        ),
{
}

/// The decision on the cache is handed on to the installation of the
/// dependencies as it was taken.
pub proof fn lemma_cache_decision_is_passed_on(
    project: Project,
    catalog: Seq<ReleaseView>,
    yarn: Yarn,
    layer: CacheLayer,
    lockfile: Vec<u8>,
)
    ensures
        ({
            let taken = transition(
                project,
                catalog,
                Phase::ReconcileCache { yarn },
                Event::CacheLoaded { layer, lockfile },
            );
            let decision = decision_for(false, layer@, lockfile@);
            &&& taken.1 == (ActionView::StoreCache {
                decision,
                key: key_after(false, layer@, lockfile@),
            })
            &&& transition(project, catalog, taken.0, Event::CacheStored).1 == (
            ActionView::InstallDependencies { yarn, cache: decision })
        }),
{
}

/// A build ends with an announcement exactly when it succeeds, and with a
/// failure exactly when it fails.
pub proof fn lemma_announcement_only_on_success(
    project: Project,
    catalog: Seq<ReleaseView>,
    phase: Phase,
    event: Event,
)
    ensures
        transition(project, catalog, phase, event).1 is Finish <==> transition(
            project,
            catalog,
            phase,
            event,
        ).0 == Phase::Done,
        transition(project, catalog, phase, event).1 is Abort <==> transition(
            project,
            catalog,
            phase,
            event,
        ).0 == Phase::Failed,
{
}

/// A failed build stays failed, whatever is reported to it.
pub proof fn lemma_failure_is_final(project: Project, catalog: Seq<ReleaseView>, event: Event)
    ensures
        transition(project, catalog, Phase::Failed, event).0 == Phase::Failed,
{
}

/// A command that fails ends the build. The one exception is the first
/// version query, where a tool that cannot be started is installed.
pub proof fn lemma_failed_command_ends_build(
    project: Project,
    catalog: Seq<ReleaseView>,
    phase: Phase,
    outcome: Outcome,
)
    requires
        !(outcome is Success),
        phase != Phase::Done,
        !(phase == Phase::DetectTool && outcome is SpawnFailed),
    ensures
        transition(project, catalog, phase, Event::Ran(outcome)).0 == Phase::Failed,
{
}

/// Scripts run in the order of their declaration: after the script at a
/// position has succeeded, the one at the next position runs, and after
/// the last one the build ends with success.
pub proof fn lemma_scripts_run_in_order(
    project: Project,
    catalog: Seq<ReleaseView>,
    next: usize,
    printed: Vec<u8>,
)
    requires
        next < project.scripts@.len(),
        project.scripts_enabled != Some(false),
    ensures
        ({
            let taken = transition(
                project,
                catalog,
                Phase::RunScripts { next },
                Event::Ran(Outcome::Success(printed)),
            );
            if next + 1 < project.scripts@.len() {
                taken == (
                    Phase::RunScripts { next: (next + 1) as usize },
                    ActionView::RunScript { index: (next + 1) as usize },
                )
            } else {
                taken.0 == Phase::Done
            }
        }),
{
}

/// Where scripts are switched off, none is ever asked for.
pub proof fn lemma_disabled_scripts_never_run(
    project: Project,
    catalog: Seq<ReleaseView>,
    phase: Phase,
    event: Event,
)
    requires
        project.scripts_enabled == Some(false),
    ensures
        !(transition(project, catalog, phase, event).1 is RunScript),
{
}

} // verus!
