//! What the build tells the pipeline around it: what it provides and
//! requires, and how the built application is started.

use vstd::prelude::*;
use vstd::string::StringExecFns;
use crate::command::string_views;

verus! {

/// The names that the build provides to the pipeline and requires from it.
#[derive(Clone, Debug, PartialEq, Eq)]
pub struct BuildPlan {
    pub provided: Vec<String>,
    pub required: Vec<String>,
}

/// Whether the build takes part.
#[derive(Clone, Debug, PartialEq, Eq)]
pub enum Detection {
    /// The project is managed by the tool; this is the plan.
    Pass(BuildPlan),
    /// The project is not managed by the tool.
    Skip,
}

/// A process that the pipeline may start to serve the application.
#[derive(Clone, Debug, PartialEq, Eq)]
pub struct LaunchProcess {
    pub name: String,
    pub command: Vec<String>,
    pub is_default: bool,
}

/// The mathematical value of a [`LaunchProcess`].
pub struct LaunchProcessView {
    pub name: Seq<char>,
    pub command: Seq<Seq<char>>,
    pub is_default: bool,
}

impl View for LaunchProcess {
    type V = LaunchProcessView;

    open spec fn view(&self) -> LaunchProcessView {
        LaunchProcessView {
            name: self.name@,
            command: string_views(self.command@),
            is_default: self.is_default,
        }
    }
}

/// The names that the build provides.
pub open spec fn provided_names() -> Seq<Seq<char>> {
    seq!["yarn"@, "node_modules"@, "node_build_scripts"@]
}

/// The names that the build requires.
pub open spec fn required_names() -> Seq<Seq<char>> {
    seq!["node"@, "yarn"@, "node_modules"@, "node_build_scripts"@]
}

/// The default web process: `yarn start`.
pub open spec fn web_process() -> LaunchProcessView {
    LaunchProcessView { name: "web"@, command: seq!["yarn"@, "start"@], is_default: true }
}

/// The process to launch: the default web process where the project has a
/// start script and no process list of its own, else none.
pub open spec fn launch_for(process_file_present: bool, has_start_script: bool) -> Option<
    LaunchProcessView,
> {
    if !process_file_present && has_start_script {
        Some(web_process())
    } else {
        None
    }
}

/// The build scripts that run, of those a manifest declares: the step
/// before the build, the build itself, for which `heroku-build` stands in
/// front of `build`, and the step after it.
pub open spec fn scripts_for(prebuild: bool, heroku_build: bool, build: bool, postbuild: bool)
    -> Seq<Seq<char>> {
    let before: Seq<Seq<char>> = if prebuild {
        seq!["heroku-prebuild"@]
    } else {
        seq![]
    };
    let main: Seq<Seq<char>> = if heroku_build {
        seq!["heroku-build"@]
    } else if build {
        seq!["build"@]
    } else {
        seq![]
    };
    let after: Seq<Seq<char>> = if postbuild {
        seq!["heroku-postbuild"@]
    } else {
        seq![]
    };
    before + main + after
}

/// Lists the build scripts that run, in their order, given which of them
/// the manifest declares.
pub fn build_scripts(prebuild: bool, heroku_build: bool, build: bool, postbuild: bool) -> (r: Vec<
    String,
>)
    ensures
        string_views(r@) == scripts_for(prebuild, heroku_build, build, postbuild),
{
    let mut scripts: Vec<String> = Vec::new();
    if prebuild {
        scripts.push(String::from_str("heroku-prebuild"));
    }
    if heroku_build {
        scripts.push(String::from_str("heroku-build"));
    } else if build {
        scripts.push(String::from_str("build"));
    }
    if postbuild {
        scripts.push(String::from_str("heroku-postbuild"));
    }
    assert(string_views(scripts@) =~= scripts_for(prebuild, heroku_build, build, postbuild));
    scripts
}

/// Decides whether the build takes part: it does where the project has a
/// lockfile of the tool.
pub fn detect(lockfile_present: bool) -> (r: Detection)
    ensures
        match r {
            Detection::Pass(plan) => lockfile_present && string_views(plan.provided@)
                == provided_names() && string_views(plan.required@) == required_names(),
            Detection::Skip => !lockfile_present,
        },
{
    if !lockfile_present {
        return Detection::Skip;
    }
    let mut provided: Vec<String> = Vec::new();
    provided.push(String::from_str("yarn"));
    provided.push(String::from_str("node_modules"));
    provided.push(String::from_str("node_build_scripts"));
    let mut required: Vec<String> = Vec::new();
    required.push(String::from_str("node"));
    required.push(String::from_str("yarn"));
    required.push(String::from_str("node_modules"));
    required.push(String::from_str("node_build_scripts"));
    assert(string_views(provided@) =~= provided_names());
    assert(string_views(required@) =~= required_names());
    Detection::Pass(BuildPlan { provided, required })
}

/// Decides which process the pipeline is told to launch.
pub fn launch_process(process_file_present: bool, has_start_script: bool) -> (r: Option<
    LaunchProcess,
>)
    ensures
        match r {
            Some(p) => launch_for(process_file_present, has_start_script) == Some(p@),
            None => launch_for(process_file_present, has_start_script) is None,
        },
{
    if process_file_present || !has_start_script {
        return None;
    }
    let mut command: Vec<String> = Vec::new();
    command.push(String::from_str("yarn"));
    command.push(String::from_str("start"));
    let p = LaunchProcess { name: String::from_str("web"), command, is_default: true };
    assert(p@.command =~= web_process().command);
    Some(p)
}

} // verus!
