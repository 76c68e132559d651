//! The failures of a build and the headings they are reported under.

use vstd::prelude::*;
use crate::command::CommandError;
use crate::constraint::Constraint;
use crate::installer::InstallError;

verus! {

/// Every way a build can fail, each with its cause.
#[derive(Clone, Debug, PartialEq, Eq)]
pub enum BuildError {
    /// A build script ended with a failure.
    BuildScript(CommandError),
    /// The tool could not be installed into its layer.
    CliLayer(InstallError),
    /// The dependency cache layer could not be prepared.
    DepsLayer(String),
    /// The catalog of releases could not be read.
    InventoryParse(String),
    /// The project manifest could not be read.
    PackageJson(String),
    /// The tool did not tell where its cache lies.
    YarnCacheGet(CommandError),
    /// The tool's global cache could not be turned off.
    YarnDisableGlobalCache(CommandError),
    /// Installing the dependencies failed.
    YarnInstall(CommandError),
    /// The tool did not tell its version.
    YarnVersionDetect(CommandError),
    /// The tool's major version is none of the supported lines.
    YarnVersionUnsupported(u64),
    /// No release of the catalog lies in the requested range.
    YarnVersionResolve(Constraint),
    /// The opt-out signal for build scripts could not be read.
    NodeBuildScriptsMetadata(String),
    /// A result was reported that the build was not waiting for.
    UnexpectedEvent,
}

/// The heading a failure is reported under.
#[derive(Clone, Copy, Debug, PartialEq, Eq, Structural)]
pub enum Category {
    BuildScript,
    Distribution,
    DependencyLayer,
    Inventory,
    PackageJson,
    Cache,
    Install,
    Version,
    Buildplan,
    Internal,
}

/// What kind of trouble a failure is.
#[derive(Clone, Copy, Debug, PartialEq, Eq, Structural)]
pub enum Kind {
    /// The project asks for something that cannot be had.
    Configuration,
    /// Input that must be trusted is damaged.
    Integrity,
    /// The surroundings of the build did not cooperate.
    Environment,
}

impl BuildError {
    /// The heading of each failure.
    pub open spec fn category_of(self) -> Category {
        match self {
            BuildError::BuildScript(_) => Category::BuildScript,
            BuildError::CliLayer(_) => Category::Distribution,
            BuildError::DepsLayer(_) => Category::DependencyLayer,
            BuildError::InventoryParse(_) => Category::Inventory,
            BuildError::PackageJson(_) => Category::PackageJson,
            BuildError::YarnCacheGet(_) => Category::Cache,
            BuildError::YarnDisableGlobalCache(_) => Category::Cache,
            BuildError::YarnInstall(_) => Category::Install,
            BuildError::YarnVersionDetect(_) => Category::Version,
            BuildError::YarnVersionUnsupported(_) => Category::Version,
            BuildError::YarnVersionResolve(_) => Category::Version,
            BuildError::NodeBuildScriptsMetadata(_) => Category::Buildplan,
            BuildError::UnexpectedEvent => Category::Internal,
        }
    }

    /// The kind of each failure.
    pub open spec fn kind_of(self) -> Kind {
        match self {
            BuildError::YarnVersionResolve(_) => Kind::Configuration,
            BuildError::YarnVersionUnsupported(_) => Kind::Configuration,
            BuildError::PackageJson(_) => Kind::Configuration,
            BuildError::NodeBuildScriptsMetadata(_) => Kind::Configuration,
            BuildError::InventoryParse(_) => Kind::Integrity,
            BuildError::CliLayer(InstallError::ChecksumMismatch) => Kind::Integrity,
            _ => Kind::Environment,
        }
    }

    /// The heading this failure is reported under.
    pub fn category(&self) -> (r: Category)
        ensures
            r == self.category_of(),
    {
        match self {
            BuildError::BuildScript(_) => Category::BuildScript,
            BuildError::CliLayer(_) => Category::Distribution,
            BuildError::DepsLayer(_) => Category::DependencyLayer,
            BuildError::InventoryParse(_) => Category::Inventory,
            BuildError::PackageJson(_) => Category::PackageJson,
            BuildError::YarnCacheGet(_) => Category::Cache,
            BuildError::YarnDisableGlobalCache(_) => Category::Cache,
            BuildError::YarnInstall(_) => Category::Install,
            BuildError::YarnVersionDetect(_) => Category::Version,
            BuildError::YarnVersionUnsupported(_) => Category::Version,
            BuildError::YarnVersionResolve(_) => Category::Version,
            BuildError::NodeBuildScriptsMetadata(_) => Category::Buildplan,
            BuildError::UnexpectedEvent => Category::Internal,
        }
    }

    /// What kind of trouble this failure is.
    pub fn kind(&self) -> (r: Kind)
        ensures
            r == self.kind_of(),
    {
        match self {
            BuildError::YarnVersionResolve(_) => Kind::Configuration,
            BuildError::YarnVersionUnsupported(_) => Kind::Configuration,
            BuildError::PackageJson(_) => Kind::Configuration,
            BuildError::NodeBuildScriptsMetadata(_) => Kind::Configuration,
            BuildError::InventoryParse(_) => Kind::Integrity,
            BuildError::CliLayer(e) => match e {
                InstallError::ChecksumMismatch => Kind::Integrity,
                InstallError::ArtifactUnavailable => Kind::Environment,
            },
            _ => Kind::Environment,
        }
    }
}

impl Category {
    /// The words of each heading.
    pub open spec fn title(self) -> Seq<char> {
        match self {
            Category::BuildScript => "Yarn build script error"@,
            Category::Distribution => "Yarn distribution layer error"@,
            Category::DependencyLayer => "Yarn dependency layer error"@,
            Category::Inventory => "Yarn inventory parse error"@,
            Category::PackageJson => "Yarn package.json error"@,
            Category::Cache => "Yarn cache error"@,
            Category::Install => "Yarn install error"@,
            Category::Version => "Yarn version error"@,
            Category::Buildplan => "Yarn buildplan error"@,
            Category::Internal => "Yarn internal buildpack error"@,
        }
    }

    /// The words of this heading.
    pub fn header(&self) -> (r: &'static str)
        ensures
            r@ == self.title(),
    {
        match self {
            Category::BuildScript => "Yarn build script error",
            Category::Distribution => "Yarn distribution layer error",
            Category::DependencyLayer => "Yarn dependency layer error",
            Category::Inventory => "Yarn inventory parse error",
            Category::PackageJson => "Yarn package.json error",
            Category::Cache => "Yarn cache error",
            Category::Install => "Yarn install error",
            Category::Version => "Yarn version error",
            Category::Buildplan => "Yarn buildplan error",
            Category::Internal => "Yarn internal buildpack error",
        }
    }
}

} // verus!
