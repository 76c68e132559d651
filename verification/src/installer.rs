//! Installing a release of the tool into its layer.
//!
//! Fetching and unpacking an artifact are the caller's work. An
//! [`Installation`] says what is to be done next and takes the result of
//! each step as an [`InstallEvent`].

use vstd::prelude::*;
use crate::catalog::is_artifact_for;
use crate::catalog::Platform;
use crate::catalog::Release;
use crate::catalog::ReleaseView;
use crate::digest::sha256;
use crate::digest::sha256_digest;
use crate::text::bytes_equal;
use crate::version::Version;
use crate::version::VersionView;

verus! {

/// What is kept about the tool's directory between builds: the version
/// that was installed into it, if any.
#[derive(Clone, Debug, PartialEq, Eq)]
pub struct ToolLayer {
    pub installed: Option<Version>,
}

impl View for ToolLayer {
    type V = Option<VersionView>;

    open spec fn view(&self) -> Option<VersionView> {
        match self.installed {
            Some(v) => Some(v@),
            None => None,
        }
    }
}

/// Why a release was not installed.
#[derive(Clone, Copy, Debug, PartialEq, Eq, Structural)]
pub enum InstallError {
    /// The fetched bytes do not have the digest that the catalog gives.
    ChecksumMismatch,
    /// The release has no artifact for the platform, or the artifact could
    /// not be fetched or unpacked.
    ArtifactUnavailable,
}

/// Where an installation stands.
#[derive(Clone, Copy, Debug, PartialEq, Eq, Structural)]
pub enum Stage {
    /// The layer already holds the release; nothing was fetched.
    Reused,
    /// The artifact at this position of the release is being fetched.
    Fetching { artifact: usize },
    /// The fetched bytes were accepted and are being unpacked.
    Unpacking,
    /// The release was unpacked and recorded in the layer.
    Installed,
    /// The installation was given up.
    Failed(InstallError),
}

/// What the caller reports back.
#[derive(Clone, Debug, PartialEq, Eq)]
pub enum InstallEvent {
    /// The artifact was fetched; these are its bytes.
    Delivered(Vec<u8>),
    /// The artifact could not be fetched.
    FetchFailed,
    /// The accepted bytes were unpacked into the layer's directory.
    Unpacked,
    /// The accepted bytes could not be unpacked.
    UnpackFailed,
}

/// What the caller is to do next.
#[derive(Clone, Copy, Debug, PartialEq, Eq, Structural)]
pub enum InstallAction {
    /// Use the tool that the layer holds.
    Reuse,
    /// Fetch the artifact at this position of the release and report
    /// `Delivered` or `FetchFailed`.
    Fetch { artifact: usize },
    /// Unpack the delivered bytes and report `Unpacked` or `UnpackFailed`.
    Unpack,
    /// Store the layer's record; the tool is ready.
    Finish,
    /// Stop: the tool was not installed.
    Fail(InstallError),
}

/// The stage an installation starts in: nothing to do where the layer
/// records the release's version, else fetching the first artifact for the
/// platform, and failed where there is none.
pub open spec fn first_stage(release: ReleaseView, layer: Option<VersionView>, platform: Platform)
    -> Stage {
    if layer == Some(release.version) {
        Stage::Reused
    } else if exists|i: int| is_artifact_for(release, platform, i) {
        Stage::Fetching { artifact: (choose|i: int| is_artifact_for(release, platform, i)) as usize }
    } else {
        Stage::Failed(InstallError::ArtifactUnavailable)
    }
}

/// The stage that follows `stage` on `event`. An event that the stage does
/// not wait for changes nothing.
pub open spec fn next_stage(release: ReleaseView, stage: Stage, event: InstallEvent) -> Stage {
    match (stage, event) {
        (Stage::Fetching { artifact }, InstallEvent::Delivered(bytes)) => {
            if artifact < release.artifacts.len() && sha256_digest(bytes@)
                == release.artifacts[artifact as int].checksum {
                Stage::Unpacking
            } else {
                Stage::Failed(InstallError::ChecksumMismatch)
            }
        },
        (Stage::Fetching { .. }, InstallEvent::FetchFailed) => Stage::Failed(
            InstallError::ArtifactUnavailable,
        ),
        (Stage::Unpacking, InstallEvent::Unpacked) => Stage::Installed,
        (Stage::Unpacking, InstallEvent::UnpackFailed) => Stage::Failed(
            InstallError::ArtifactUnavailable,
        ),
        _ => stage,
    }
}

/// The layer's record after `event` arrived in `stage`: the release's
/// version once it is unpacked, and what it was in every other case.
pub open spec fn layer_after(
    release: ReleaseView,
    layer: Option<VersionView>,
    stage: Stage,
    event: InstallEvent,
) -> Option<VersionView> {
    if stage == Stage::Unpacking && event is Unpacked {
        Some(release.version)
    } else {
        layer
    }
}

/// What a stage asks of the caller.
pub open spec fn action_of(stage: Stage) -> InstallAction {
    match stage {
        Stage::Reused => InstallAction::Reuse,
        Stage::Fetching { artifact } => InstallAction::Fetch { artifact },
        Stage::Unpacking => InstallAction::Unpack,
        Stage::Installed => InstallAction::Finish,
        Stage::Failed(e) => InstallAction::Fail(e),
    }
}

/// The installation of one release for one platform into one layer.
#[derive(Debug)]
pub struct Installation<'a> {
    release: &'a Release,
    platform: Platform,
    layer: ToolLayer,
    stage: Stage,
}

impl<'a> Installation<'a> {
    #[verifier::type_invariant]
    spec fn fetches_a_listed_artifact(&self) -> bool {
        self.stage matches Stage::Fetching { artifact } ==> is_artifact_for(
            self.release@,
            self.platform,
            artifact as int,
        )
    }

    /// The release being installed.
    pub closed spec fn release(&self) -> ReleaseView {
        self.release@
    }

    /// The platform it is installed for.
    pub closed spec fn platform(&self) -> Platform {
        self.platform
    }

    /// The layer's record.
    pub closed spec fn layer(&self) -> Option<VersionView> {
        self.layer@
    }

    /// Where the installation stands.
    pub closed spec fn stage(&self) -> Stage {
        self.stage
    }

    /// Starts installing `release` for `platform` into `layer`, and says
    /// what is to be done first.
    pub fn begin(release: &'a Release, layer: ToolLayer, platform: Platform) -> (r: (
        Installation<'a>,
        InstallAction,
    ))
        ensures
            r.0.release() == release@,
            r.0.platform() == platform,
            r.0.layer() == layer@,
            r.0.stage() == first_stage(release@, layer@, platform),
            r.1 == action_of(r.0.stage()),
    {
        let reuse = match &layer.installed {
            Some(v) => v.same_as(&release.version),
            None => false,
        };
        let stage = if reuse {
            Stage::Reused
        } else {
            match release.artifact_for(platform) {
                Some(i) => {
                    proof {
                        let c = choose|k: int| is_artifact_for(release@, platform, k);
                        assert(is_artifact_for(release@, platform, i as int));
                        assert(c == i);
                    }
                    Stage::Fetching { artifact: i }
                },
                None => {
                    assert forall|k: int| !is_artifact_for(release@, platform, k) by {}
                    Stage::Failed(InstallError::ArtifactUnavailable)
                },
            }
        };
        let action = Self::pending(stage);
        (Installation { release, platform, layer, stage }, action)
    }

    fn pending(stage: Stage) -> (r: InstallAction)
        ensures
            r == action_of(stage),
    {
        match stage {
            Stage::Reused => InstallAction::Reuse,
            Stage::Fetching { artifact } => InstallAction::Fetch { artifact },
            Stage::Unpacking => InstallAction::Unpack,
            Stage::Installed => InstallAction::Finish,
            Stage::Failed(e) => InstallAction::Fail(e),
        }
    }

    /// Takes the result of the step last asked for and says what is to be
    /// done next. Bytes are accepted for unpacking only if their digest is
    /// the one the catalog gives; the layer's record changes only when the
    /// release has been unpacked.
    pub fn step(&mut self, event: InstallEvent) -> (action: InstallAction)
        ensures
            final(self).release() == old(self).release(),
            final(self).platform() == old(self).platform(),
            final(self).stage() == next_stage(old(self).release(), old(self).stage(), event),
            final(self).layer() == layer_after(
                old(self).release(),
                old(self).layer(),
                old(self).stage(),
                event,
            ),
            action == action_of(final(self).stage()),
    {
        proof {
            use_type_invariant(&*self);
        }
        match self.stage {
            Stage::Fetching { artifact } => {
                match event {
                    InstallEvent::Delivered(bytes) => {
                        let digest = sha256(bytes.as_slice());
                        let expected = &self.release.artifacts[artifact].checksum;
                        assert(self.release@.artifacts[artifact as int].checksum == expected@);
                        if bytes_equal(digest.as_slice(), expected.as_slice()) {
                            self.stage = Stage::Unpacking;
                        } else {
                            self.stage = Stage::Failed(InstallError::ChecksumMismatch);
                        }
                    },
                    InstallEvent::FetchFailed => {
                        self.stage = Stage::Failed(InstallError::ArtifactUnavailable);
                    },
                    _ => {},
                }
            },
            Stage::Unpacking => {
                match event {
                    InstallEvent::Unpacked => {
                        self.layer.installed = Some(self.release.version.duplicate());
                        self.stage = Stage::Installed;
                    },
                    InstallEvent::UnpackFailed => {
                        self.stage = Stage::Failed(InstallError::ArtifactUnavailable);
                    },
                    _ => {},
                }
            },
            _ => {},
        }
        Self::pending(self.stage)
    }

    /// Where the installation stands.
    pub fn current_stage(&self) -> (r: Stage)
        ensures
            r == self.stage(),
    {
        self.stage
    }

    /// Ends the installation and hands the layer's record back.
    pub fn into_layer(self) -> (r: ToolLayer)
        ensures
            r@ == self.layer(),
    {
        self.layer
    }
}

/// Installing a release that the layer already records fetches nothing.
pub proof fn lemma_recorded_release_is_reused(release: ReleaseView, platform: Platform)
    ensures
        first_stage(release, Some(release.version), platform) == Stage::Reused,
        action_of(first_stage(release, Some(release.version), platform)) == InstallAction::Reuse,
{
}

/// Once an installation of a release has finished, a second installation
/// of that release into the same layer fetches nothing, on any platform.
pub proof fn lemma_second_install_reuses(
    release: ReleaseView,
    layer: Option<VersionView>,
    stage: Stage,
    event: InstallEvent,
    platform: Platform,
)
    requires
        stage != Stage::Installed,
        next_stage(release, stage, event) == Stage::Installed,
    ensures
        first_stage(release, layer_after(release, layer, stage, event), platform) == Stage::Reused,
{
}

/// Bytes whose digest is not the catalog's checksum end the installation
/// with `ChecksumMismatch` and leave the layer's record as it was.
pub proof fn lemma_mismatch_fails_and_keeps_layer(
    release: ReleaseView,
    layer: Option<VersionView>,
    artifact: usize,
    bytes: Vec<u8>,
)
    requires
        artifact < release.artifacts.len(),
        sha256_digest(bytes@) != release.artifacts[artifact as int].checksum,
    ensures
        next_stage(release, Stage::Fetching { artifact }, InstallEvent::Delivered(bytes))
            == Stage::Failed(InstallError::ChecksumMismatch),
        layer_after(release, layer, Stage::Fetching { artifact }, InstallEvent::Delivered(bytes))
            == layer,
{
}

/// Nothing is unpacked that was not checked: an installation comes to
/// unpacking only by bytes whose digest is the checksum of the artifact
/// that was being fetched.
pub proof fn lemma_only_verified_bytes_are_unpacked(
    release: ReleaseView,
    stage: Stage,
    event: InstallEvent,
)
    requires
        stage != Stage::Unpacking,
        next_stage(release, stage, event) == Stage::Unpacking,
    ensures
        stage matches Stage::Fetching { artifact } && event matches InstallEvent::Delivered(bytes)
            && artifact < release.artifacts.len() && sha256_digest(bytes@)
            == release.artifacts[artifact as int].checksum,
{
}

/// The layer's record changes only when the release has been unpacked:
/// every step that fails leaves it as it was.
pub proof fn lemma_failure_keeps_layer(
    release: ReleaseView,
    layer: Option<VersionView>,
    stage: Stage,
    event: InstallEvent,
)
    requires
        next_stage(release, stage, event) is Failed,
    ensures
        layer_after(release, layer, stage, event) == layer,
{
}

} // verus!
