//! Building a catalog from the text fields of an inventory document.

use vstd::prelude::*;
use vstd::string::StringExecFns;
use vstd::string::StringSliceAdditionalSpecFns;
use vstd::utf8::encode_utf8;
use crate::catalog::release_views;
use crate::catalog::distinct_versions;
use crate::catalog::Arch;
use crate::catalog::Artifact;
use crate::catalog::ArtifactView;
use crate::catalog::Catalog;
use crate::catalog::CatalogError;
use crate::catalog::Os;
use crate::catalog::Platform;
use crate::catalog::Release;
use crate::catalog::ReleaseView;
use crate::digest::bytes_of_hex;
use crate::digest::decode_hex;
use crate::notation::version_of;
use crate::version::Version;

verus! {

/// One artifact as the inventory document lists it.
#[derive(Clone, Debug, PartialEq, Eq)]
pub struct ArtifactEntry {
    /// The operating system: `linux` or `darwin`.
    pub os: String,
    /// The architecture: `amd64` or `arm64`.
    pub arch: String,
    pub url: String,
    /// The SHA-256 digest of the artifact, as 64 hexadecimal digits.
    pub checksum: String,
}

/// One release as the inventory document lists it.
#[derive(Clone, Debug, PartialEq, Eq)]
pub struct ReleaseEntry {
    pub version: String,
    pub artifacts: Vec<ArtifactEntry>,
}

/// What is wrong with an inventory, by position.
#[derive(Clone, Copy, Debug, PartialEq, Eq, Structural)]
pub enum InventoryError {
    /// The version of this release cannot be read.
    InvalidVersion { release: usize },
    /// This artifact names an operating system or architecture that is not
    /// known.
    UnknownPlatform { release: usize, artifact: usize },
    /// The checksum of this artifact is not a SHA-256 digest in
    /// hexadecimal digits.
    InvalidChecksum { release: usize, artifact: usize },
    /// These two releases have the same version.
    DuplicateVersion { first: usize, second: usize },
}

/// The operating system that a name stands for.
pub open spec fn os_of(name: Seq<char>) -> Option<Os> {
    if name == "linux"@ {
        Some(Os::Linux)
    } else if name == "darwin"@ {
        Some(Os::Darwin)
    } else {
        None
    }
}

/// The architecture that a name stands for.
pub open spec fn arch_of(name: Seq<char>) -> Option<Arch> {
    if name == "amd64"@ {
        Some(Arch::Amd64)
    } else if name == "arm64"@ {
        Some(Arch::Arm64)
    } else {
        None
    }
}

/// The platform that an entry names.
pub open spec fn platform_of(entry: ArtifactEntry) -> Option<Platform> {
    match (os_of(entry.os@), arch_of(entry.arch@)) {
        (Some(os), Some(arch)) => Some(Platform { os, arch }),
        _ => None,
    }
}

/// The digest that a checksum text denotes: hexadecimal digits for
/// exactly 32 bytes.
pub open spec fn checksum_of(text: Seq<char>) -> Option<Seq<u8>> {
    match bytes_of_hex(encode_utf8(text)) {
        Some(bytes) => if bytes.len() == 32 {
            Some(bytes)
        } else {
            None
        },
        None => None,
    }
}

/// The artifact that an entry denotes.
pub open spec fn artifact_of(entry: ArtifactEntry) -> Option<ArtifactView> {
    match (platform_of(entry), checksum_of(entry.checksum@)) {
        (Some(platform), Some(checksum)) => Some(
            ArtifactView { platform, url: entry.url@, checksum },
        ),
        _ => None,
    }
}

/// The release that an entry denotes.
pub open spec fn release_of(entry: ReleaseEntry) -> Option<ReleaseView> {
    if version_of(encode_utf8(entry.version@)) is Some && forall|i: int|
        0 <= i < entry.artifacts@.len() ==> (#[trigger] artifact_of(entry.artifacts@[i])) is Some {
        Some(
            ReleaseView {
                version: version_of(encode_utf8(entry.version@))->0,
                artifacts: Seq::new(
                    entry.artifacts@.len(),
                    |i: int| artifact_of(entry.artifacts@[i])->0,
                ),
            },
        )
    } else {
        None
    }
}

/// `error` names the first thing that is wrong with `entries`: the first
/// release that denotes nothing, with its first artifact that denotes
/// nothing; or, where every entry denotes a release, the first release
/// that repeats the version of an earlier one.
pub open spec fn is_first_fault(entries: Seq<ReleaseEntry>, error: InventoryError) -> bool {
    match error {
        InventoryError::InvalidVersion { release } => {
            &&& release < entries.len()
            &&& forall|i: int| 0 <= i < release ==> (#[trigger] release_of(entries[i])) is Some
            &&& version_of(encode_utf8(entries[release as int].version@)) is None
        },
        InventoryError::UnknownPlatform { release, artifact } => {
            &&& release < entries.len()
            &&& forall|i: int| 0 <= i < release ==> (#[trigger] release_of(entries[i])) is Some
            &&& version_of(encode_utf8(entries[release as int].version@)) is Some
            &&& artifact < entries[release as int].artifacts@.len()
            &&& forall|j: int|
                0 <= j < artifact ==> (#[trigger] artifact_of(
                    entries[release as int].artifacts@[j],
                )) is Some
            &&& platform_of(entries[release as int].artifacts@[artifact as int]) is None
        },
        InventoryError::InvalidChecksum { release, artifact } => {
            &&& release < entries.len()
            &&& forall|i: int| 0 <= i < release ==> (#[trigger] release_of(entries[i])) is Some
            &&& version_of(encode_utf8(entries[release as int].version@)) is Some
            &&& artifact < entries[release as int].artifacts@.len()
            &&& forall|j: int|
                0 <= j < artifact ==> (#[trigger] artifact_of(
                    entries[release as int].artifacts@[j],
                )) is Some
            &&& platform_of(entries[release as int].artifacts@[artifact as int]) is Some
            &&& checksum_of(entries[release as int].artifacts@[artifact as int].checksum@) is None
        },
        InventoryError::DuplicateVersion { first, second } => {
            &&& first < second < entries.len()
            &&& forall|i: int| 0 <= i < entries.len() ==> (#[trigger] release_of(entries[i])) is Some
            &&& release_of(entries[first as int])->0.version == release_of(
                entries[second as int],
            )->0.version
            &&& forall|i: int, j: int|
                0 <= i < j < second ==> (#[trigger] release_of(entries[i]))->0.version != (
                #[trigger] release_of(entries[j]))->0.version
            &&& forall|i: int|
                0 <= i < first ==> (#[trigger] release_of(entries[i]))->0.version != release_of(
                    entries[second as int],
                )->0.version
        },
    }
}

fn parse_os(name: &String) -> (r: Option<Os>)
    ensures
        r == os_of(name@),
{
    if *name == String::from_str("linux") {
        Some(Os::Linux)
    } else if *name == String::from_str("darwin") {
        Some(Os::Darwin)
    } else {
        None
    }
}

fn parse_arch(name: &String) -> (r: Option<Arch>)
    ensures
        r == arch_of(name@),
{
    if *name == String::from_str("amd64") {
        Some(Arch::Amd64)
    } else if *name == String::from_str("arm64") {
        Some(Arch::Arm64)
    } else {
        None
    }
}

/// Reads the platform that an operating system and an architecture name.
pub fn parse_platform(os: &String, arch: &String) -> (r: Option<Platform>)
    ensures
        r == match (os_of(os@), arch_of(arch@)) {
            (Some(os), Some(arch)) => Some(Platform { os, arch }),
            _ => None,
        },
{
    match (parse_os(os), parse_arch(arch)) {
        (Some(os), Some(arch)) => Some(Platform { os, arch }),
        _ => None,
    }
}

/// Reads a checksum: 64 hexadecimal digits.
pub fn parse_checksum(text: &String) -> (r: Option<Vec<u8>>)
    ensures
        match r {
            Some(bytes) => checksum_of(text@) == Some(bytes@),
            None => checksum_of(text@) is None,
        },
{
    match decode_hex(text.as_str().as_bytes()) {
        Some(bytes) => if bytes.len() == 32 {
            Some(bytes)
        } else {
            None
        },
        None => None,
    }
}

/// Whether an artifact entry names an unknown platform (`true`) or holds a
/// bad checksum (`false`); the artifact, where neither is the case.
fn read_artifact(entry: &ArtifactEntry) -> (r: Result<Artifact, bool>)
    ensures
        match r {
            Ok(artifact) => artifact_of(*entry) == Some(artifact@),
            Err(unknown_platform) => {
                &&& artifact_of(*entry) is None
                &&& unknown_platform == (platform_of(*entry) is None)
                &&& !unknown_platform ==> checksum_of(entry.checksum@) is None
            },
        },
{
    let platform = match parse_platform(&entry.os, &entry.arch) {
        Some(p) => p,
        None => {
            return Err(true);
        },
    };
    let checksum = match parse_checksum(&entry.checksum) {
        Some(c) => c,
        None => {
            return Err(false);
        },
    };
    Ok(Artifact { platform, url: entry.url.clone(), checksum })
}

/// Builds the catalog that the entries of an inventory denote, or names
/// the first thing that is wrong with them.
pub fn load(entries: &Vec<ReleaseEntry>) -> (r: Result<Catalog, InventoryError>)
    ensures
        match r {
            Ok(catalog) => {
                &&& distinct_versions(catalog@)
                &&& catalog@.len() == entries@.len()
                &&& forall|i: int|
                    0 <= i < entries@.len() ==> #[trigger] release_of(entries@[i]) == Some(
                        catalog@[i],
                    )
            },
            Err(error) => is_first_fault(entries@, error),
        },
{
    let mut releases: Vec<Release> = Vec::new();
    let mut i: usize = 0;
    while i < entries.len()
        invariant
            i <= entries.len(),
            releases@.len() == i,
            forall|k: int| 0 <= k < i ==> #[trigger] release_of(entries@[k]) == Some(releases@[k]@),
        decreases entries.len() - i,
    {
        let entry = &entries[i];
        let version = match Version::parse(entry.version.as_str()) {
            Some(v) => v,
            None => {
                return Err(InventoryError::InvalidVersion { release: i });
            },
        };
        let mut artifacts: Vec<Artifact> = Vec::new();
        let mut j: usize = 0;
        while j < entry.artifacts.len()
            invariant
                j <= entry.artifacts.len(),
                artifacts@.len() == j,
                i < entries.len(),
                *entry == entries@[i as int],
                version_of(encode_utf8(entry.version@)) == Some(version@),
                forall|k: int| 0 <= k < i ==> #[trigger] release_of(entries@[k]) == Some(releases@[k]@),
                forall|k: int|
                    0 <= k < j ==> #[trigger] artifact_of(entry.artifacts@[k]) == Some(
                        artifacts@[k]@,
                    ),
            decreases entry.artifacts.len() - j,
        {
            match read_artifact(&entry.artifacts[j]) {
                Ok(artifact) => {
                    artifacts.push(artifact);
                },
                Err(unknown_platform) => {
                    if unknown_platform {
                        return Err(InventoryError::UnknownPlatform { release: i, artifact: j });
                    } else {
                        return Err(InventoryError::InvalidChecksum { release: i, artifact: j });
                    }
                },
            }
            j += 1;
        }
        let release = Release { version, artifacts };
        proof {
            assert(release_of(*entry) is Some);
            assert(release_of(*entry)->0.artifacts =~= release@.artifacts);
        }
        releases.push(release);
        i += 1;
    }
    let ghost all = release_views(releases@);
    match Catalog::new(releases) {
        Ok(catalog) => Ok(catalog),
        Err(CatalogError::DuplicateVersion { first, second }) => {
            proof {
                assert forall|a: int, b: int| 0 <= a < b < second implies (#[trigger] release_of(
                    entries@[a],
                ))->0.version != (#[trigger] release_of(entries@[b]))->0.version by {
                    assert(all.take(second as int)[a].version != all.take(second as int)[b].version);
                }
                assert forall|a: int| 0 <= a < first implies (#[trigger] release_of(
                    entries@[a],
                ))->0.version != release_of(entries@[second as int])->0.version by {
                    assert(all[a].version != all[second as int].version);
                }
            }
            Err(InventoryError::DuplicateVersion { first, second })
        },
    }
}

} // verus!
