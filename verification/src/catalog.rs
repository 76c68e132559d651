//! The catalog of installable releases and the choice of one for a range.

use vstd::prelude::*;
use crate::constraint::Constraint;
use crate::version::lemma_precedes_irreflexive;
use crate::version::lemma_precedes_total;
use crate::version::lemma_precedes_transitive;
use crate::version::precedes;
use crate::version::Version;
use crate::version::VersionView;

verus! {

/// An operating system that artifacts are built for.
#[derive(Clone, Copy, Debug, PartialEq, Eq, Structural)]
pub enum Os {
    Linux,
    Darwin,
}

/// A processor architecture that artifacts are built for.
#[derive(Clone, Copy, Debug, PartialEq, Eq, Structural)]
pub enum Arch {
    Amd64,
    Arm64,
}

/// The platform an artifact runs on.
#[derive(Clone, Copy, Debug, PartialEq, Eq, Structural)]
pub struct Platform {
    pub os: Os,
    pub arch: Arch,
}

/// One downloadable build of a release.
#[derive(Clone, Debug, PartialEq, Eq)]
pub struct Artifact {
    pub platform: Platform,
    /// Where the artifact is fetched from.
    pub url: String,
    /// The SHA-256 digest that the artifact's bytes must have.
    pub checksum: Vec<u8>,
}

/// The mathematical value of an [`Artifact`].
pub struct ArtifactView {
    pub platform: Platform,
    pub url: Seq<char>,
    pub checksum: Seq<u8>,
}

impl View for Artifact {
    type V = ArtifactView;

    open spec fn view(&self) -> ArtifactView {
        ArtifactView { platform: self.platform, url: self.url@, checksum: self.checksum@ }
    }
}

/// A release of the tool with its artifacts, one per platform.
#[derive(Clone, Debug, PartialEq, Eq)]
pub struct Release {
    pub version: Version,
    pub artifacts: Vec<Artifact>,
}

/// The mathematical value of a [`Release`].
pub struct ReleaseView {
    pub version: VersionView,
    pub artifacts: Seq<ArtifactView>,
}

impl View for Release {
    type V = ReleaseView;

    open spec fn view(&self) -> ReleaseView {
        ReleaseView {
            version: self.version@,
            artifacts: Seq::new(self.artifacts@.len(), |i: int| self.artifacts@[i]@),
        }
    }
}

/// The values of the releases that a vector holds.
pub open spec fn release_views(v: Seq<Release>) -> Seq<ReleaseView> {
    Seq::new(v.len(), |i: int| v[i]@)
}

/// No version occurs twice.
pub open spec fn distinct_versions(releases: Seq<ReleaseView>) -> bool {
    forall|i: int, j: int|
        0 <= i < j < releases.len() ==> (#[trigger] releases[i]).version != (
        #[trigger] releases[j]).version
}

/// `i` is the first artifact of `release` built for `platform`.
pub open spec fn is_artifact_for(release: ReleaseView, platform: Platform, i: int) -> bool {
    &&& 0 <= i < release.artifacts.len()
    &&& release.artifacts[i].platform == platform
    &&& forall|j: int| 0 <= j < i ==> (#[trigger] release.artifacts[j]).platform != platform
}

/// `i` is a release of highest precedence among those that `range` admits.
pub open spec fn is_best(releases: Seq<ReleaseView>, range: Constraint, i: int) -> bool {
    &&& 0 <= i < releases.len()
    &&& range.admits(releases[i].version)
    &&& forall|j: int|
        0 <= j < releases.len() && range.admits((#[trigger] releases[j]).version) ==> !precedes(
            releases[i].version,
            releases[j].version,
        )
}

/// The position of the release that `range` resolves to, if it admits any.
pub open spec fn resolution(releases: Seq<ReleaseView>, range: Constraint) -> Option<int> {
    if exists|i: int| is_best(releases, range, i) {
        Some(choose|i: int| is_best(releases, range, i))
    } else {
        None
    }
}

/// `release` is what the catalog offers for `range`: an entry of the
/// catalog that the range admits and that no admitted entry exceeds.
pub open spec fn resolves_to(
    releases: Seq<ReleaseView>,
    range: Constraint,
    release: ReleaseView,
) -> bool {
    exists|i: int| is_best(releases, range, i) && releases[i] == release
}

/// Why no release was chosen.
#[derive(Clone, Copy, Debug, PartialEq, Eq, Structural)]
pub enum ResolveError {
    /// No release of the catalog lies in the range.
    NoMatchingRelease,
}

/// Why a list of releases is no catalog.
#[derive(Clone, Copy, Debug, PartialEq, Eq, Structural)]
pub enum CatalogError {
    /// The releases at these two positions have the same version.
    DuplicateVersion { first: usize, second: usize },
}

/// The known releases, in the order they were listed, each version once.
#[derive(Debug, PartialEq, Eq)]
pub struct Catalog {
    releases: Vec<Release>,
}

impl View for Catalog {
    type V = Seq<ReleaseView>;

    closed spec fn view(&self) -> Seq<ReleaseView> {
        release_views(self.releases@)
    }
}

impl Release {
    /// The artifact built for `platform`, the first one if several are.
    pub fn artifact_for(&self, platform: Platform) -> (r: Option<usize>)
        ensures
            match r {
                Some(i) => is_artifact_for(self@, platform, i as int),
                None => forall|i: int|
                    0 <= i < self@.artifacts.len() ==> (
                    #[trigger] self@.artifacts[i]).platform != platform,
            },
    {
        let mut i: usize = 0;
        while i < self.artifacts.len()
            invariant
                i <= self.artifacts.len(),
                forall|j: int| 0 <= j < i ==> (#[trigger] self@.artifacts[j]).platform != platform,
            decreases self.artifacts.len() - i,
        {
            if self.artifacts[i].platform == platform {
                return Some(i);
            }
            i += 1;
        }
        None
    }
}

impl Catalog {
    #[verifier::type_invariant]
    spec fn each_version_once(&self) -> bool {
        distinct_versions(release_views(self.releases@))
    }

    /// Makes a catalog of `releases`, unless a version occurs twice. The
    /// error names the first position that repeats an earlier version, and
    /// the earliest position of that version.
    pub fn new(releases: Vec<Release>) -> (r: Result<Catalog, CatalogError>)
        ensures
            match r {
                Ok(catalog) => catalog@ == release_views(releases@) && distinct_versions(
                    catalog@,
                ),
                Err(CatalogError::DuplicateVersion { first, second }) => {
                    let all = release_views(releases@);
                    &&& first < second < all.len()
                    &&& all[first as int].version == all[second as int].version
                    &&& distinct_versions(all.take(second as int))
                    &&& forall|i: int|
                        0 <= i < first ==> (#[trigger] all[i]).version != all[second as int].version
                },
            },
    {
        let ghost all = release_views(releases@);
        let mut j: usize = 0;
        while j < releases.len()
            invariant
                all == release_views(releases@),
                j <= releases.len(),
                distinct_versions(all.take(j as int)),
            decreases releases.len() - j,
        {
            let mut i: usize = 0;
            while i < j
                invariant
                    all == release_views(releases@),
                    i <= j < releases.len(),
                    distinct_versions(all.take(j as int)),
                    forall|k: int| 0 <= k < i ==> (#[trigger] all[k]).version != all[j as int].version,
                decreases j - i,
            {
                assert(all[i as int] == releases@[i as int]@);
                assert(all[j as int] == releases@[j as int]@);
                if releases[i].version.same_as(&releases[j].version) {
                    return Err(CatalogError::DuplicateVersion { first: i, second: j });
                }
                i += 1;
            }
            proof {
                let next = all.take(j + 1);
                assert forall|a: int, b: int| 0 <= a < b < next.len() implies (
                #[trigger] next[a]).version != (#[trigger] next[b]).version by {
                    if b < j {
                        assert(all.take(j as int)[a].version != all.take(j as int)[b].version);
                    }
                }
            }
            j += 1;
        }
        proof {
            assert(all.take(releases@.len() as int) =~= all);
        }
        Ok(Catalog { releases })
    }

    /// The number of releases.
    pub fn len(&self) -> (r: usize)
        ensures
            r == self@.len(),
    {
        self.releases.len()
    }

    /// The release at position `i`.
    pub fn get(&self, i: usize) -> (r: &Release)
        requires
            i < self@.len(),
        ensures
            r@ == self@[i as int],
    {
        &self.releases[i]
    }

    /// The position of the release for `range`: the one of highest
    /// precedence among those that the range admits.
    pub fn resolve_index(&self, range: &Constraint) -> (r: Result<usize, ResolveError>)
        ensures
            distinct_versions(self@),
            match r {
                Ok(i) => is_best(self@, *range, i as int) && resolution(self@, *range) == Some(
                    i as int,
                ),
                Err(e) => e == ResolveError::NoMatchingRelease && resolution(self@, *range)
                    is None && forall|i: int|
                    0 <= i < self@.len() ==> !range.admits((#[trigger] self@[i]).version),
            },
    {
        proof {
            use_type_invariant(self);
        }
        let ghost all = self@;
        let mut best: Option<usize> = None;
        let mut i: usize = 0;
        while i < self.releases.len()
            invariant
                all == release_views(self.releases@),
                i <= self.releases.len(),
                match best {
                    Some(b) => {
                        &&& b < i
                        &&& range.admits(all[b as int].version)
                        &&& forall|j: int|
                            0 <= j < i && range.admits((#[trigger] all[j]).version) ==> !precedes(
                                all[b as int].version,
                                all[j].version,
                            )
                    },
                    None => forall|j: int|
                        0 <= j < i ==> !range.admits((#[trigger] all[j]).version),
                },
            decreases self.releases.len() - i,
        {
            let candidate = &self.releases[i];
            assert(candidate@ == all[i as int]);
            if range.allows(&candidate.version) {
                match best {
                    Some(b) => {
                        assert(self.releases@[b as int]@ == all[b as int]);
                        if self.releases[b].version.lower_than(&candidate.version) {
                            proof {
                                let top = all[i as int].version;
                                lemma_precedes_irreflexive(top);
                                assert forall|j: int|
                                    0 <= j < i + 1 && range.admits(
                                        (#[trigger] all[j]).version,
                                    ) implies !precedes(top, all[j].version) by {
                                    if j < i && precedes(top, all[j].version) {
                                        lemma_precedes_transitive(
                                            all[b as int].version,
                                            top,
                                            all[j].version,
                                        );
                                    }
                                }
                            }
                            best = Some(i);
                        }
                    },
                    None => {
                        proof {
                            lemma_precedes_irreflexive(all[i as int].version);
                        }
                        best = Some(i);
                    },
                }
            }
            i += 1;
        }
        match best {
            Some(b) => {
                proof {
                    assert(is_best(all, *range, b as int));
                    lemma_best_is_unique(
                        all,
                        *range,
                        b as int,
                        choose|i: int| is_best(all, *range, i),
                    );
                }
                Ok(b)
            },
            None => {
                assert forall|i: int| !is_best(all, *range, i) by {}
                Err(ResolveError::NoMatchingRelease)
            },
        }
    }

    /// The release for `range`: the one of highest precedence among those
    /// that the range admits.
    pub fn resolve(&self, range: &Constraint) -> (r: Result<&Release, ResolveError>)
        ensures
            distinct_versions(self@),
            match r {
                Ok(release) => resolves_to(self@, *range, release@),
                Err(e) => e == ResolveError::NoMatchingRelease && forall|i: int|
                    0 <= i < self@.len() ==> !range.admits((#[trigger] self@[i]).version),
            },
    {
        match self.resolve_index(range) {
            Ok(i) => {
                let release = &self.releases[i];
                assert(is_best(self@, *range, i as int) && self@[i as int] == release@);
                Ok(release)
            },
            Err(e) => Err(e),
        }
    }
}

/// In a catalog that holds each version once, only one position is best
/// for a range.
pub proof fn lemma_best_is_unique(releases: Seq<ReleaseView>, range: Constraint, i: int, j: int)
    requires
        distinct_versions(releases),
        is_best(releases, range, i),
        is_best(releases, range, j),
    ensures
        i == j,
{
    lemma_precedes_total(releases[i].version, releases[j].version);
}

/// Resolution is a function of the range and the catalog: whatever two
/// resolutions of the same range against the same catalog give is the same
/// release.
pub proof fn lemma_resolution_is_deterministic(
    releases: Seq<ReleaseView>,
    range: Constraint,
    first: ReleaseView,
    second: ReleaseView,
)
    requires
        distinct_versions(releases),
        resolves_to(releases, range, first),
        resolves_to(releases, range, second),
    ensures
        first == second,
{
    let i = choose|i: int| is_best(releases, range, i) && releases[i] == first;
    let j = choose|j: int| is_best(releases, range, j) && releases[j] == second;
    lemma_best_is_unique(releases, range, i, j);
}

} // verus!
