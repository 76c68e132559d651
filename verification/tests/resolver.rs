use yarn_buildpack::catalog::Arch;
use yarn_buildpack::catalog::Artifact;
use yarn_buildpack::catalog::Catalog;
use yarn_buildpack::catalog::CatalogError;
use yarn_buildpack::catalog::Os;
use yarn_buildpack::catalog::Platform;
use yarn_buildpack::catalog::Release;
use yarn_buildpack::catalog::ResolveError;
use yarn_buildpack::constraint::Constraint;
use yarn_buildpack::version::Identifier;
use yarn_buildpack::version::Version;

fn release(major: u64, minor: u64, patch: u64) -> Release {
    Release { version: Version::new(major, minor, patch), artifacts: Vec::new() }
}

fn small_catalog() -> Catalog {
    Catalog::new(vec![release(1, 21, 0), release(1, 22, 0), release(1, 22, 1)]).unwrap()
}

fn artifact(os: Os, arch: Arch, url: &str) -> Artifact {
    Artifact { platform: Platform { os, arch }, url: url.to_string(), checksum: vec![1, 2, 3] }
}

#[test]
fn highest_release_in_range_is_chosen() {
    let catalog = small_catalog();
    let range = Constraint::parse("1.22.x").unwrap();
    let chosen = catalog.resolve(&range).unwrap();
    assert_eq!(chosen.version, Version::new(1, 22, 1));
    assert_eq!(catalog.resolve_index(&range), Ok(2));
}

#[test]
fn range_without_release_gives_no_match() {
    let catalog = small_catalog();
    let range = Constraint::parse("2.x").unwrap();
    assert_eq!(catalog.resolve(&range), Err(ResolveError::NoMatchingRelease));
    assert_eq!(catalog.resolve_index(&range), Err(ResolveError::NoMatchingRelease));
}

#[test]
fn resolving_twice_gives_the_same_release() {
    let catalog = small_catalog();
    for text in ["1.22.x", "1.x", "*", "1.21.0", "2.x", "1.22.0"] {
        let range = Constraint::parse(text).unwrap();
        let first = catalog.resolve(&range).map(|r| r.clone());
        let second = catalog.resolve(&range).map(|r| r.clone());
        assert_eq!(first, second);
        assert_eq!(catalog.resolve_index(&range), catalog.resolve_index(&range));
    }
}

#[test]
fn choice_does_not_depend_on_listing_order() {
    let orders = vec![
        vec![release(1, 22, 1), release(1, 22, 0), release(1, 21, 0), release(2, 4, 3)],
        vec![release(2, 4, 3), release(1, 21, 0), release(1, 22, 1), release(1, 22, 0)],
        vec![release(1, 22, 0), release(2, 4, 3), release(1, 21, 0), release(1, 22, 1)],
    ];
    for releases in orders {
        let catalog = Catalog::new(releases).unwrap();
        let pick = |text: &str| {
            catalog.resolve(&Constraint::parse(text).unwrap()).map(|r| r.version.clone())
        };
        assert_eq!(pick("1.22.x"), Ok(Version::new(1, 22, 1)));
        assert_eq!(pick("1.x"), Ok(Version::new(1, 22, 1)));
        assert_eq!(pick("*"), Ok(Version::new(2, 4, 3)));
        assert_eq!(pick("1.21"), Ok(Version::new(1, 21, 0)));
        assert_eq!(pick("1.22.0"), Ok(Version::new(1, 22, 0)));
        assert_eq!(pick("3.x"), Err(ResolveError::NoMatchingRelease));
    }
}

#[test]
fn empty_catalog_matches_nothing() {
    let catalog = Catalog::new(Vec::new()).unwrap();
    assert_eq!(catalog.len(), 0);
    assert_eq!(
        catalog.resolve(&Constraint::parse("*").unwrap()),
        Err(ResolveError::NoMatchingRelease)
    );
}

#[test]
fn pre_releases_are_never_chosen() {
    let pre = Release {
        version: Version::with_tag(1, 22, 9, vec![Identifier::Text(b"rc".to_vec())]),
        artifacts: Vec::new(),
    };
    let catalog = Catalog::new(vec![release(1, 22, 1), pre]).unwrap();
    let chosen = catalog.resolve(&Constraint::parse("1.22.x").unwrap()).unwrap();
    assert_eq!(chosen.version, Version::new(1, 22, 1));
}

#[test]
fn numbers_are_compared_as_numbers() {
    let catalog = Catalog::new(vec![release(1, 9, 0), release(1, 10, 0), release(1, 2, 0)]).unwrap();
    let chosen = catalog.resolve(&Constraint::parse("1.x").unwrap()).unwrap();
    assert_eq!(chosen.version, Version::new(1, 10, 0));
}

#[test]
fn catalog_refuses_a_repeated_version() {
    let r = Catalog::new(vec![release(1, 0, 0), release(1, 1, 0), release(1, 0, 0), release(1, 1, 0)]);
    assert_eq!(r, Err(CatalogError::DuplicateVersion { first: 0, second: 2 }));
    let same_numbers_other_tag = Release {
        version: Version::with_tag(1, 0, 0, vec![Identifier::Numeric(1)]),
        artifacts: Vec::new(),
    };
    assert!(Catalog::new(vec![release(1, 0, 0), same_numbers_other_tag]).is_ok());
}

#[test]
fn catalog_keeps_its_releases_in_order() {
    let catalog = small_catalog();
    assert_eq!(catalog.len(), 3);
    assert_eq!(catalog.get(0).version, Version::new(1, 21, 0));
    assert_eq!(catalog.get(1).version, Version::new(1, 22, 0));
    assert_eq!(catalog.get(2).version, Version::new(1, 22, 1));
}

#[test]
fn artifact_is_found_by_platform() {
    let r = Release {
        version: Version::new(1, 22, 5),
        artifacts: vec![
            artifact(Os::Darwin, Arch::Arm64, "a"),
            artifact(Os::Linux, Arch::Amd64, "b"),
            artifact(Os::Linux, Arch::Amd64, "c"),
        ],
    };
    assert_eq!(r.artifact_for(Platform { os: Os::Linux, arch: Arch::Amd64 }), Some(1));
    assert_eq!(r.artifact_for(Platform { os: Os::Darwin, arch: Arch::Arm64 }), Some(0));
    assert_eq!(r.artifact_for(Platform { os: Os::Linux, arch: Arch::Arm64 }), None);
    assert_eq!(release(1, 0, 0).artifact_for(Platform { os: Os::Linux, arch: Arch::Amd64 }), None);
}
