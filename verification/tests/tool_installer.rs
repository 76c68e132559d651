use yarn_buildpack::catalog::Arch;
use yarn_buildpack::catalog::Artifact;
use yarn_buildpack::catalog::Os;
use yarn_buildpack::catalog::Platform;
use yarn_buildpack::catalog::Release;
use yarn_buildpack::digest::decode_hex;
use yarn_buildpack::environment::tool_environment;
use yarn_buildpack::environment::Change;
use yarn_buildpack::environment::Mutation;
use yarn_buildpack::environment::Scope;
use yarn_buildpack::installer::InstallAction;
use yarn_buildpack::installer::InstallError;
use yarn_buildpack::installer::InstallEvent;
use yarn_buildpack::installer::Installation;
use yarn_buildpack::installer::Stage;
use yarn_buildpack::installer::ToolLayer;
use yarn_buildpack::version::Version;

const LINUX: Platform = Platform { os: Os::Linux, arch: Arch::Amd64 };
const MAC: Platform = Platform { os: Os::Darwin, arch: Arch::Arm64 };

// The artifact for Linux holds the bytes "abc".
fn release() -> Release {
    let digest_of_abc =
        decode_hex(b"ba7816bf8f01cfea414140de5dae2223b00361a396177a9cb410ff61f20015ad").unwrap();
    Release {
        version: Version::new(1, 22, 5),
        artifacts: vec![
            Artifact { platform: MAC, url: "https://example.test/mac".to_string(), checksum: vec![0; 32] },
            Artifact {
                platform: LINUX,
                url: "https://example.test/linux".to_string(),
                checksum: digest_of_abc,
            },
        ],
    }
}

// Runs an installation to its end with a fetcher that always delivers
// `bytes`, and counts how often it was asked.
fn install(release: &Release, layer: ToolLayer, bytes: &[u8], fetches: &mut u32) -> (Stage, ToolLayer) {
    let (mut installation, mut action) = Installation::begin(release, layer, LINUX);
    loop {
        action = match action {
            InstallAction::Fetch { artifact } => {
                assert_eq!(release.artifacts[artifact].platform, LINUX);
                *fetches += 1;
                installation.step(InstallEvent::Delivered(bytes.to_vec()))
            }
            InstallAction::Unpack => installation.step(InstallEvent::Unpacked),
            InstallAction::Reuse | InstallAction::Finish | InstallAction::Fail(_) => break,
        };
    }
    (installation.current_stage(), installation.into_layer())
}

#[test]
fn empty_layer_is_filled() {
    let r = release();
    let mut fetches = 0;
    let (stage, layer) = install(&r, ToolLayer { installed: None }, b"abc", &mut fetches);
    assert_eq!(stage, Stage::Installed);
    assert_eq!(fetches, 1);
    assert_eq!(layer.installed, Some(Version::new(1, 22, 5)));
}

#[test]
fn second_install_fetches_nothing() {
    let r = release();
    let mut fetches = 0;
    let (_, layer) = install(&r, ToolLayer { installed: None }, b"abc", &mut fetches);
    let (stage, layer) = install(&r, layer, b"abc", &mut fetches);
    assert_eq!(stage, Stage::Reused);
    assert_eq!(fetches, 1);
    assert_eq!(layer.installed, Some(Version::new(1, 22, 5)));
    let (installation, action) = Installation::begin(&r, layer, MAC);
    assert_eq!(action, InstallAction::Reuse);
    assert_eq!(installation.current_stage(), Stage::Reused);
}

#[test]
fn other_version_in_layer_is_replaced() {
    let r = release();
    let mut fetches = 0;
    let old = ToolLayer { installed: Some(Version::new(1, 22, 4)) };
    let (stage, layer) = install(&r, old, b"abc", &mut fetches);
    assert_eq!(stage, Stage::Installed);
    assert_eq!(fetches, 1);
    assert_eq!(layer.installed, Some(Version::new(1, 22, 5)));
}

#[test]
fn wrong_bytes_fail_and_leave_the_layer() {
    let r = release();
    for before in [None, Some(Version::new(1, 22, 4))] {
        let mut fetches = 0;
        let (stage, layer) =
            install(&r, ToolLayer { installed: before.clone() }, b"abd", &mut fetches);
        assert_eq!(stage, Stage::Failed(InstallError::ChecksumMismatch));
        assert_eq!(fetches, 1);
        assert_eq!(layer.installed, before);
    }
}

#[test]
fn checksum_of_another_platform_does_not_count() {
    let r = release();
    let (mut installation, action) = Installation::begin(&r, ToolLayer { installed: None }, MAC);
    assert_eq!(action, InstallAction::Fetch { artifact: 0 });
    let action = installation.step(InstallEvent::Delivered(b"abc".to_vec()));
    assert_eq!(action, InstallAction::Fail(InstallError::ChecksumMismatch));
}

#[test]
fn failed_fetch_is_unavailable() {
    let r = release();
    let (mut installation, action) = Installation::begin(&r, ToolLayer { installed: None }, LINUX);
    assert_eq!(action, InstallAction::Fetch { artifact: 1 });
    let action = installation.step(InstallEvent::FetchFailed);
    assert_eq!(action, InstallAction::Fail(InstallError::ArtifactUnavailable));
    assert_eq!(installation.current_stage(), Stage::Failed(InstallError::ArtifactUnavailable));
    assert_eq!(installation.into_layer().installed, None);
}

#[test]
fn failed_unpacking_is_unavailable() {
    let r = release();
    let (mut installation, _) = Installation::begin(&r, ToolLayer { installed: None }, LINUX);
    assert_eq!(installation.step(InstallEvent::Delivered(b"abc".to_vec())), InstallAction::Unpack);
    assert_eq!(installation.current_stage(), Stage::Unpacking);
    let action = installation.step(InstallEvent::UnpackFailed);
    assert_eq!(action, InstallAction::Fail(InstallError::ArtifactUnavailable));
    assert_eq!(installation.into_layer().installed, None);
}

#[test]
fn missing_platform_is_unavailable() {
    let r = release();
    let other = Platform { os: Os::Linux, arch: Arch::Arm64 };
    let (installation, action) = Installation::begin(&r, ToolLayer { installed: None }, other);
    assert_eq!(action, InstallAction::Fail(InstallError::ArtifactUnavailable));
    assert_eq!(installation.current_stage(), Stage::Failed(InstallError::ArtifactUnavailable));
}

#[test]
fn events_out_of_turn_change_nothing() {
    let r = release();
    let (mut installation, _) = Installation::begin(&r, ToolLayer { installed: None }, LINUX);
    assert_eq!(installation.step(InstallEvent::Unpacked), InstallAction::Fetch { artifact: 1 });
    assert_eq!(installation.step(InstallEvent::UnpackFailed), InstallAction::Fetch { artifact: 1 });
    assert_eq!(installation.step(InstallEvent::Delivered(b"abc".to_vec())), InstallAction::Unpack);
    assert_eq!(installation.step(InstallEvent::Delivered(b"zzz".to_vec())), InstallAction::Unpack);
    assert_eq!(installation.step(InstallEvent::FetchFailed), InstallAction::Unpack);
    assert_eq!(installation.step(InstallEvent::Unpacked), InstallAction::Finish);
    assert_eq!(installation.step(InstallEvent::UnpackFailed), InstallAction::Finish);
    assert_eq!(installation.step(InstallEvent::Delivered(b"zzz".to_vec())), InstallAction::Finish);
    assert_eq!(installation.into_layer().installed, Some(Version::new(1, 22, 5)));
}

#[test]
fn failed_installation_stays_failed() {
    let r = release();
    let (mut installation, _) = Installation::begin(&r, ToolLayer { installed: None }, LINUX);
    installation.step(InstallEvent::Delivered(b"wrong".to_vec()));
    let fail = InstallAction::Fail(InstallError::ChecksumMismatch);
    assert_eq!(installation.step(InstallEvent::Delivered(b"abc".to_vec())), fail);
    assert_eq!(installation.step(InstallEvent::Unpacked), fail);
    assert_eq!(installation.into_layer().installed, None);
}

#[test]
fn tool_environment_prepends_the_search_path() {
    let env = tool_environment("/layers/yarn/dist/bin".to_string());
    assert_eq!(
        env.mutations,
        vec![Mutation {
            scope: Scope::All,
            change: Change::Prepend,
            name: "PATH".to_string(),
            value: "/layers/yarn/dist/bin".to_string(),
        }]
    );
}

#[test]
fn scopes_cover_build_and_launch() {
    assert!(Scope::All.at_build() && Scope::All.at_launch());
    assert!(Scope::Build.at_build() && !Scope::Build.at_launch());
    assert!(!Scope::Launch.at_build() && Scope::Launch.at_launch());
}
