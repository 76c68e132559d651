use yarn_buildpack::cache::CacheDecision;
use yarn_buildpack::command::classify;
use yarn_buildpack::command::read_folder;
use yarn_buildpack::command::read_plain;
use yarn_buildpack::command::read_version;
use yarn_buildpack::command::CommandError;
use yarn_buildpack::command::Exit;
use yarn_buildpack::command::Outcome;
use yarn_buildpack::command::Yarn;
use yarn_buildpack::version::Identifier;
use yarn_buildpack::version::Version;

fn exit(code: Option<i32>, stdout: &[u8], stderr: &[u8]) -> Option<Exit> {
    Some(Exit { code, stdout: stdout.to_vec(), stderr: stderr.to_vec() })
}

fn words(list: &[&str]) -> Vec<String> {
    list.iter().map(|w| w.to_string()).collect()
}

#[test]
fn outcomes_are_told_apart() {
    assert_eq!(classify(None), Outcome::SpawnFailed);
    assert_eq!(classify(exit(Some(0), b"out", b"err")), Outcome::Success(b"out".to_vec()));
    assert_eq!(
        classify(exit(Some(1), b"out", b"err")),
        Outcome::NonZeroExit(Some(1), b"err".to_vec())
    );
    assert_eq!(
        classify(exit(Some(-1), b"", b"boom")),
        Outcome::NonZeroExit(Some(-1), b"boom".to_vec())
    );
    assert_eq!(classify(exit(None, b"out", b"")), Outcome::NonZeroExit(None, Vec::new()));
}

#[test]
fn printed_output_or_error() {
    assert_eq!(Outcome::Success(b"x".to_vec()).into_printed(), Ok(b"x".to_vec()));
    assert_eq!(
        Outcome::NonZeroExit(Some(2), b"e".to_vec()).into_printed(),
        Err(CommandError::NonZeroExit(Some(2), b"e".to_vec()))
    );
    assert_eq!(Outcome::SpawnFailed.into_printed(), Err(CommandError::SpawnFailed));
}

#[test]
fn version_is_read_from_output() {
    assert_eq!(read_version(Outcome::Success(b"1.22.19\n".to_vec())), Ok(Version::new(1, 22, 19)));
    assert_eq!(read_version(Outcome::Success(b"  3.6.4 \r\n".to_vec())), Ok(Version::new(3, 6, 4)));
    assert_eq!(
        read_version(Outcome::Success(b"4.0.0-rc.50".to_vec())),
        Ok(Version::with_tag(
            4,
            0,
            0,
            vec![Identifier::Text(b"rc".to_vec()), Identifier::Numeric(50)]
        ))
    );
}

#[test]
fn unexpected_output_is_unparsable() {
    for printed in [&b"yarn 1.22.19"[..], &b""[..], &b"\n"[..], &b"1.22"[..], &b"1.22.19\n1.22.19"[..]] {
        assert_eq!(
            read_version(Outcome::Success(printed.to_vec())),
            Err(CommandError::UnparsableOutput(printed.to_vec()))
        );
    }
    assert_eq!(
        read_folder(Outcome::Success(b" \n".to_vec())),
        Err(CommandError::UnparsableOutput(b" \n".to_vec()))
    );
}

#[test]
fn failures_pass_through_the_readers() {
    let failed = || Outcome::NonZeroExit(Some(127), b"not found".to_vec());
    let error = || CommandError::NonZeroExit(Some(127), b"not found".to_vec());
    assert_eq!(read_version(failed()), Err(error()));
    assert_eq!(read_folder(failed()), Err(error()));
    assert_eq!(read_plain(failed()), Err(error()));
    assert_eq!(read_version(Outcome::SpawnFailed), Err(CommandError::SpawnFailed));
    assert_eq!(read_folder(Outcome::SpawnFailed), Err(CommandError::SpawnFailed));
    assert_eq!(read_plain(Outcome::SpawnFailed), Err(CommandError::SpawnFailed));
}

#[test]
fn folder_and_plain_answers() {
    assert_eq!(
        read_folder(Outcome::Success(b"/home/app/.yarn/cache\n".to_vec())),
        Ok(b"/home/app/.yarn/cache".to_vec())
    );
    assert_eq!(read_folder(Outcome::Success(b"/a b\n".to_vec())), Ok(b"/a b".to_vec()));
    assert_eq!(read_plain(Outcome::Success(b"anything".to_vec())), Ok(()));
    assert_eq!(read_plain(Outcome::Success(Vec::new())), Ok(()));
}

#[test]
fn lines_by_major_version() {
    assert_eq!(Yarn::from_major(1), Some(Yarn::Yarn1));
    assert_eq!(Yarn::from_major(2), Some(Yarn::Yarn2));
    assert_eq!(Yarn::from_major(3), Some(Yarn::Yarn3));
    assert_eq!(Yarn::from_major(4), Some(Yarn::Yarn4));
    assert_eq!(Yarn::from_major(0), None);
    assert_eq!(Yarn::from_major(5), None);
    assert_eq!(Yarn::from_major(u64::MAX), None);
}

#[test]
fn arguments_of_the_first_line() {
    assert_eq!(Yarn::version_args(), words(&["--version"]));
    assert_eq!(Yarn::Yarn1.cache_folder_args(), words(&["cache", "dir"]));
    assert_eq!(Yarn::Yarn1.disable_global_cache_args(), None);
    let install = words(&["install", "--production=false", "--frozen-lockfile"]);
    assert_eq!(Yarn::Yarn1.install_args(CacheDecision::Reused), install);
    assert_eq!(Yarn::Yarn1.install_args(CacheDecision::Invalidated), install);
    assert_eq!(Yarn::Yarn1.install_args(CacheDecision::Bypassed), install);
}

#[test]
fn arguments_of_the_later_lines() {
    for yarn in [Yarn::Yarn2, Yarn::Yarn3, Yarn::Yarn4] {
        assert_eq!(yarn.cache_folder_args(), words(&["config", "get", "cacheFolder"]));
        assert_eq!(
            yarn.disable_global_cache_args(),
            Some(words(&["config", "set", "enableGlobalCache", "false"]))
        );
        let managed = words(&["install", "--immutable", "--inline-builds"]);
        assert_eq!(yarn.install_args(CacheDecision::Reused), managed);
        assert_eq!(yarn.install_args(CacheDecision::Invalidated), managed);
        assert_eq!(
            yarn.install_args(CacheDecision::Bypassed),
            words(&["install", "--immutable", "--inline-builds", "--immutable-cache"])
        );
    }
}

#[test]
fn arguments_to_run_a_script() {
    assert_eq!(Yarn::run_args("build"), words(&["run", "build"]));
    assert_eq!(Yarn::run_args("heroku-postbuild"), words(&["run", "heroku-postbuild"]));
}

#[test]
fn arguments_to_set_the_cache_folder() {
    assert_eq!(
        Yarn::Yarn1.set_cache_folder_args("/layers/deps"),
        words(&["config", "set", "cache-folder", "/layers/deps"])
    );
    for yarn in [Yarn::Yarn2, Yarn::Yarn3, Yarn::Yarn4] {
        assert_eq!(
            yarn.set_cache_folder_args("/layers/deps"),
            words(&["config", "set", "cacheFolder", "/layers/deps"])
        );
    }
}
