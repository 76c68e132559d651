use yarn_buildpack::constraint::parse_constraint;
use yarn_buildpack::constraint::Constraint;
use yarn_buildpack::version::Identifier;
use yarn_buildpack::version::Version;

fn range(major: Option<u64>, minor: Option<u64>, patch: Option<u64>) -> Constraint {
    Constraint { major, minor, patch }
}

#[test]
fn ranges_are_read() {
    assert_eq!(Constraint::parse("1.22.x"), Some(range(Some(1), Some(22), None)));
    assert_eq!(Constraint::parse("2.x"), Some(range(Some(2), None, None)));
    assert_eq!(Constraint::parse("2"), Some(range(Some(2), None, None)));
    assert_eq!(Constraint::parse("1.22"), Some(range(Some(1), Some(22), None)));
    assert_eq!(Constraint::parse("1.22.19"), Some(range(Some(1), Some(22), Some(19))));
    assert_eq!(Constraint::parse("*"), Some(range(None, None, None)));
    assert_eq!(Constraint::parse("x"), Some(range(None, None, None)));
    assert_eq!(Constraint::parse("X.X.X"), Some(range(None, None, None)));
    assert_eq!(Constraint::parse("3.*.*"), Some(range(Some(3), None, None)));
    assert_eq!(Constraint::parse("3.x.X"), Some(range(Some(3), None, None)));
}

#[test]
fn blanks_around_a_range_are_ignored() {
    assert_eq!(Constraint::parse(" 1.22.x\n"), Some(range(Some(1), Some(22), None)));
    assert_eq!(parse_constraint(b"\t4.x "), Some(range(Some(4), None, None)));
    assert_eq!(Constraint::parse("1 .x"), None);
}

#[test]
fn malformed_ranges_are_refused() {
    let bad = [
        "", " ", "x.1", "1.x.3", "*.2.3", "1.2.3.4", "1..3", ".1", "1.", "01.x", "1.xx", "^1.0.0",
        "~1.2", ">=1.22.0", "1.22.0-rc.1", "1.22.x || 2.x", "latest", "18446744073709551616.x",
    ];
    for text in bad {
        assert_eq!(Constraint::parse(text), None, "{:?}", text);
    }
}

#[test]
fn read_ranges_are_well_formed() {
    for text in ["1.22.x", "2.x", "*", "1.2.3", "7"] {
        assert!(Constraint::parse(text).unwrap().well_formed());
    }
    assert!(!range(None, Some(1), None).well_formed());
    assert!(!range(Some(1), None, Some(1)).well_formed());
    assert!(range(None, None, None).well_formed());
}

#[test]
fn fallback_is_the_written_default() {
    assert_eq!(Constraint::fallback(), range(Some(1), Some(22), None));
    assert_eq!(Constraint::parse("1.22.x"), Some(Constraint::fallback()));
    assert!(Constraint::fallback().well_formed());
}

#[test]
fn range_admits_matching_releases() {
    let r = Constraint::parse("1.22.x").unwrap();
    assert!(r.allows(&Version::new(1, 22, 0)));
    assert!(r.allows(&Version::new(1, 22, 19)));
    assert!(!r.allows(&Version::new(1, 21, 9)));
    assert!(!r.allows(&Version::new(1, 23, 0)));
    assert!(!r.allows(&Version::new(2, 22, 0)));
    let any = Constraint::parse("*").unwrap();
    assert!(any.allows(&Version::new(0, 0, 0)));
    assert!(any.allows(&Version::new(9, 9, 9)));
    let exact = Constraint::parse("3.6.4").unwrap();
    assert!(exact.allows(&Version::new(3, 6, 4)));
    assert!(!exact.allows(&Version::new(3, 6, 5)));
    let major = Constraint::parse("2.x").unwrap();
    assert!(major.allows(&Version::new(2, 4, 3)));
    assert!(!major.allows(&Version::new(1, 22, 1)));
}

#[test]
fn range_admits_no_pre_release() {
    let pre = Version::with_tag(1, 22, 5, vec![Identifier::Text(b"rc".to_vec())]);
    assert!(!Constraint::parse("1.22.x").unwrap().allows(&pre));
    assert!(!Constraint::parse("*").unwrap().allows(&pre));
    assert!(!Constraint::parse("1.22.5").unwrap().allows(&pre));
}
