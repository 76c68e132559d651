use yarn_buildpack::notation::check_build;
use yarn_buildpack::notation::parse_core;
use yarn_buildpack::notation::parse_identifier;
use yarn_buildpack::notation::parse_tag;
use yarn_buildpack::notation::parse_version;
use yarn_buildpack::text::bytes_equal;
use yarn_buildpack::text::find;
use yarn_buildpack::text::parse_number;
use yarn_buildpack::text::split;
use yarn_buildpack::text::trim;
use yarn_buildpack::version::Identifier;
use yarn_buildpack::version::Version;

#[test]
fn numbers_are_read_in_base_ten() {
    assert_eq!(parse_number(b"0"), Some(0));
    assert_eq!(parse_number(b"7"), Some(7));
    assert_eq!(parse_number(b"22"), Some(22));
    assert_eq!(parse_number(b"1234567890"), Some(1234567890));
}

#[test]
fn number_limits() {
    assert_eq!(parse_number(b"18446744073709551615"), Some(u64::MAX));
    assert_eq!(parse_number(b"18446744073709551616"), None);
    assert_eq!(parse_number(b"99999999999999999999"), None);
    assert_eq!(parse_number(b"184467440737095516150"), None);
}

#[test]
fn malformed_numbers_are_refused() {
    assert_eq!(parse_number(b""), None);
    assert_eq!(parse_number(b"01"), None);
    assert_eq!(parse_number(b"00"), None);
    assert_eq!(parse_number(b"1a"), None);
    assert_eq!(parse_number(b"-1"), None);
    assert_eq!(parse_number(b"+1"), None);
    assert_eq!(parse_number(b" 1"), None);
    assert_eq!(parse_number(b"1.0"), None);
}

#[test]
fn find_gives_first_position_or_length() {
    assert_eq!(find(b"a.b.c", b'.'), 1);
    assert_eq!(find(b".a", b'.'), 0);
    assert_eq!(find(b"abc", b'.'), 3);
    assert_eq!(find(b"", b'.'), 0);
}

#[test]
fn split_keeps_empty_fields() {
    assert_eq!(split(b"1.22.x", b'.'), vec![b"1".to_vec(), b"22".to_vec(), b"x".to_vec()]);
    assert_eq!(split(b"abc", b'.'), vec![b"abc".to_vec()]);
    assert_eq!(split(b"", b'.'), vec![Vec::<u8>::new()]);
    assert_eq!(split(b"a..b", b'.'), vec![b"a".to_vec(), Vec::new(), b"b".to_vec()]);
    assert_eq!(split(b".", b'.'), vec![Vec::<u8>::new(), Vec::new()]);
    assert_eq!(split(b"a.", b'.'), vec![b"a".to_vec(), Vec::new()]);
}

#[test]
fn trim_drops_blanks_at_both_ends_only() {
    assert_eq!(trim(b"  1.22.19\n"), b"1.22.19");
    assert_eq!(trim(b"\t a b \r\n"), b"a b");
    assert_eq!(trim(b"abc"), b"abc");
    assert_eq!(trim(b" \n\t\r"), b"");
    assert_eq!(trim(b""), b"");
}

#[test]
fn bytes_equal_compares_content() {
    assert!(bytes_equal(b"abc", b"abc"));
    assert!(bytes_equal(b"", b""));
    assert!(!bytes_equal(b"abc", b"abd"));
    assert!(!bytes_equal(b"abc", b"ab"));
    assert!(!bytes_equal(b"", b"a"));
}

#[test]
fn plain_releases_are_read() {
    assert_eq!(parse_version(b"1.22.19"), Some(Version::new(1, 22, 19)));
    assert_eq!(parse_version(b"0.0.0"), Some(Version::new(0, 0, 0)));
    assert_eq!(Version::parse("3.6.4"), Some(Version::new(3, 6, 4)));
}

#[test]
fn pre_release_tags_are_read() {
    let v = Version::parse("4.0.0-rc.50").unwrap();
    assert_eq!(
        v,
        Version::with_tag(
            4,
            0,
            0,
            vec![Identifier::Text(b"rc".to_vec()), Identifier::Numeric(50)]
        )
    );
    let w = Version::parse("1.0.0-alpha-1.0.x-y").unwrap();
    assert_eq!(
        w.pre,
        vec![
            Identifier::Text(b"alpha-1".to_vec()),
            Identifier::Numeric(0),
            Identifier::Text(b"x-y".to_vec())
        ]
    );
}

#[test]
fn build_metadata_is_checked_and_dropped() {
    assert_eq!(Version::parse("1.2.3+build.5"), Some(Version::new(1, 2, 3)));
    assert_eq!(Version::parse("1.2.3+001"), Some(Version::new(1, 2, 3)));
    assert_eq!(
        Version::parse("1.2.3-rc.1+sha-5114f85"),
        Some(Version::with_tag(
            1,
            2,
            3,
            vec![Identifier::Text(b"rc".to_vec()), Identifier::Numeric(1)]
        ))
    );
    assert_eq!(Version::parse("1.2.3+"), None);
    assert_eq!(Version::parse("1.2.3+a..b"), None);
    assert_eq!(Version::parse("1.2.3+a_b"), None);
    assert_eq!(Version::parse("1.2.3+a+b"), None);
}

#[test]
fn malformed_versions_are_refused() {
    let bad = [
        "", "1", "1.2", "1.2.3.4", "1.2.x", "01.2.3", "1.02.3", "1.2.03", "1.2.3-", "1.2.3-01",
        "1.2.3-a..b", "1.2.3-a_b", " 1.2.3", "1.2.3 ", "v1.2.3", "1.2.-3", "a.b.c", "1..3",
        "18446744073709551616.0.0", "1.2.3-18446744073709551616",
    ];
    for text in bad {
        assert_eq!(Version::parse(text), None, "{:?}", text);
    }
}

#[test]
fn largest_numbers_are_read() {
    assert_eq!(
        Version::parse("18446744073709551615.0.18446744073709551615"),
        Some(Version::new(u64::MAX, 0, u64::MAX))
    );
}

#[test]
fn tag_parts_are_numbers_or_text() {
    assert_eq!(parse_identifier(b"0"), Some(Identifier::Numeric(0)));
    assert_eq!(parse_identifier(b"50"), Some(Identifier::Numeric(50)));
    assert_eq!(parse_identifier(b"rc"), Some(Identifier::Text(b"rc".to_vec())));
    assert_eq!(parse_identifier(b"0a"), Some(Identifier::Text(b"0a".to_vec())));
    assert_eq!(parse_identifier(b"-"), Some(Identifier::Text(b"-".to_vec())));
    assert_eq!(parse_identifier(b"-1"), Some(Identifier::Text(b"-1".to_vec())));
    assert_eq!(parse_identifier(b""), None);
    assert_eq!(parse_identifier(b"00"), None);
    assert_eq!(parse_identifier(b"a.b"), None);
    assert_eq!(parse_identifier(b"a b"), None);
}

#[test]
fn tags_cores_and_builds() {
    assert_eq!(
        parse_tag(b"beta.2"),
        Some(vec![Identifier::Text(b"beta".to_vec()), Identifier::Numeric(2)])
    );
    assert_eq!(parse_tag(b""), None);
    assert_eq!(parse_tag(b"beta."), None);
    assert_eq!(parse_core(b"1.22.19"), Some((1, 22, 19)));
    assert_eq!(parse_core(b"1.22"), None);
    assert_eq!(parse_core(b"1.22.19.0"), None);
    assert!(check_build(b"exp.sha.5114f85"));
    assert!(check_build(b"001"));
    assert!(!check_build(b""));
    assert!(!check_build(b"a..b"));
}

#[test]
fn read_versions_keep_their_order() {
    let low = Version::parse("1.0.0-rc.1").unwrap();
    let high = Version::parse("1.0.0").unwrap();
    assert!(low.lower_than(&high));
    let a = Version::parse("1.0.0-beta.2").unwrap();
    let b = Version::parse("1.0.0-beta.11").unwrap();
    assert!(a.lower_than(&b));
    let with_build = Version::parse("1.0.0+a").unwrap();
    assert!(with_build.same_as(&high));
}
