use openebs_upgrade::policy::{
    contains_develop, parse_tag_version, path_is_sane, upgrade_path_validation, PathError,
};
use openebs_upgrade::version::Version;

fn v(major: u64, minor: u64, patch: u64) -> Version {
    Version::new(major, minor, patch)
}

fn pre(s: &str) -> Version {
    Version::parse(s).expect("version should parse")
}

#[test]
fn sane_path_passes() {
    let source = v(2, 0, 0);
    let target = v(2, 7, 0);
    assert!(path_is_sane(false, &source, Some(&target), false).is_ok());
}

#[test]
fn development_target_is_refused() {
    let source = v(2, 0, 0);
    let target = v(2, 7, 0);
    let r = path_is_sane(false, &source, Some(&target), true);
    assert!(matches!(r, Err(PathError::DevelopTarget)));
}

#[test]
fn stable_to_unstable_is_refused() {
    let source = v(2, 0, 0);
    let target = pre("2.7.0-rc.1");
    let r = path_is_sane(false, &source, Some(&target), false);
    assert!(matches!(r, Err(PathError::StableToUnstable)));
}

#[test]
fn stable_to_unknown_target_is_refused() {
    let source = v(2, 0, 0);
    let r = path_is_sane(false, &source, None, false);
    assert!(matches!(r, Err(PathError::StableToUnstable)));
}

#[test]
fn allow_unstable_lets_the_path_through() {
    let source = v(2, 0, 0);
    let target = pre("2.7.0-rc.1");
    assert!(path_is_sane(true, &source, Some(&target), false).is_ok());
}

#[test]
fn unstable_source_may_move_to_unstable_target() {
    let source = pre("2.7.0-rc.1");
    let target = pre("2.7.0-rc.2");
    assert!(path_is_sane(false, &source, Some(&target), false).is_ok());
}

#[test]
fn downgrade_is_refused() {
    let source = v(2, 7, 0);
    let target = v(2, 6, 0);
    let r = path_is_sane(false, &source, Some(&target), false);
    assert!(matches!(r, Err(PathError::Downgrade)));
}

#[test]
fn development_marker_wins_over_other_failures() {
    // Both a downgrade and a development target: the development check
    // comes first.
    let source = v(2, 7, 0);
    let target = v(2, 6, 0);
    let r = path_is_sane(false, &source, Some(&target), true);
    assert!(matches!(r, Err(PathError::DevelopTarget)));
}

#[test]
fn develop_marker_is_found_anywhere_in_the_tag() {
    assert!(contains_develop("develop"));
    assert!(contains_develop("2.7.0-develop-nightly"));
    assert!(!contains_develop("2.7.0"));
    assert!(!contains_develop("devel"));
}

#[test]
fn tag_parsing_sheds_a_leading_v() {
    let p = parse_tag_version("v2.7.0").expect("tag should parse");
    assert_eq!(p.major, 2);
    assert_eq!(p.minor, 7);
    assert_eq!(p.patch, 0);
    assert!(parse_tag_version("").is_none());
    assert!(parse_tag_version("weird").is_none());
}

#[test]
fn tag_validation_composes_marker_and_parse() {
    let source = v(2, 0, 0);
    let r = upgrade_path_validation(false, &source, "develop");
    assert!(matches!(r, Err(PathError::DevelopTarget)));

    let r = upgrade_path_validation(false, &source, "v2.7.0");
    assert!(r.is_ok());

    let r = upgrade_path_validation(false, &source, "v1.9.0");
    assert!(matches!(r, Err(PathError::Downgrade)));

    // An unparsable tag leaves the binary's version unknown, which a
    // stable source refuses.
    let r = upgrade_path_validation(false, &source, "mystery");
    assert!(matches!(r, Err(PathError::StableToUnstable)));
}
