use openebs_upgrade::version::{
    crosses_major_boundary, requires_partial_rebuild_disable, PreIdent, Version,
};

fn v(major: u64, minor: u64, patch: u64) -> Version {
    Version::new(major, minor, patch)
}

fn parse(s: &str) -> Version {
    Version::parse(s).expect("version should parse")
}

#[test]
fn parses_plain_triple() {
    let p = parse("1.2.3");
    assert_eq!(p.major, 1);
    assert_eq!(p.minor, 2);
    assert_eq!(p.patch, 3);
    assert_eq!(p.pre.len(), 0);
}

#[test]
fn parses_pre_release_identifiers() {
    let p = parse("2.7.0-rc.3");
    assert_eq!(p.pre.len(), 2);
    assert!(matches!(&p.pre[0], PreIdent::Alpha(a) if a.as_slice() == b"rc"));
    assert!(matches!(&p.pre[1], PreIdent::Numeric(3)));
}

#[test]
fn rejects_garbage() {
    assert!(Version::parse("not-a-version").is_none());
    assert!(Version::parse("").is_none());
    assert!(Version::parse("1.2").is_none());
    assert!(Version::parse("v1.2.3").is_none());
}

#[test]
fn orders_triples() {
    assert!(v(1, 2, 3).lt(&v(1, 2, 4)));
    assert!(v(1, 2, 3).lt(&v(1, 3, 0)));
    assert!(v(1, 9, 9).lt(&v(2, 0, 0)));
    assert!(!v(2, 0, 0).lt(&v(2, 0, 0)));
    assert_eq!(v(2, 0, 0).cmp(&v(2, 0, 0)), 0);
}

#[test]
fn pre_release_sorts_below_stable() {
    assert!(parse("1.0.0-rc.1").lt(&parse("1.0.0")));
    assert!(!parse("1.0.0").lt(&parse("1.0.0-rc.1")));
}

#[test]
fn pre_release_precedence_follows_identifiers() {
    // Numeric identifiers sort below alphanumeric ones.
    assert!(parse("1.0.0-1").lt(&parse("1.0.0-alpha")));
    // Numeric identifiers compare numerically.
    assert!(parse("1.0.0-alpha.2").lt(&parse("1.0.0-alpha.11")));
    // A strict prefix sorts below the longer tag.
    assert!(parse("1.0.0-alpha").lt(&parse("1.0.0-alpha.1")));
    // Alphanumeric identifiers compare byte-wise.
    assert!(parse("1.0.0-alpha.1").lt(&parse("1.0.0-alpha.beta")));
    assert!(parse("1.0.0-alpha.beta").lt(&parse("1.0.0-beta")));
}

#[test]
fn is_stable_reads_the_tag() {
    assert!(v(1, 0, 0).is_stable());
    assert!(!parse("1.0.0-rc.1").is_stable());
}

#[test]
fn partial_rebuild_window_lower_bound_is_inclusive() {
    assert!(requires_partial_rebuild_disable(&v(3, 7, 0)));
    assert!(requires_partial_rebuild_disable(&v(3, 8, 4)));
    assert!(requires_partial_rebuild_disable(&v(3, 9, 9)));
}

#[test]
fn partial_rebuild_window_upper_bound_is_exclusive() {
    assert!(!requires_partial_rebuild_disable(&v(3, 10, 0)));
    assert!(!requires_partial_rebuild_disable(&v(3, 10, 1)));
    assert!(!requires_partial_rebuild_disable(&v(4, 0, 0)));
}

#[test]
fn partial_rebuild_window_excludes_older_versions() {
    assert!(!requires_partial_rebuild_disable(&v(3, 6, 9)));
    // 3.7.0-rc.1 has lower precedence than 3.7.0 and lies outside.
    assert!(!requires_partial_rebuild_disable(&parse("3.7.0-rc.1")));
}

#[test]
fn major_boundary_detection() {
    assert!(crosses_major_boundary(&v(3, 9, 0), &v(4, 0, 0)));
    assert!(crosses_major_boundary(&v(3, 9, 0), &v(4, 1, 0)));
    assert!(!crosses_major_boundary(&v(4, 0, 0), &v(4, 1, 0)));
    assert!(!crosses_major_boundary(&v(3, 8, 0), &v(3, 10, 0)));
}
