use openebs_upgrade::bundle::{
    create_outcome_ok, delete_outcome_ok, ApiCallResult, ClusterModel,
};
use openebs_upgrade::resources::BundleNames;

fn names() -> BundleNames {
    BundleNames::derive("rel", "2-7-0")
}

#[test]
fn already_exists_counts_as_create_success() {
    assert!(create_outcome_ok(&ApiCallResult::Succeeded));
    assert!(create_outcome_ok(&ApiCallResult::ApiError(
        "AlreadyExists".to_string()
    )));
    assert!(!create_outcome_ok(&ApiCallResult::ApiError(
        "Forbidden".to_string()
    )));
    assert!(!create_outcome_ok(&ApiCallResult::OtherError(
        "connection refused".to_string()
    )));
}

#[test]
fn not_found_counts_as_delete_success() {
    assert!(delete_outcome_ok(&ApiCallResult::Succeeded));
    assert!(delete_outcome_ok(&ApiCallResult::ApiError(
        "NotFound".to_string()
    )));
    assert!(!delete_outcome_ok(&ApiCallResult::ApiError(
        "Forbidden".to_string()
    )));
}

#[test]
fn creating_a_bundle_twice_makes_no_duplicates() {
    let mut cluster = ClusterModel::new();
    cluster.create_bundle(&names());
    assert_eq!(cluster.objects.len(), 5);

    // The second create is answered with `AlreadyExists` throughout, which
    // counts as success, and adds nothing.
    cluster.create_bundle(&names());
    assert_eq!(cluster.objects.len(), 5);

    let second = cluster.apply_create(names().job.as_str());
    assert!(matches!(&second, ApiCallResult::ApiError(r) if r == "AlreadyExists"));
    assert!(create_outcome_ok(&second));
}

#[test]
fn rollback_deletes_exactly_one_bundle() {
    let mut cluster = ClusterModel::new();
    cluster.create_bundle(&BundleNames::derive("rel", "2-7-0"));
    cluster.create_bundle(&BundleNames::derive("other", "2-7-0"));
    assert_eq!(cluster.objects.len(), 10);

    cluster.delete_bundle(&BundleNames::derive("rel", "2-7-0"));
    assert_eq!(cluster.objects.len(), 5);
    assert!(cluster.objects.iter().all(|n| n.starts_with("other-")));
}

#[test]
fn deleting_an_absent_bundle_succeeds() {
    let mut cluster = ClusterModel::new();
    let r = cluster.apply_delete(names().job.as_str());
    assert!(matches!(&r, ApiCallResult::ApiError(reason) if reason == "NotFound"));
    assert!(delete_outcome_ok(&r));

    cluster.delete_bundle(&names());
    assert_eq!(cluster.objects.len(), 0);
}
