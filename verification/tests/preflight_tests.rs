use openebs_upgrade::preflight::{
    already_cordoned_nodes_validation, collect_single_replica_uuids, get_pvc_from_uuid,
    rebuild_in_progress, rebuild_in_progress_validation, single_volume_replica_validation,
    NodeSummary, PreflightError, PvcMeta, VolumeSummary, VolumeTarget,
};

fn volume(uuid: &str, replicas: u64, children_rebuilding: Vec<bool>) -> VolumeSummary {
    VolumeSummary {
        uuid: uuid.to_string(),
        num_replicas: replicas,
        target: Some(VolumeTarget { children_rebuilding }),
    }
}

#[test]
fn rebuild_is_seen_on_any_child() {
    let volumes = vec![
        volume("a", 3, vec![false, false]),
        volume("b", 3, vec![false, true]),
    ];
    assert!(rebuild_in_progress(&volumes));
    assert!(matches!(
        rebuild_in_progress_validation(&volumes),
        Err(PreflightError::RebuildInProgress)
    ));
}

#[test]
fn a_targetless_volume_is_not_rebuilding() {
    let volumes = vec![VolumeSummary {
        uuid: "a".to_string(),
        num_replicas: 3,
        target: None,
    }];
    assert!(!rebuild_in_progress(&volumes));
    assert!(rebuild_in_progress_validation(&volumes).is_ok());
}

#[test]
fn a_node_without_a_spec_is_refused() {
    let nodes = vec![
        NodeSummary { id: "n1".to_string(), has_spec: true, cordoned: false },
        NodeSummary { id: "n2".to_string(), has_spec: false, cordoned: false },
    ];
    let r = already_cordoned_nodes_validation(&nodes);
    assert!(matches!(r, Err(PreflightError::NodeSpecMissing)));
}

#[test]
fn uncordoned_nodes_pass() {
    let nodes = vec![NodeSummary { id: "n1".to_string(), has_spec: true, cordoned: false }];
    assert!(already_cordoned_nodes_validation(&nodes).is_ok());
}

#[test]
fn single_replica_volumes_are_collected_in_order() {
    let volumes = vec![
        volume("u1", 1, vec![]),
        volume("u2", 3, vec![]),
        volume("u3", 1, vec![]),
    ];
    assert_eq!(
        collect_single_replica_uuids(&volumes),
        vec!["u1".to_string(), "u3".to_string()]
    );
}

#[test]
fn claims_resolve_by_identifier() {
    let uuids = vec!["u1".to_string(), "u3".to_string()];
    let pvcs = vec![
        PvcMeta { uid: Some("u1".to_string()), name: Some("claim-1".to_string()) },
        PvcMeta { uid: Some("u2".to_string()), name: Some("claim-2".to_string()) },
        PvcMeta { uid: Some("u3".to_string()), name: None },
        PvcMeta { uid: None, name: Some("claim-4".to_string()) },
    ];
    assert_eq!(get_pvc_from_uuid(&uuids, &pvcs), vec!["claim-1".to_string()]);
}

#[test]
fn single_replica_check_names_the_claims() {
    let volumes = vec![volume("u1", 1, vec![])];
    let pvcs = vec![PvcMeta {
        uid: Some("u1".to_string()),
        name: Some("claim-1".to_string()),
    }];
    match single_volume_replica_validation(&volumes, &pvcs) {
        Err(PreflightError::SingleReplicaVolumes(names)) => {
            assert_eq!(names, vec!["claim-1".to_string()]);
        }
        _ => panic!("expected the single-replica check to fail"),
    }

    let healthy = vec![volume("u1", 2, vec![])];
    assert!(single_volume_replica_validation(&healthy, &pvcs).is_ok());
}
