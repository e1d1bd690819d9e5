use openebs_upgrade::crd::{safe_crd_toggle, values_file_toggles};
use openebs_upgrade::version::Version;

fn names(xs: &[&str]) -> Vec<String> {
    xs.iter().map(|s| s.to_string()).collect()
}

#[test]
fn empty_cluster_produces_no_toggles() {
    let out = safe_crd_toggle(&Vec::new());
    assert_eq!(out.len(), 0);
}

#[test]
fn unrelated_definitions_produce_no_toggles() {
    let out = safe_crd_toggle(&names(&[
        "certificates.cert-manager.io",
        "prometheuses.monitoring.coreos.com",
    ]));
    assert_eq!(out.len(), 0);
}

#[test]
fn one_member_is_enough_for_its_family() {
    let out = safe_crd_toggle(&names(&["volumesnapshots.snapshot.storage.k8s.io"]));
    assert_eq!(out.len(), 1);
    assert_eq!(out[0], ".openebs-crds.csi.volumeSnapshots.enabled");
}

#[test]
fn each_family_contributes_at_most_once() {
    // Two members of the snapshot family still yield one toggle.
    let out = safe_crd_toggle(&names(&[
        "volumesnapshots.snapshot.storage.k8s.io",
        "volumesnapshotclasses.snapshot.storage.k8s.io",
    ]));
    assert_eq!(out.len(), 1);
    assert_eq!(out[0], ".openebs-crds.csi.volumeSnapshots.enabled");
}

#[test]
fn families_come_out_in_fixed_order() {
    let out = safe_crd_toggle(&names(&[
        "lvmvolumes.zfs.openebs.io",
        "jaegers.jaegertracing.io",
        "zfssnapshots.zfs.openebs.io",
    ]));
    assert_eq!(out.len(), 3);
    assert_eq!(out[0], ".mayastor.crds.jaeger.enabled");
    assert_eq!(out[1], ".zfs-localpv.crds.zfsLocalPv.enabled");
    assert_eq!(out[2], ".lvm-localpv.crds.lvmLocalPv.enabled");
}

#[test]
fn values_file_carries_toggles_only_across_the_boundary() {
    let existing = names(&["zfsvolumes.zfs.openebs.io"]);

    let source = Version::new(3, 9, 0);
    let target = Version::new(4, 0, 0);
    let out = values_file_toggles(&source, &target, &existing);
    assert_eq!(out.len(), 1);
    assert_eq!(out[0], ".zfs-localpv.crds.zfsLocalPv.enabled");

    let source = Version::new(4, 0, 0);
    let target = Version::new(4, 1, 0);
    let out = values_file_toggles(&source, &target, &existing);
    assert_eq!(out.len(), 0);
}
