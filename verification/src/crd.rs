//! Deciding which chart-managed custom resource definitions must not be
//! re-installed.
//!
//! When the upgrade crosses the major-version boundary, the chart would
//! install a set of custom resource definitions of its own. For each known
//! family of definitions, if *any* member already exists in the cluster, the
//! chart value that turns that family's installation on is forced off, so
//! the installed definitions stay untouched.

use crate::text::str_eq;
use crate::version::{crosses_major_boundary, spec_crosses_major_boundary, Version};
use vstd::prelude::*;
use vstd::string::*;

verus! {

/// The number of known definition families.
pub open spec fn group_count() -> int {
    4
}

/// The names of the custom resource definitions in family `g`.
pub open spec fn spec_group_names(g: int) -> Seq<Seq<char>> {
    if g == 0 {
        seq![
            "volumesnapshotclasses.snapshot.storage.k8s.io"@,
            "volumesnapshotcontents.snapshot.storage.k8s.io"@,
            "volumesnapshots.snapshot.storage.k8s.io"@,
        ]
    } else if g == 1 {
        seq!["jaegers.jaegertracing.io"@]
    } else if g == 2 {
        seq![
            "zfsvolumes.zfs.openebs.io"@,
            "zfsnodes.zfs.openebs.io"@,
            "zfsbackups.zfs.openebs.io"@,
            "zfsrestores.zfs.openebs.io"@,
            "zfssnapshots.zfs.openebs.io"@,
        ]
    } else {
        seq![
            "lvmvolumes.zfs.openebs.io"@,
            "lvmnodes.zfs.openebs.io"@,
            "lvmsnapshots.zfs.openebs.io"@,
        ]
    }
}

/// The chart value path that turns family `g`'s installation on.
pub open spec fn toggle_key(g: int) -> Seq<char> {
    if g == 0 {
        ".openebs-crds.csi.volumeSnapshots.enabled"@
    } else if g == 1 {
        ".mayastor.crds.jaeger.enabled"@
    } else if g == 2 {
        ".zfs-localpv.crds.zfsLocalPv.enabled"@
    } else {
        ".lvm-localpv.crds.lvmLocalPv.enabled"@
    }
}

/// True iff some name in `names` belongs to family `g`.
pub open spec fn group_present(g: int, names: Seq<Seq<char>>) -> bool {
    exists|i: int| 0 <= i < names.len() && spec_group_names(g).contains(names[i])
}

/// The toggle keys for the families with a member among `names`, taking the
/// first `k` families in order.
pub open spec fn toggles_upto(k: int, names: Seq<Seq<char>>) -> Seq<Seq<char>>
    decreases k,
{
    if k <= 0 {
        Seq::empty()
    } else if group_present(k - 1, names) {
        toggles_upto(k - 1, names) + seq![toggle_key(k - 1)]
    } else {
        toggles_upto(k - 1, names)
    }
}

/// The toggle keys to force off, given the names of the definitions already
/// in the cluster.
pub open spec fn spec_safe_crd_toggle(names: Seq<Seq<char>>) -> Seq<Seq<char>> {
    toggles_upto(group_count(), names)
}

fn crd_group_names(g: usize) -> (r: Vec<&'static str>)
    requires
        g < 4,
    ensures
        r@.map_values(|s: &'static str| s@) == spec_group_names(g as int),
{
    let mut v: Vec<&'static str> = Vec::new();
    if g == 0 {
        v.push("volumesnapshotclasses.snapshot.storage.k8s.io");
        v.push("volumesnapshotcontents.snapshot.storage.k8s.io");
        v.push("volumesnapshots.snapshot.storage.k8s.io");
    } else if g == 1 {
        v.push("jaegers.jaegertracing.io");
    } else if g == 2 {
        v.push("zfsvolumes.zfs.openebs.io");
        v.push("zfsnodes.zfs.openebs.io");
        v.push("zfsbackups.zfs.openebs.io");
        v.push("zfsrestores.zfs.openebs.io");
        v.push("zfssnapshots.zfs.openebs.io");
    } else {
        v.push("lvmvolumes.zfs.openebs.io");
        v.push("lvmnodes.zfs.openebs.io");
        v.push("lvmsnapshots.zfs.openebs.io");
    }
    proof {
        assert(v@.map_values(|s: &'static str| s@) =~= spec_group_names(g as int));
    }
    v
}

fn group_present_in(existing: &Vec<String>, g: usize) -> (r: bool)
    requires
        g < 4,
    ensures
        r == group_present(g as int, existing@.map_values(|s: String| s@)),
{
    let ghost names = existing@.map_values(|s: String| s@);
    let group = crd_group_names(g);
    let mut i: usize = 0;
    while i < existing.len()
        invariant
            i <= existing.len(),
            names == existing@.map_values(|s: String| s@),
            names.len() == existing@.len(),
            group@.map_values(|s: &'static str| s@) == spec_group_names(g as int),
            forall|k: int| 0 <= k < i ==> !spec_group_names(g as int).contains(names[k]),
        decreases existing.len() - i,
    {
        let mut j: usize = 0;
        while j < group.len()
            invariant
                i < existing.len(),
                j <= group.len(),
                names == existing@.map_values(|s: String| s@),
                group@.map_values(|s: &'static str| s@) == spec_group_names(g as int),
                group@.len() == spec_group_names(g as int).len(),
                forall|k: int| 0 <= k < j ==> spec_group_names(g as int)[k] != names[i as int],
            decreases group.len() - j,
        {
            if str_eq(existing[i].as_str(), group[j]) {
                proof {
                    assert(spec_group_names(g as int)[j as int] == names[i as int]);
                    assert(spec_group_names(g as int).contains(names[i as int]));
                }
                return true;
            }
            j = j + 1;
        }
        proof {
            assert(!spec_group_names(g as int).contains(names[i as int])) by {
                if spec_group_names(g as int).contains(names[i as int]) {
                    let w = choose|w: int|
                        0 <= w < spec_group_names(g as int).len() && spec_group_names(g as int)[w]
                            == names[i as int];
                }
            }
        }
        i = i + 1;
    }
    false
}

fn toggle_key_text(g: usize) -> (r: String)
    requires
        g < 4,
    ensures
        r@ == toggle_key(g as int),
{
    if g == 0 {
        String::from_str(".openebs-crds.csi.volumeSnapshots.enabled")
    } else if g == 1 {
        String::from_str(".mayastor.crds.jaeger.enabled")
    } else if g == 2 {
        String::from_str(".zfs-localpv.crds.zfsLocalPv.enabled")
    } else {
        String::from_str(".lvm-localpv.crds.lvmLocalPv.enabled")
    }
}

/// The chart value paths to force off, given the names of the custom
/// resource definitions already in the cluster: one key for each family with
/// at least one member present, in fixed family order.
pub fn safe_crd_toggle(existing: &Vec<String>) -> (r: Vec<String>)
    ensures
        r@.map_values(|s: String| s@) == spec_safe_crd_toggle(
            existing@.map_values(|s: String| s@),
        ),
{
    let ghost names = existing@.map_values(|s: String| s@);
    let mut out: Vec<String> = Vec::new();
    let mut g: usize = 0;
    proof {
        assert(out@.map_values(|s: String| s@) =~= toggles_upto(0, names));
    }
    while g < 4
        invariant
            g <= 4,
            names == existing@.map_values(|s: String| s@),
            out@.map_values(|s: String| s@) == toggles_upto(g as int, names),
        decreases 4 - g,
    {
        let ghost old_out = out@;
        if group_present_in(existing, g) {
            let key = toggle_key_text(g);
            out.push(key);
            proof {
                assert(out@.map_values(|s: String| s@) =~= old_out.map_values(|s: String| s@)
                    + seq![toggle_key(g as int)]);
            }
        }
        g = g + 1;
    }
    out
}

/// No toggle comes out of a cluster in which no known definition exists; in
/// particular, an empty cluster produces none, and unrelated definitions
/// produce none.
pub proof fn lemma_unrelated_crds_no_toggles(names: Seq<Seq<char>>)
    requires
        forall|g: int| 0 <= g < group_count() ==> !group_present(g, names),
    ensures
        spec_safe_crd_toggle(names).len() == 0,
{
    lemma_toggles_upto_absent(group_count(), names);
}

proof fn lemma_toggles_upto_absent(k: int, names: Seq<Seq<char>>)
    requires
        k <= group_count(),
        forall|g: int| 0 <= g < group_count() ==> !group_present(g, names),
    ensures
        toggles_upto(k, names).len() == 0,
    decreases k,
{
    if k > 0 {
        lemma_toggles_upto_absent(k - 1, names);
    }
}

proof fn lemma_toggles_upto_contains(k: int, names: Seq<Seq<char>>, x: Seq<char>)
    requires
        k <= group_count(),
    ensures
        toggles_upto(k, names).contains(x) <==> exists|g: int|
            0 <= g < k && group_present(g, names) && x == toggle_key(g),
    decreases k,
{
    if k > 0 {
        lemma_toggles_upto_contains(k - 1, names, x);
        if group_present(k - 1, names) {
            let pre = toggles_upto(k - 1, names);
            assert(toggles_upto(k, names) == pre + seq![toggle_key(k - 1)]);
            assert forall|i: int| 0 <= i < pre.len() implies (pre + seq![toggle_key(k - 1)])[i]
                == pre[i] by {}
            if toggles_upto(k, names).contains(x) {
                let w = choose|w: int|
                    0 <= w < toggles_upto(k, names).len() && toggles_upto(k, names)[w] == x;
                if w < pre.len() {
                    assert(pre.contains(x));
                } else {
                    assert(x == toggle_key(k - 1));
                }
            }
            if exists|g: int| 0 <= g < k && group_present(g, names) && x == toggle_key(g) {
                let g = choose|g: int| 0 <= g < k && group_present(g, names) && x == toggle_key(g);
                if g < k - 1 {
                    assert(pre.contains(x));
                    let w = choose|w: int| 0 <= w < pre.len() && pre[w] == x;
                    assert(toggles_upto(k, names)[w] == x);
                } else {
                    assert(toggles_upto(k, names)[pre.len() as int] == toggle_key(k - 1));
                }
            }
        }
    }
}

/// The distinct toggle keys of distinct families.
proof fn lemma_toggle_keys_distinct(g1: int, g2: int)
    requires
        0 <= g1 < group_count(),
        0 <= g2 < group_count(),
        g1 != g2,
    ensures
        toggle_key(g1) != toggle_key(g2),
{
    reveal_strlit(".openebs-crds.csi.volumeSnapshots.enabled");
    reveal_strlit(".mayastor.crds.jaeger.enabled");
    reveal_strlit(".zfs-localpv.crds.zfsLocalPv.enabled");
    reveal_strlit(".lvm-localpv.crds.lvmLocalPv.enabled");
    assert(toggle_key(0).len() == 41);
    assert(toggle_key(1).len() == 29);
    assert(toggle_key(2).len() == 36);
    assert(toggle_key(3).len() == 36);
    assert(toggle_key(2)[1] == 'z');
    assert(toggle_key(3)[1] == 'l');
}

/// A family's toggle key stands in the result if and only if a member of
/// that family is present, and then it stands there exactly once.
pub proof fn lemma_toggle_iff_present(names: Seq<Seq<char>>, g: int)
    requires
        0 <= g < group_count(),
    ensures
        spec_safe_crd_toggle(names).contains(toggle_key(g)) <==> group_present(g, names),
        forall|i: int, j: int|
            0 <= i < j < spec_safe_crd_toggle(names).len() ==> spec_safe_crd_toggle(names)[i]
                != spec_safe_crd_toggle(names)[j],
{
    lemma_toggles_upto_contains(group_count(), names, toggle_key(g));
    assert forall|g1: int, g2: int|
        0 <= g1 < group_count() && 0 <= g2 < group_count() && g1 != g2 implies toggle_key(g1)
        != toggle_key(g2) by {
        lemma_toggle_keys_distinct(g1, g2);
    }
    lemma_toggles_upto_distinct(group_count(), names);
}

proof fn lemma_toggles_upto_distinct(k: int, names: Seq<Seq<char>>)
    requires
        k <= group_count(),
        forall|g1: int, g2: int|
            0 <= g1 < group_count() && 0 <= g2 < group_count() && g1 != g2 ==> toggle_key(g1)
                != toggle_key(g2),
    ensures
        forall|i: int, j: int|
            0 <= i < j < toggles_upto(k, names).len() ==> toggles_upto(k, names)[i] != toggles_upto(
                k,
                names,
            )[j],
    decreases k,
{
    if k > 0 {
        lemma_toggles_upto_distinct(k - 1, names);
        if group_present(k - 1, names) {
            let pre = toggles_upto(k - 1, names);
            let whole = toggles_upto(k, names);
            assert forall|i: int, j: int| 0 <= i < j < whole.len() implies whole[i] != whole[j] by {
                if j < pre.len() {
                    assert(pre[i] == whole[i] && pre[j] == whole[j]);
                } else {
                    assert(whole[j] == toggle_key(k - 1));
                    assert(whole[i] == pre[i]);
                    lemma_toggles_upto_contains(k - 1, names, pre[i]);
                    assert(pre.contains(pre[i]));
                    let g = choose|g: int|
                        0 <= g < k - 1 && group_present(g, names) && pre[i] == toggle_key(g);
                    assert(toggle_key(g) != toggle_key(k - 1));
                }
            }
        }
    }
}

/// The toggles that go into the values-override file for one upgrade: when
/// the path from `source` to `target` crosses the major-version boundary,
/// the keys of the families already present in the cluster; otherwise the
/// file carries no override at all.
pub fn values_file_toggles(source: &Version, target: &Version, existing: &Vec<String>) -> (r: Vec<
    String,
>)
    ensures
        spec_crosses_major_boundary(source@, target@) ==> r@.map_values(|s: String| s@)
            == spec_safe_crd_toggle(existing@.map_values(|s: String| s@)),
        !spec_crosses_major_boundary(source@, target@) ==> r@.len() == 0,
{
    if crosses_major_boundary(source, target) {
        safe_crd_toggle(existing)
    } else {
        Vec::new()
    }
}

} // verus!
