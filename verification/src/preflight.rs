//! The preflight validation pipeline that gates an upgrade.
//!
//! When the replicated engine is enabled, four checks run in a fixed order
//! and the first failing, non-skipped check aborts the attempt before any
//! resource is created: the version path must be sane, no replica rebuild
//! may be running, no node may be cordoned, and no volume may live on a
//! single replica. When the engine is disabled the whole pipeline is a
//! no-op.

use crate::cli::UpgradeCommonArgs;
use crate::policy::{
    path_decision, spec_contains_develop, tag_version, upgrade_path_validation, PathError,
};
use crate::text::{contains_string, string_views};
use crate::version::Version;
use vstd::prelude::*;
use vstd::string::*;

verus! {

/// One target child replica of a volume, reduced to whether a rebuild of
/// it is under way.
pub struct VolumeTarget {
    pub children_rebuilding: Vec<bool>,
}

/// One volume, reduced to what the preflight checks read.
pub struct VolumeSummary {
    pub uuid: String,
    pub num_replicas: u64,
    pub target: Option<VolumeTarget>,
}

/// One storage node, reduced to what the cordon check reads.
pub struct NodeSummary {
    pub id: String,
    /// Whether the node carries a spec at all; one without is malformed.
    pub has_spec: bool,
    /// True iff the node is in the cordoned state (a draining or drained
    /// node is not counted here).
    pub cordoned: bool,
}

/// One persistent volume claim, reduced to its identity.
pub struct PvcMeta {
    pub uid: Option<String>,
    pub name: Option<String>,
}

/// How a preflight check fails.
#[derive(Debug)]
pub enum PreflightError {
    /// The version path is refused.
    Path(PathError),
    /// Some volume's target has a child replica mid-rebuild.
    RebuildInProgress,
    /// Some node carries no spec.
    NodeSpecMissing,
    /// The named nodes are cordoned.
    CordonedNodes(Vec<String>),
    /// The named claims are bound to single-replica volumes.
    SingleReplicaVolumes(Vec<String>),
}

/// True iff some child replica of the volume's target is mid-rebuild.
pub open spec fn volume_rebuilding(v: VolumeSummary) -> bool {
    match v.target {
        Some(t) => exists|i: int| 0 <= i < t.children_rebuilding@.len() && t.children_rebuilding@[i],
        None => false,
    }
}

/// True iff some listed volume is rebuilding a replica.
pub open spec fn any_rebuilding(vols: Seq<VolumeSummary>) -> bool {
    exists|i: int| 0 <= i < vols.len() && volume_rebuilding(vols[i])
}

/// True iff some child of this target is rebuilding.
fn target_rebuilding(t: &VolumeTarget) -> (r: bool)
    ensures
        r == (exists|i: int|
            0 <= i < t.children_rebuilding@.len() && t.children_rebuilding@[i]),
{
    let mut i: usize = 0;
    while i < t.children_rebuilding.len()
        invariant
            i <= t.children_rebuilding@.len(),
            forall|j: int| 0 <= j < i ==> !t.children_rebuilding@[j],
        decreases t.children_rebuilding@.len() - i,
    {
        if t.children_rebuilding[i] {
            return true;
        }
        i = i + 1;
    }
    false
}

/// True iff some listed volume is rebuilding a replica.
pub fn rebuild_in_progress(volumes: &Vec<VolumeSummary>) -> (r: bool)
    ensures
        r == any_rebuilding(volumes@),
{
    let mut i: usize = 0;
    while i < volumes.len()
        invariant
            i <= volumes@.len(),
            forall|j: int| 0 <= j < i ==> !volume_rebuilding(volumes@[j]),
        decreases volumes@.len() - i,
    {
        match &volumes[i].target {
            Some(t) => {
                if target_rebuilding(t) {
                    assert(volume_rebuilding(volumes@[i as int]));
                    return true;
                }
            },
            None => {},
        }
        assert(!volume_rebuilding(volumes@[i as int]));
        i = i + 1;
    }
    false
}

/// Refuses the upgrade while replicas are being rebuilt.
pub fn rebuild_in_progress_validation(volumes: &Vec<VolumeSummary>) -> (r: Result<
    (),
    PreflightError,
>)
    ensures
        r == if any_rebuilding(volumes@) {
            Result::<(), PreflightError>::Err(PreflightError::RebuildInProgress)
        } else {
            Result::<(), PreflightError>::Ok(())
        },
{
    if rebuild_in_progress(volumes) {
        Err(PreflightError::RebuildInProgress)
    } else {
        Ok(())
    }
}

/// The identifiers of the cordoned nodes, in listing order.
pub open spec fn cordoned_ids(ns: Seq<NodeSummary>) -> Seq<Seq<char>>
    decreases ns.len(),
{
    if ns.len() == 0 {
        Seq::empty()
    } else {
        let rest = cordoned_ids(ns.drop_last());
        if ns.last().cordoned {
            rest.push(ns.last().id@)
        } else {
            rest
        }
    }
}

/// Refuses the upgrade while nodes are cordoned, naming them; a node
/// without a spec is malformed and refused first.
pub fn already_cordoned_nodes_validation(nodes: &Vec<NodeSummary>) -> (r: Result<
    (),
    PreflightError,
>)
    ensures
        match r {
            Ok(()) => (forall|i: int| 0 <= i < nodes@.len() ==> nodes@[i].has_spec)
                && cordoned_ids(nodes@).len() == 0,
            Err(e) => match e {
                PreflightError::NodeSpecMissing => exists|i: int|
                    0 <= i < nodes@.len() && !nodes@[i].has_spec,
                PreflightError::CordonedNodes(ids) => (forall|i: int|
                    0 <= i < nodes@.len() ==> nodes@[i].has_spec) && string_views(ids@)
                    == cordoned_ids(nodes@) && ids@.len() > 0,
                _ => false,
            },
        },
{
    let mut ids: Vec<String> = Vec::new();
    let mut i: usize = 0;
    proof {
        assert(nodes@.take(0) =~= Seq::<NodeSummary>::empty());
        assert(string_views(ids@) =~= cordoned_ids(nodes@.take(0)));
    }
    while i < nodes.len()
        invariant
            i <= nodes@.len(),
            string_views(ids@) == cordoned_ids(nodes@.take(i as int)),
            forall|j: int| 0 <= j < i ==> nodes@[j].has_spec,
        decreases nodes@.len() - i,
    {
        if !nodes[i].has_spec {
            return Err(PreflightError::NodeSpecMissing);
        }
        proof {
            assert(nodes@.take(i + 1).drop_last() =~= nodes@.take(i as int));
            assert(nodes@.take(i + 1).last() == nodes@[i as int]);
        }
        let ghost old_ids = ids@;
        if nodes[i].cordoned {
            ids.push(crate::release::clone_string(&nodes[i].id));
            proof {
                assert(string_views(ids@) =~= string_views(old_ids).push(nodes@[i as int].id@));
            }
        }
        i = i + 1;
    }
    proof {
        assert(nodes@.take(nodes@.len() as int) =~= nodes@);
    }
    if ids.len() > 0 {
        Err(PreflightError::CordonedNodes(ids))
    } else {
        Ok(())
    }
}

/// The identifiers of the volumes provisioned with exactly one replica, in
/// listing order.
pub open spec fn single_replica_uuids(vols: Seq<VolumeSummary>) -> Seq<Seq<char>>
    decreases vols.len(),
{
    if vols.len() == 0 {
        Seq::empty()
    } else {
        let rest = single_replica_uuids(vols.drop_last());
        if vols.last().num_replicas == 1 {
            rest.push(vols.last().uuid@)
        } else {
            rest
        }
    }
}

/// Collects the identifiers of the single-replica volumes.
pub fn collect_single_replica_uuids(volumes: &Vec<VolumeSummary>) -> (r: Vec<String>)
    ensures
        string_views(r@) == single_replica_uuids(volumes@),
{
    let mut out: Vec<String> = Vec::new();
    let mut i: usize = 0;
    proof {
        assert(volumes@.take(0) =~= Seq::<VolumeSummary>::empty());
        assert(string_views(out@) =~= single_replica_uuids(volumes@.take(0)));
    }
    while i < volumes.len()
        invariant
            i <= volumes@.len(),
            string_views(out@) == single_replica_uuids(volumes@.take(i as int)),
        decreases volumes@.len() - i,
    {
        proof {
            assert(volumes@.take(i + 1).drop_last() =~= volumes@.take(i as int));
            assert(volumes@.take(i + 1).last() == volumes@[i as int]);
        }
        let ghost old_out = out@;
        if volumes[i].num_replicas == 1 {
            out.push(crate::release::clone_string(&volumes[i].uuid));
            proof {
                assert(string_views(out@) =~= string_views(old_out).push(
                    volumes@[i as int].uuid@,
                ));
            }
        }
        i = i + 1;
    }
    proof {
        assert(volumes@.take(volumes@.len() as int) =~= volumes@);
    }
    out
}

/// The names of the claims whose identifier stands in `uuids`, in listing
/// order; a claim without identifier or name is passed over.
pub open spec fn pvc_names_for(uuids: Seq<Seq<char>>, pvcs: Seq<PvcMeta>) -> Seq<Seq<char>>
    decreases pvcs.len(),
{
    if pvcs.len() == 0 {
        Seq::empty()
    } else {
        let rest = pvc_names_for(uuids, pvcs.drop_last());
        let p = pvcs.last();
        if (p.uid matches Some(u) && uuids.contains(u@)) && p.name is Some {
            rest.push(p.name->0@)
        } else {
            rest
        }
    }
}

/// Resolves volume identifiers to the names of the claims bound to them.
pub fn get_pvc_from_uuid(uuid_list: &Vec<String>, pvcs: &Vec<PvcMeta>) -> (r: Vec<String>)
    ensures
        string_views(r@) == pvc_names_for(string_views(uuid_list@), pvcs@),
{
    let ghost uuids = string_views(uuid_list@);
    let mut out: Vec<String> = Vec::new();
    let mut i: usize = 0;
    proof {
        assert(pvcs@.take(0) =~= Seq::<PvcMeta>::empty());
        assert(string_views(out@) =~= pvc_names_for(uuids, pvcs@.take(0)));
    }
    while i < pvcs.len()
        invariant
            i <= pvcs@.len(),
            uuids == string_views(uuid_list@),
            string_views(out@) == pvc_names_for(uuids, pvcs@.take(i as int)),
        decreases pvcs@.len() - i,
    {
        proof {
            assert(pvcs@.take(i + 1).drop_last() =~= pvcs@.take(i as int));
            assert(pvcs@.take(i + 1).last() == pvcs@[i as int]);
        }
        let ghost old_out = out@;
        match &pvcs[i].uid {
            Some(u) => {
                if contains_string(uuid_list, u.as_str()) {
                    match &pvcs[i].name {
                        Some(n) => {
                            out.push(crate::release::clone_string(n));
                            proof {
                                assert(string_views(out@) =~= string_views(old_out).push(
                                    pvcs@[i as int].name->0@,
                                ));
                            }
                        },
                        None => {},
                    }
                }
            },
            None => {},
        }
        i = i + 1;
    }
    proof {
        assert(pvcs@.take(pvcs@.len() as int) =~= pvcs@);
    }
    out
}

/// Refuses the upgrade while single-replica volumes exist, naming the
/// claims bound to them.
pub fn single_volume_replica_validation(
    volumes: &Vec<VolumeSummary>,
    pvcs: &Vec<PvcMeta>,
) -> (r: Result<(), PreflightError>)
    ensures
        match r {
            Ok(()) => single_replica_uuids(volumes@).len() == 0,
            Err(e) => match e {
                PreflightError::SingleReplicaVolumes(names) => single_replica_uuids(
                    volumes@,
                ).len() > 0 && string_views(names@) == pvc_names_for(
                    single_replica_uuids(volumes@),
                    pvcs@,
                ),
                _ => false,
            },
        },
{
    let uuids = collect_single_replica_uuids(volumes);
    if uuids.len() == 0 {
        return Ok(());
    }
    let names = get_pvc_from_uuid(&uuids, pvcs);
    Err(PreflightError::SingleReplicaVolumes(names))
}

/// The mathematical value of a preflight failure, with name lists as
/// character sequences.
pub enum PreflightFailure {
    Path(PathError),
    RebuildInProgress,
    NodeSpecMissing,
    CordonedNodes(Seq<Seq<char>>),
    SingleReplicaVolumes(Seq<Seq<char>>),
}

/// The value of a preflight error.
pub open spec fn preflight_error_view(e: PreflightError) -> PreflightFailure {
    match e {
        PreflightError::Path(p) => PreflightFailure::Path(p),
        PreflightError::RebuildInProgress => PreflightFailure::RebuildInProgress,
        PreflightError::NodeSpecMissing => PreflightFailure::NodeSpecMissing,
        PreflightError::CordonedNodes(ids) => PreflightFailure::CordonedNodes(string_views(ids@)),
        PreflightError::SingleReplicaVolumes(names) => PreflightFailure::SingleReplicaVolumes(
            string_views(names@),
        ),
    }
}

/// The value of a preflight result.
pub open spec fn preflight_result_view(r: Result<(), PreflightError>) -> Result<
    (),
    PreflightFailure,
> {
    match r {
        Ok(()) => Ok(()),
        Err(e) => Err(preflight_error_view(e)),
    }
}

/// The decision of the whole pipeline over the gathered cluster state, in
/// check order, honouring the per-check skip flags; with the replicated
/// engine disabled it decides nothing.
pub open spec fn spec_preflight_decision(
    enabled: bool,
    skip_path: bool,
    allow_unstable: bool,
    source: crate::version::VersionView,
    target_tag: Seq<char>,
    skip_rebuild: bool,
    vols: Seq<VolumeSummary>,
    skip_cordon: bool,
    nodes: Seq<NodeSummary>,
    skip_single: bool,
    pvcs: Seq<PvcMeta>,
) -> Result<(), PreflightFailure> {
    let pd = path_decision(
        allow_unstable,
        source,
        tag_version(target_tag),
        spec_contains_develop(target_tag),
    );
    if !enabled {
        Ok(())
    } else if !skip_path && pd is Err {
        Err(PreflightFailure::Path(pd->Err_0))
    } else if !skip_rebuild && any_rebuilding(vols) {
        Err(PreflightFailure::RebuildInProgress)
    } else if !skip_cordon && (exists|i: int| 0 <= i < nodes.len() && !nodes[i].has_spec) {
        Err(PreflightFailure::NodeSpecMissing)
    } else if !skip_cordon && cordoned_ids(nodes).len() > 0 {
        Err(PreflightFailure::CordonedNodes(cordoned_ids(nodes)))
    } else if !skip_single && single_replica_uuids(vols).len() > 0 {
        Err(
            PreflightFailure::SingleReplicaVolumes(
                pvc_names_for(single_replica_uuids(vols), pvcs),
            ),
        )
    } else {
        Ok(())
    }
}

/// Runs the whole preflight pipeline over the gathered cluster state,
/// short-circuiting at the first failing, non-skipped check. The flags of
/// `args` say which checks to skip; `enabled` is the release's
/// replicated-engine flag, and with it off the pipeline is a no-op.
///
/// Errors that carry names compare by their characters, the rest by
/// variant, against [`spec_preflight_decision`].
pub fn upgrade_preflight_check(
    args: &UpgradeCommonArgs,
    enabled: bool,
    source: &Version,
    target_tag: &str,
    volumes: &Vec<VolumeSummary>,
    nodes: &Vec<NodeSummary>,
    pvcs: &Vec<PvcMeta>,
) -> (r: Result<(), PreflightError>)
    ensures
        preflight_result_view(r) == spec_preflight_decision(
                enabled,
                args.skip_upgrade_path_validation_for_unsupported_version,
                args.allow_unstable,
                source@,
                target_tag@,
                args.skip_replica_rebuild,
                volumes@,
                args.skip_cordoned_node_validation,
                nodes@,
                args.skip_single_replica_volume_validation,
                pvcs@,
        ),
{
    if !enabled {
        return Ok(());
    }
    if !args.skip_upgrade_path_validation_for_unsupported_version {
        match upgrade_path_validation(args.allow_unstable, source, target_tag) {
            Err(e) => {
                return Err(PreflightError::Path(e));
            },
            Ok(()) => {},
        }
    }
    if !args.skip_replica_rebuild {
        match rebuild_in_progress_validation(volumes) {
            Err(e) => {
                return Err(e);
            },
            Ok(()) => {},
        }
    }
    if !args.skip_cordoned_node_validation {
        match already_cordoned_nodes_validation(nodes) {
            Err(e) => {
                return Err(e);
            },
            Ok(()) => {},
        }
    }
    if !args.skip_single_replica_volume_validation {
        match single_volume_replica_validation(volumes, pvcs) {
            Err(e) => {
                return Err(e);
            },
            Ok(()) => {},
        }
    }
    Ok(())
}

} // verus!
