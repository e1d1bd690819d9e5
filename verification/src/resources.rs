//! The deterministic shape of the upgrade resource bundle: the names of the
//! five cluster objects, their shared labels, the config map built from
//! set-file contents, and the argument list of the upgrade job.
//!
//! Every name is a pure function of the release name and a version-derived
//! suffix, so that re-running the upgrade derives the same names and can
//! treat an existing object as success.

use crate::constants::{upgrade_obj_suffix, UPGRADE_CONFIG_MAP_MOUNT_PATH};
use crate::text::{dec_rep, join_commas, join_with_commas, pair_string_views, split2_eq,
    split_eq_arg, str_eq, string_views, u64_to_string};
use vstd::prelude::*;
use vstd::string::*;

verus! {

/// How building the bundle's contents can fail.
#[derive(Debug)]
pub enum ResourceError {
    /// A `--set-file` argument is not a single `key=path` pair.
    InvalidSetFileArg,
    /// A set-file path has no entry in the path-to-key mapping.
    SetFileKeyMissing,
    /// No running pod offers a recognised container to read image
    /// properties from.
    NoKnownContainer,
}

/// `release`, `component` and `suffix` joined with dashes: the one naming
/// rule every upgrade resource follows.
pub open spec fn spec_name_concat(
    release: Seq<char>,
    component: Seq<char>,
    suffix: Seq<char>,
) -> Seq<char> {
    release + "-"@ + component + "-"@ + suffix
}

/// Joins release name, component name and an explicit suffix with dashes.
pub fn upgrade_name_concat_with(release_name: &str, component_name: &str, suffix: &str) -> (r:
    String)
    ensures
        r@ == spec_name_concat(release_name@, component_name@, suffix@),
{
    let mut out = String::from_str(release_name);
    out.append("-");
    out.append(component_name);
    out.append("-");
    out.append(suffix);
    proof {
        assert(out@ =~= spec_name_concat(release_name@, component_name@, suffix@));
    }
    out
}

/// Joins release name and component name with this build's version-derived
/// suffix: the `releaseName-componentName-version` naming rule.
pub fn upgrade_name_concat(release_name: &str, component_name: &str) -> (r: String)
    ensures
        r@ == spec_name_concat(
            release_name@,
            component_name@,
            crate::constants::dash_for_dot(crate::constants::UPGRADE_JOB_IMAGE_TAG@),
        ),
{
    let suffix = upgrade_obj_suffix();
    upgrade_name_concat_with(release_name, component_name, suffix.as_str())
}

/// The job's name for one release and suffix.
pub open spec fn spec_job_name(release: Seq<char>, suffix: Seq<char>) -> Seq<char> {
    spec_name_concat(release, "upgrade"@, suffix)
}

/// The service account's name.
pub open spec fn spec_service_account_name(release: Seq<char>, suffix: Seq<char>) -> Seq<char> {
    spec_name_concat(release, "upgrade-service-account"@, suffix)
}

/// The cluster role's name.
pub open spec fn spec_cluster_role_name(release: Seq<char>, suffix: Seq<char>) -> Seq<char> {
    spec_name_concat(release, "upgrade-role"@, suffix)
}

/// The cluster role binding's name.
pub open spec fn spec_cluster_role_binding_name(release: Seq<char>, suffix: Seq<char>) -> Seq<
    char,
> {
    spec_name_concat(release, "upgrade-role-binding"@, suffix)
}

/// The config map's name.
pub open spec fn spec_config_map_name(release: Seq<char>, suffix: Seq<char>) -> Seq<char> {
    spec_name_concat(release, "upgrade-config-map"@, suffix)
}

/// The names of the five objects of one upgrade's resource bundle.
pub struct BundleNames {
    pub service_account: String,
    pub cluster_role: String,
    pub cluster_role_binding: String,
    pub config_map: String,
    pub job: String,
}

impl BundleNames {
    /// Derives the five bundle names for one release and suffix.
    pub fn derive(release_name: &str, suffix: &str) -> (r: BundleNames)
        ensures
            r.service_account@ == spec_service_account_name(release_name@, suffix@),
            r.cluster_role@ == spec_cluster_role_name(release_name@, suffix@),
            r.cluster_role_binding@ == spec_cluster_role_binding_name(release_name@, suffix@),
            r.config_map@ == spec_config_map_name(release_name@, suffix@),
            r.job@ == spec_job_name(release_name@, suffix@),
    {
        BundleNames {
            service_account: upgrade_name_concat_with(
                release_name,
                "upgrade-service-account",
                suffix,
            ),
            cluster_role: upgrade_name_concat_with(release_name, "upgrade-role", suffix),
            cluster_role_binding: upgrade_name_concat_with(
                release_name,
                "upgrade-role-binding",
                suffix,
            ),
            config_map: upgrade_name_concat_with(release_name, "upgrade-config-map", suffix),
            job: upgrade_name_concat_with(release_name, "upgrade", suffix),
        }
    }
}

/// The label set stamped on every bundle object: the upgrade app label and
/// the logging opt-in.
pub fn upgrade_labels() -> (r: Vec<(String, String)>)
    ensures
        r@.len() == 2,
        r@[0].0@ == "app"@ && r@[0].1@ == "upgrade"@,
        r@[1].0@ == "openebs.io/logging"@ && r@[1].1@ == "true"@,
{
    let mut v: Vec<(String, String)> = Vec::new();
    v.push((String::from_str("app"), String::from_str("upgrade")));
    v.push((String::from_str("openebs.io/logging"), String::from_str("true")));
    v
}

/// The field selector that finds the upgrade job's events.
pub open spec fn spec_event_selector(job_name: Seq<char>) -> Seq<char> {
    "regarding.kind=Job,regarding.name="@ + job_name
}

/// The field selector for the events of one release's upgrade job.
pub fn upgrade_events_selector(release_name: &str, suffix: &str) -> (r: String)
    ensures
        r@ == spec_event_selector(spec_job_name(release_name@, suffix@)),
{
    let job = upgrade_name_concat_with(release_name, "upgrade", suffix);
    let mut out = String::from_str("regarding.kind=Job,regarding.name=");
    out.append(job.as_str());
    out
}

/// Builds the config map's contents from the `--set-file` arguments and the
/// text read from each named file: the `i`-th file's text is stored under
/// the key `i + 1`, and each file path is mapped to its key so that the
/// job's arguments can name it. Every argument must be a single `key=path`
/// pair.
pub fn config_map_data(set_file_args: &Vec<String>, file_contents: &Vec<String>) -> (r: Result<
    (Vec<(String, String)>, Vec<(String, String)>),
    ResourceError,
>)
    requires
        set_file_args@.len() == file_contents@.len(),
    ensures
        match r {
            Ok(maps) => maps.0@.len() == set_file_args@.len() && maps.1@.len()
                == set_file_args@.len() && (forall|i: int|
                0 <= i < set_file_args@.len() ==> (#[trigger] split2_eq(set_file_args@[i]@) matches Some(kv)
                    && maps.0@[i].0@ == dec_rep(i + 1) && maps.0@[i].1@ == file_contents@[i]@
                    && maps.1@[i].0@ == kv.1 && maps.1@[i].1@ == dec_rep(i + 1))),
            Err(e) => e == ResourceError::InvalidSetFileArg && (exists|i: int|
                0 <= i < set_file_args@.len() && split2_eq(set_file_args@[i]@) is None),
        },
{
    let mut data: Vec<(String, String)> = Vec::new();
    let mut mapping: Vec<(String, String)> = Vec::new();
    let mut i: usize = 0;
    while i < set_file_args.len()
        invariant
            i <= set_file_args@.len(),
            set_file_args@.len() == file_contents@.len(),
            data@.len() == i,
            mapping@.len() == i,
            forall|k: int|
                0 <= k < i ==> (#[trigger] split2_eq(set_file_args@[k]@) matches Some(kv) && data@[k].0@
                    == dec_rep(k + 1) && data@[k].1@ == file_contents@[k]@ && mapping@[k].0@ == kv.1
                    && mapping@[k].1@ == dec_rep(k + 1)),
        decreases set_file_args@.len() - i,
    {
        match split_eq_arg(set_file_args[i].as_str()) {
            None => {
                return Err(ResourceError::InvalidSetFileArg);
            },
            Some((_key, path)) => {
                let index_text = u64_to_string((i + 1) as u64);
                let key_text = u64_to_string((i + 1) as u64);
                data.push((index_text, crate::release::clone_string(&file_contents[i])));
                mapping.push((path, key_text));
            },
        }
        i = i + 1;
    }
    Ok((data, mapping))
}

/// The value that the path-to-key mapping holds for `key`, a later entry
/// shadowing an earlier one with the same path.
pub open spec fn lookup_last(map: Seq<(Seq<char>, Seq<char>)>, key: Seq<char>) -> Option<Seq<char>>
    decreases map.len(),
{
    if map.len() == 0 {
        None
    } else if map.last().0 == key {
        Some(map.last().1)
    } else {
        lookup_last(map.drop_last(), key)
    }
}

fn lookup_last_in(map: &Vec<(String, String)>, key: &str) -> (r: Option<String>)
    ensures
        match r {
            Some(v) => lookup_last(pair_string_views(map@), key@) == Some(v@),
            None => lookup_last(pair_string_views(map@), key@) is None,
        },
{
    let ghost mv = pair_string_views(map@);
    let mut j: usize = map.len();
    proof {
        assert(mv.take(map@.len() as int) =~= mv);
    }
    while j > 0
        invariant
            j <= map@.len(),
            mv == pair_string_views(map@),
            mv.len() == map@.len(),
            lookup_last(mv, key@) == lookup_last(mv.take(j as int), key@),
        decreases j,
    {
        proof {
            assert(mv.take(j as int).last() == mv[j - 1]);
            assert(mv.take(j as int).drop_last() =~= mv.take(j - 1));
        }
        if str_eq(map[j - 1].0.as_str(), key) {
            return Some(crate::release::clone_string(&map[j - 1].1));
        }
        j = j - 1;
    }
    proof {
        assert(mv.take(0) =~= Seq::<(Seq<char>, Seq<char>)>::empty());
    }
    None
}

/// One `key=/upgrade-config-map/<index>` piece of the job's set-file
/// argument, or nothing when the argument does not split or its path has no
/// mapped key.
pub open spec fn spec_set_file_piece(
    arg: Seq<char>,
    map: Seq<(Seq<char>, Seq<char>)>,
) -> Option<Seq<char>> {
    match split2_eq(arg) {
        Some(kv) => match lookup_last(map, kv.1) {
            Some(idx) => Some(kv.0 + "="@ + UPGRADE_CONFIG_MAP_MOUNT_PATH@ + "/"@ + idx),
            None => None,
        },
        None => None,
    }
}

/// How the set-file arguments translate, read left to right: the first
/// argument that does not split stops the scan, then the first whose path
/// has no mapped key, and otherwise every piece is kept in order.
pub open spec fn set_file_scan(
    args: Seq<Seq<char>>,
    map: Seq<(Seq<char>, Seq<char>)>,
) -> Result<Seq<Seq<char>>, ResourceError>
    decreases args.len(),
{
    if args.len() == 0 {
        Ok(Seq::empty())
    } else {
        match split2_eq(args.first()) {
            None => Err(ResourceError::InvalidSetFileArg),
            Some(kv) => match lookup_last(map, kv.1) {
                None => Err(ResourceError::SetFileKeyMissing),
                Some(idx) => match set_file_scan(args.drop_first(), map) {
                    Ok(rest) => Ok(
                        seq![kv.0 + "="@ + UPGRADE_CONFIG_MAP_MOUNT_PATH@ + "/"@ + idx] + rest,
                    ),
                    Err(e) => Err(e),
                },
            },
        }
    }
}

/// Translates the `--set-file` arguments into the one argument handed to
/// the upgrade job, with each file path replaced by its config-map-relative
/// path. No arguments translate to no argument at all.
pub fn job_set_file_args(
    set_file_arg: &Vec<String>,
    set_file_map: Option<&Vec<(String, String)>>,
) -> (r: Result<Option<String>, ResourceError>)
    ensures
        ({
            let args = string_views(set_file_arg@);
            let mv = match set_file_map {
                Some(m) => pair_string_views(m@),
                None => Seq::<(Seq<char>, Seq<char>)>::empty(),
            };
            match r {
                Ok(None) => args.len() == 0,
                Ok(Some(s)) => args.len() > 0 && (set_file_scan(args, mv) matches Ok(ps) && s@
                    == join_commas(ps)),
                Err(e) => set_file_scan(args, mv) == Result::<
                    Seq<Seq<char>>,
                    ResourceError,
                >::Err(e),
            }
        }),
{
    let ghost args = string_views(set_file_arg@);
    let ghost mv = match set_file_map {
        Some(m) => pair_string_views(m@),
        None => Seq::<(Seq<char>, Seq<char>)>::empty(),
    };
    if set_file_arg.len() == 0 {
        return Ok(None);
    }
    let empty_map: Vec<(String, String)> = Vec::new();
    let map_ref: &Vec<(String, String)> = match set_file_map {
        Some(m) => m,
        None => &empty_map,
    };
    proof {
        assert(pair_string_views(map_ref@) =~= mv);
    }
    let mut pieces: Vec<String> = Vec::new();
    let mut i: usize = 0;
    proof {
        assert(args.skip(0) =~= args);
        assert(string_views(pieces@) =~= Seq::<Seq<char>>::empty());
    }
    while i < set_file_arg.len()
        invariant
            i <= set_file_arg@.len(),
            args == string_views(set_file_arg@),
            args.len() == set_file_arg@.len(),
            mv == pair_string_views(map_ref@),
            mv == (match set_file_map {
                Some(m) => pair_string_views(m@),
                None => Seq::<(Seq<char>, Seq<char>)>::empty(),
            }),
            set_file_arg@.len() > 0,
            match set_file_scan(args.skip(i as int), mv) {
                Ok(rest) => set_file_scan(args, mv) == Result::<
                    Seq<Seq<char>>,
                    ResourceError,
                >::Ok(string_views(pieces@) + rest),
                Err(e) => set_file_scan(args, mv) == Result::<
                    Seq<Seq<char>>,
                    ResourceError,
                >::Err(e),
            },
        decreases set_file_arg@.len() - i,
    {
        let ghost rest = args.skip(i as int);
        let ghost old_pieces = pieces@;
        proof {
            assert(rest.len() == args.len() - i);
            assert(rest.first() == args[i as int]);
            assert(rest.drop_first() =~= args.skip(i + 1));
        }
        match split_eq_arg(set_file_arg[i].as_str()) {
            None => {
                proof {
                    assert(args[i as int] == set_file_arg@[i as int]@);
                    assert(set_file_scan(rest, mv) == Result::<
                        Seq<Seq<char>>,
                        ResourceError,
                    >::Err(ResourceError::InvalidSetFileArg));
                }
                return Err(ResourceError::InvalidSetFileArg);
            },
            Some((key, path)) => {
                proof {
                    assert(args[i as int] == set_file_arg@[i as int]@);
                }
                match lookup_last_in(map_ref, path.as_str()) {
                    None => {
                        proof {
                            assert(set_file_scan(rest, mv) == Result::<
                                Seq<Seq<char>>,
                                ResourceError,
                            >::Err(ResourceError::SetFileKeyMissing));
                        }
                        return Err(ResourceError::SetFileKeyMissing);
                    },
                    Some(idx) => {
                        let mut piece = key;
                        piece.append("=");
                        piece.append(UPGRADE_CONFIG_MAP_MOUNT_PATH);
                        piece.append("/");
                        piece.append(idx.as_str());
                        pieces.push(piece);
                        proof {
                            assert(string_views(pieces@) =~= string_views(old_pieces)
                                + seq![pieces@.last()@]);
                            match set_file_scan(args.skip(i + 1), mv) {
                                Ok(r2) => {
                                    assert(string_views(old_pieces) + (seq![pieces@.last()@] + r2)
                                        =~= string_views(pieces@) + r2);
                                },
                                Err(_) => {},
                            }
                        }
                    },
                }
            },
        }
        i = i + 1;
    }
    proof {
        assert(args.skip(args.len() as int).len() == 0);
        assert(string_views(pieces@) + Seq::<Seq<char>>::empty() =~= string_views(pieces@));
    }
    let joined = join_with_commas(&pieces);
    Ok(Some(joined))
}

/// The upgrade job's full image reference for one registry and tag.
pub open spec fn spec_upgrade_image(registry: Seq<char>, tag: Seq<char>) -> Seq<char> {
    registry + "/"@ + crate::constants::UPGRADE_JOB_IMAGE_REPO@ + "/openebs-upgrade-job:"@ + tag
}

/// Writes the upgrade job's image reference.
pub fn upgrade_image(registry: &str, tag: &str) -> (r: String)
    ensures
        r@ == spec_upgrade_image(registry@, tag@),
{
    let mut out = String::from_str(registry);
    out.append("/");
    out.append(crate::constants::UPGRADE_JOB_IMAGE_REPO);
    out.append("/openebs-upgrade-job:");
    out.append(tag);
    proof {
        assert(out@ =~= spec_upgrade_image(registry@, tag@));
    }
    out
}

/// The upgrade job's argument list: the REST endpoint derived from the
/// release name, the namespace, the release name, the joined `--set`
/// overrides, the translated set-file argument, and the two skip flags
/// when asked for.
pub open spec fn spec_job_args(
    namespace: Seq<char>,
    release: Seq<char>,
    set_joined: Seq<char>,
    set_file: Seq<char>,
    skip_data_plane_restart: bool,
    skip_upgrade_path_validation: bool,
) -> Seq<Seq<char>> {
    let base = seq![
        "--rest-endpoint=http://"@ + release + "-api-rest:8081"@,
        "--namespace="@ + namespace,
        "--release-name="@ + release,
        "--helm-args-set="@ + set_joined,
        "--helm-args-set-file="@ + set_file,
    ];
    let with_restart = if skip_data_plane_restart {
        base.push("--skip-data-plane-restart"@)
    } else {
        base
    };
    if skip_upgrade_path_validation {
        with_restart.push("--skip-upgrade-path-validation"@)
    } else {
        with_restart
    }
}

/// Builds the upgrade job's argument list, joining the `--set` overrides
/// with commas.
pub fn upgrade_job_args(
    namespace: &str,
    release_name: &str,
    set: &Vec<String>,
    set_file: &str,
    skip_data_plane_restart: bool,
    skip_upgrade_path_validation: bool,
) -> (r: Vec<String>)
    ensures
        string_views(r@) == spec_job_args(
            namespace@,
            release_name@,
            join_commas(string_views(set@)),
            set_file@,
            skip_data_plane_restart,
            skip_upgrade_path_validation,
        ),
{
    let mut args: Vec<String> = Vec::new();

    let mut endpoint = String::from_str("--rest-endpoint=http://");
    endpoint.append(release_name);
    endpoint.append("-api-rest:8081");
    args.push(endpoint);

    let mut ns = String::from_str("--namespace=");
    ns.append(namespace);
    args.push(ns);

    let mut rel = String::from_str("--release-name=");
    rel.append(release_name);
    args.push(rel);

    let joined = join_with_commas(set);
    let mut set_arg = String::from_str("--helm-args-set=");
    set_arg.append(joined.as_str());
    args.push(set_arg);

    let mut set_file_arg = String::from_str("--helm-args-set-file=");
    set_file_arg.append(set_file);
    args.push(set_file_arg);

    if skip_data_plane_restart {
        args.push(String::from_str("--skip-data-plane-restart"));
    }
    if skip_upgrade_path_validation {
        args.push(String::from_str("--skip-upgrade-path-validation"));
    }
    proof {
        assert(string_views(args@) =~= spec_job_args(
            namespace@,
            release_name@,
            join_commas(string_views(set@)),
            set_file@,
            skip_data_plane_restart,
            skip_upgrade_path_validation,
        ));
    }
    args
}

} // verus!
