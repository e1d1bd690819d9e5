//! Choosing the upgrade job's container image properties from what already
//! runs in the cluster.
//!
//! The registry is read off a known platform container's image reference:
//! only when that reference splits into exactly three slash-separated
//! segments does its first segment name a registry, and an explicit
//! override always wins over both it and the public default. The pod that
//! carries the known container also lends its pull secrets and pull policy
//! verbatim.

use crate::release::clone_string;
use crate::resources::ResourceError;
use crate::text::{spec_contains, str_contains, str_eq, string_views};
use vstd::prelude::*;
use vstd::string::*;

verus! {

/// One container of a running pod, reduced to what image selection reads.
pub struct ContainerInfo {
    pub name: String,
    pub image: Option<String>,
    pub image_pull_policy: Option<String>,
}

/// One running pod, reduced to what image selection reads.
pub struct PodInfo {
    pub containers: Vec<ContainerInfo>,
    pub image_pull_secrets: Option<Vec<String>>,
}

/// The image properties the upgrade job is created with.
pub struct ImageProperties {
    pub pull_secrets: Option<Vec<String>>,
    pub registry: String,
    pub pull_policy: Option<String>,
}

/// The characters of an optional string.
pub open spec fn opt_string_view(o: Option<String>) -> Option<Seq<char>> {
    match o {
        Some(s) => Some(s@),
        None => None,
    }
}

/// The characters of an optional string list.
pub open spec fn opt_strings_view(o: Option<Vec<String>>) -> Option<Seq<Seq<char>>> {
    match o {
        Some(v) => Some(string_views(v@)),
        None => None,
    }
}

/// The name under which the hostpath provisioner's container runs for a
/// given release.
pub open spec fn hostpath_container_name(release: Seq<char>) -> Seq<char> {
    if spec_contains(release, "localpv-provisioner"@) {
        "localpv-provisioner"@
    } else {
        release + "-localpv-provisioner"@
    }
}

/// True iff a container name is one the platform is known to run.
pub open spec fn known_container(release: Seq<char>, name: Seq<char>) -> bool {
    ||| name == "openebs-localpv-provisioner"@
    ||| name == "api-rest"@
    ||| name == "openebs-zfs-plugin"@
    ||| name == "openebs-lvm-plugin"@
    ||| name == hostpath_container_name(release)
}

/// True iff some container of the pod is a known one.
pub open spec fn pod_has_known(release: Seq<char>, pod: PodInfo) -> bool {
    exists|j: int|
        0 <= j < pod.containers@.len() && known_container(release, pod.containers@[j].name@)
}

/// How often `c` occurs in `s`.
pub open spec fn count_char(s: Seq<char>, c: char) -> int
    decreases s.len(),
{
    if s.len() == 0 {
        0
    } else {
        count_char(s.drop_last(), c) + if s.last() == c {
            1int
        } else {
            0int
        }
    }
}

/// The index of the first `c` in `s`, or `s.len()` if there is none.
pub open spec fn first_pos(s: Seq<char>, c: char) -> int
    decreases s.len(),
{
    if s.len() == 0 {
        0
    } else if s[0] == c {
        0
    } else {
        1 + first_pos(s.drop_first(), c)
    }
}

proof fn lemma_first_pos_at(s: Seq<char>, c: char, k: int)
    requires
        0 <= k <= s.len(),
        forall|j: int| 0 <= j < k ==> s[j] != c,
        k < s.len() ==> s[k] == c,
    ensures
        first_pos(s, c) == k,
    decreases s.len(),
{
    if s.len() > 0 && s[0] != c {
        lemma_first_pos_at(s.drop_first(), c, k - 1);
    }
}

/// The registry segment of an image reference: its first slash-separated
/// segment, only when there are exactly three.
pub open spec fn spec_registry_of(img: Seq<char>) -> Option<Seq<char>> {
    if count_char(img, '/') == 2 {
        Some(img.take(first_pos(img, '/')))
    } else {
        None
    }
}

/// Reads the registry off an image reference, when it has one.
pub fn registry_from_image(img: &str) -> (r: Option<String>)
    ensures
        match r {
            Some(reg) => spec_registry_of(img@) == Some(reg@),
            None => spec_registry_of(img@) is None,
        },
{
    let n = img.unicode_len();
    let mut cnt: usize = 0;
    let mut pos: usize = 0;
    let mut i: usize = 0;
    proof {
        assert(img@.take(0) =~= Seq::<char>::empty());
    }
    while i < n
        invariant
            i <= n,
            n == img@.len(),
            cnt <= i,
            cnt == count_char(img@.take(i as int), '/'),
            cnt > 0 ==> (pos < i && img@[pos as int] == '/' && (forall|j: int|
                0 <= j < pos ==> img@[j] != '/')),
            cnt == 0 ==> (forall|j: int| 0 <= j < i ==> img@[j] != '/'),
        decreases n - i,
    {
        proof {
            assert(img@.take(i + 1).drop_last() =~= img@.take(i as int));
            assert(img@.take(i + 1).last() == img@[i as int]);
        }
        if img.get_char(i) == '/' {
            if cnt == 0 {
                pos = i;
            }
            cnt = cnt + 1;
        }
        i = i + 1;
    }
    proof {
        assert(img@.take(n as int) =~= img@);
    }
    if cnt == 2 {
        proof {
            lemma_first_pos_at(img@, '/', pos as int);
        }
        let reg = img.substring_char(0, pos);
        proof {
            assert(reg@ =~= img@.take(pos as int));
        }
        Some(String::from_str(reg))
    } else {
        None
    }
}

/// The registry the job's image is pulled from: an explicit override, else
/// the registry read off the known container's image, else the default.
pub open spec fn spec_registry(ovr: Option<Seq<char>>, image: Option<Seq<char>>) -> Seq<char> {
    match ovr {
        Some(r) => r,
        None => match image {
            Some(img) => match spec_registry_of(img) {
                Some(r) => r,
                None => "docker.io"@,
            },
            None => "docker.io"@,
        },
    }
}

/// Chooses the registry as [`spec_registry`] describes.
pub fn select_registry(registry_override: Option<&String>, image: Option<&String>) -> (r: String)
    ensures
        r@ == spec_registry(
            match registry_override {
                Some(s) => Some(s@),
                None => None,
            },
            match image {
                Some(s) => Some(s@),
                None => None,
            },
        ),
{
    match registry_override {
        Some(reg) => clone_string(reg),
        None => match image {
            Some(img) => match registry_from_image(img.as_str()) {
                Some(reg) => reg,
                None => String::from_str("docker.io"),
            },
            None => String::from_str("docker.io"),
        },
    }
}

/// True iff `name` is a container name the platform is known to run for
/// this release.
pub fn container_is_known(release_name: &str, name: &str) -> (r: bool)
    ensures
        r == known_container(release_name@, name@),
{
    if str_eq(name, "openebs-localpv-provisioner") || str_eq(name, "api-rest") || str_eq(
        name,
        "openebs-zfs-plugin",
    ) || str_eq(name, "openebs-lvm-plugin") {
        return true;
    }
    if str_contains(release_name, "localpv-provisioner") {
        str_eq(name, "localpv-provisioner")
    } else {
        let mut hostpath = String::from_str(release_name);
        hostpath.append("-localpv-provisioner");
        str_eq(name, hostpath.as_str())
    }
}

fn clone_opt_string(o: &Option<String>) -> (r: Option<String>)
    ensures
        opt_string_view(r) == opt_string_view(*o),
{
    match o {
        Some(s) => Some(clone_string(s)),
        None => None,
    }
}

fn clone_string_vec(v: &Vec<String>) -> (r: Vec<String>)
    ensures
        string_views(r@) == string_views(v@),
{
    let mut out: Vec<String> = Vec::new();
    let mut i: usize = 0;
    while i < v.len()
        invariant
            i <= v@.len(),
            out@.len() == i,
            forall|k: int| 0 <= k < i ==> out@[k]@ == v@[k]@,
        decreases v@.len() - i,
    {
        out.push(clone_string(&v[i]));
        i = i + 1;
    }
    proof {
        assert(string_views(out@) =~= string_views(v@));
    }
    out
}

fn clone_opt_string_vec(o: &Option<Vec<String>>) -> (r: Option<Vec<String>>)
    ensures
        opt_strings_view(r) == opt_strings_view(*o),
{
    match o {
        Some(v) => Some(clone_string_vec(v)),
        None => None,
    }
}

impl ImageProperties {
    /// Reads the image properties off the first pod that runs a known
    /// container, taking that pod's first known container: its image gives
    /// the registry (unless overridden), and the pod's pull secrets and
    /// pull policy carry over verbatim. Fails when no listed pod runs a
    /// known container.
    pub fn new_from_pod_listing(
        release_name: &str,
        registry_override: Option<&String>,
        pods: &Vec<PodInfo>,
    ) -> (r: Result<ImageProperties, ResourceError>)
        ensures
            ({
                let ovr = match registry_override {
                    Some(s) => Some(s@),
                    None => None::<Seq<char>>,
                };
                match r {
                    Ok(p) => exists|i: int, j: int|
                        {
                            &&& 0 <= i < pods@.len()
                            &&& (forall|k: int|
                                0 <= k < i ==> !pod_has_known(release_name@, pods@[k]))
                            &&& 0 <= j < pods@[i].containers@.len()
                            &&& known_container(
                                release_name@,
                                #[trigger] pods@[i].containers@[j].name@,
                            )
                            &&& (forall|t: int|
                                0 <= t < j ==> !known_container(
                                    release_name@,
                                    pods@[i].containers@[t].name@,
                                ))
                            &&& p.registry@ == spec_registry(
                                ovr,
                                opt_string_view(pods@[i].containers@[j].image),
                            )
                            &&& opt_string_view(p.pull_policy) == opt_string_view(
                                pods@[i].containers@[j].image_pull_policy,
                            )
                            &&& opt_strings_view(p.pull_secrets) == opt_strings_view(
                                pods@[i].image_pull_secrets,
                            )
                        },
                    Err(e) => e == ResourceError::NoKnownContainer && (forall|i: int|
                        0 <= i < pods@.len() ==> !pod_has_known(release_name@, pods@[i])),
                }
            }),
    {
        let mut i: usize = 0;
        while i < pods.len()
            invariant
                i <= pods@.len(),
                forall|k: int| 0 <= k < i ==> !pod_has_known(release_name@, pods@[k]),
            decreases pods@.len() - i,
        {
            let pod = &pods[i];
            let mut j: usize = 0;
            while j < pod.containers.len()
                invariant
                    i < pods@.len(),
                    pod == &pods@[i as int],
                    j <= pod.containers@.len(),
                    forall|k: int| 0 <= k < i ==> !pod_has_known(release_name@, pods@[k]),
                    forall|t: int|
                        0 <= t < j ==> !known_container(
                            release_name@,
                            pod.containers@[t].name@,
                        ),
                decreases pod.containers@.len() - j,
            {
                let container = &pod.containers[j];
                if container_is_known(release_name, container.name.as_str()) {
                    let image_ref = container.image.as_ref();
                    let registry = select_registry(registry_override, image_ref);
                    let props = ImageProperties {
                        pull_secrets: clone_opt_string_vec(&pod.image_pull_secrets),
                        registry,
                        pull_policy: clone_opt_string(&container.image_pull_policy),
                    };
                    proof {
                        let gi = i as int;
                        let gj = j as int;
                        let ovr = match registry_override {
                            Some(s) => Some(s@),
                            None => None::<Seq<char>>,
                        };
                        assert(pods@[gi].containers@[gj] == pod.containers@[gj]);
                        assert(known_container(release_name@, pods@[gi].containers@[gj].name@));
                        assert((match image_ref {
                            Some(s) => Some(s@),
                            None => None::<Seq<char>>,
                        }) == opt_string_view(pods@[gi].containers@[gj].image));
                        assert(props.registry@ == spec_registry(
                            ovr,
                            opt_string_view(pods@[gi].containers@[gj].image),
                        ));
                        assert(opt_string_view(props.pull_policy) == opt_string_view(
                            pods@[gi].containers@[gj].image_pull_policy,
                        ));
                        assert(opt_strings_view(props.pull_secrets) == opt_strings_view(
                            pods@[gi].image_pull_secrets,
                        ));
                    }
                    return Ok(props);
                }
                j = j + 1;
            }
            proof {
                assert(!pod_has_known(release_name@, pods@[i as int]));
            }
            i = i + 1;
        }
        Err(ResourceError::NoKnownContainer)
    }
}

} // verus!
