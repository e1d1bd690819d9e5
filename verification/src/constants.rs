//! Fixed names and the version-derived suffix shared by every upgrade
//! resource.

use vstd::prelude::*;
use vstd::string::*;

verus! {

/// The image tag installed by a build that carries no version tag of its
/// own.
pub const UPGRADE_JOB_IMAGE_TAG: &'static str = "develop";

/// The registry used when none can be derived from the cluster and none is
/// given on the command line.
pub const DEFAULT_IMAGE_REGISTRY: &'static str = "docker.io";

/// The repository under the registry that holds the upgrade job's image.
pub const UPGRADE_JOB_IMAGE_REPO: &'static str = "openebs";

/// Where the job's pod mounts the config map of set-file contents.
pub const UPGRADE_CONFIG_MAP_MOUNT_PATH: &'static str = "/upgrade-config-map";

/// The name of the platform's chart.
pub const PRODUCT_NAME: &'static str = "openebs";

/// The number of items one page of a paginated listing asks for.
pub const HTTP_DATA_PAGE_SIZE: usize = 500;

/// A version tag with every dot replaced by a dash, so that it can stand
/// inside a Kubernetes object name.
pub open spec fn dash_for_dot(s: Seq<char>) -> Seq<char> {
    s.map_values(|c: char| if c == '.' { '-' } else { c })
}

/// Replaces every dot with a dash.
pub fn replace_dots(s: &str) -> (r: String)
    ensures
        r@ == dash_for_dot(s@),
{
    let n = s.unicode_len();
    let mut out = String::new();
    let mut i: usize = 0;
    proof {
        broadcast use vstd::string::group_string_axioms;

        reveal_strlit("-");
        assert(out@ =~= dash_for_dot(s@.take(0)));
    }
    while i < n
        invariant
            i <= n,
            n == s@.len(),
            "-"@ =~= seq!['-'],
            out@ == dash_for_dot(s@.take(i as int)),
        decreases n - i,
    {
        if s.get_char(i) == '.' {
            out.append("-");
        } else {
            let piece = s.substring_char(i, i + 1);
            out.append(piece);
        }
        proof {
            assert(out@ =~= dash_for_dot(s@.take(i + 1)));
        }
        i = i + 1;
    }
    proof {
        assert(s@.take(n as int) =~= s@);
    }
    out
}

/// The version tag that this build upgrades a cluster to. A build without
/// a version tag of its own installs the development image.
pub fn get_destination_version_tag() -> (r: String)
    ensures
        r@ == UPGRADE_JOB_IMAGE_TAG@,
{
    String::from_str(UPGRADE_JOB_IMAGE_TAG)
}

/// The suffix that a given destination tag stamps on every upgrade
/// resource name.
pub fn upgrade_obj_suffix_for(tag: &str) -> (r: String)
    ensures
        r@ == dash_for_dot(tag@),
{
    replace_dots(tag)
}

/// The name suffix of this build's upgrade resources: its destination tag,
/// written so that it can stand in an object name.
pub fn upgrade_obj_suffix() -> (r: String)
    ensures
        r@ == dash_for_dot(UPGRADE_JOB_IMAGE_TAG@),
{
    let tag = get_destination_version_tag();
    replace_dots(tag.as_str())
}

} // verus!
