//! Resolving the deployed release: which storage object holds it, how its
//! payload decodes, and what the decoded document says.
//!
//! A release's payload is stored Base64-encoded over a gzip stream over a
//! JSON document. The document's schema differs across chart generations,
//! so the feature flag for the replicated engine is resolved through a fixed
//! priority order of possibly-absent paths: an explicit user override wins
//! over a shipped default, and full absence means disabled.

use crate::version::Version;
use base64::Engine;
use std::io::Read;
use vstd::prelude::*;
use vstd::string::*;

verus! {

/// The Kubernetes object kind that the Helm storage driver persists
/// releases in.
#[derive(Debug)]
pub enum StorageDriver {
    Secret,
    Configmap,
}

/// How resolving a release can fail before its document is read.
#[derive(Debug)]
pub enum ReleaseError {
    /// The storage driver string names no supported driver.
    UnsupportedDriver,
    /// No storage object matches the release.
    NotFound,
    /// More than one storage object matches the release.
    TooMany,
    /// The payload is not valid Base64.
    BadBase64,
    /// The Base64-decoded payload is not a valid gzip stream.
    BadGzip,
    /// A candidate release document carries no chart section.
    MissingChart,
}

/// True iff the driver string names the Secret driver: the empty string
/// (the default), `secret` or `secrets`.
pub open spec fn names_secret_driver(s: Seq<char>) -> bool {
    s == ""@ || s == "secret"@ || s == "secrets"@
}

/// True iff the driver string names the ConfigMap driver: `configmap` or
/// `configmaps`.
pub open spec fn names_configmap_driver(s: Seq<char>) -> bool {
    s == "configmap"@ || s == "configmaps"@
}

/// Reads a Helm storage driver string; any other string is unsupported and
/// refused by name.
pub fn parse_storage_driver(s: &str) -> (r: Result<StorageDriver, ReleaseError>)
    ensures
        names_secret_driver(s@) ==> r == Result::<StorageDriver, ReleaseError>::Ok(
            StorageDriver::Secret,
        ),
        names_configmap_driver(s@) ==> r == Result::<StorageDriver, ReleaseError>::Ok(
            StorageDriver::Configmap,
        ),
        !names_secret_driver(s@) && !names_configmap_driver(s@) ==> r == Result::<
            StorageDriver,
            ReleaseError,
        >::Err(ReleaseError::UnsupportedDriver),
{
    proof {
        broadcast use vstd::string::group_string_axioms;

        reveal_strlit("");
        reveal_strlit("secret");
        reveal_strlit("secrets");
        reveal_strlit("configmap");
        reveal_strlit("configmaps");
        assert(""@.len() == 0);
        assert("secret"@.len() == 6);
        assert("secrets"@.len() == 7);
        assert("configmap"@.len() == 9);
        assert("configmaps"@.len() == 10);
    }
    if crate::text::str_eq(s, "") || crate::text::str_eq(s, "secret") || crate::text::str_eq(
        s,
        "secrets",
    ) {
        Ok(StorageDriver::Secret)
    } else if crate::text::str_eq(s, "configmap") || crate::text::str_eq(s, "configmaps") {
        Ok(StorageDriver::Configmap)
    } else {
        Err(ReleaseError::UnsupportedDriver)
    }
}

/// What Base64 decoding with the standard alphabet yields for a byte
/// string, or nothing when the input is not valid Base64; a function of the
/// input alone.
pub uninterp spec fn base64_decoded(s: Seq<u8>) -> Option<Seq<u8>>;

/// Relies on `base64::engine::Engine::decode` with the standard alphabet.
#[verifier::external_body]
fn base64_decode(data: &Vec<u8>) -> (r: Option<Vec<u8>>)
    ensures
        match r {
            Some(v) => base64_decoded(data@) == Some(v@),
            None => base64_decoded(data@) is None,
        },
{
    base64::engine::general_purpose::STANDARD.decode(data).ok()
}

/// What decompressing a gzip stream to its end yields, or nothing when the
/// bytes are not a well-formed stream; a function of the input alone.
pub uninterp spec fn gunzipped(s: Seq<u8>) -> Option<Seq<u8>>;

/// Relies on `flate2::read::GzDecoder` read to its end: inflates one gzip
/// stream; the result depends on the compressed bytes alone.
#[verifier::external_body]
fn gunzip(data: &Vec<u8>) -> (r: Option<Vec<u8>>)
    ensures
        match r {
            Some(v) => gunzipped(data@) == Some(v@),
            None => gunzipped(data@) is None,
        },
{
    let mut decoder = flate2::read::GzDecoder::new(data.as_slice());
    let mut out: Vec<u8> = Vec::new();
    match decoder.read_to_end(&mut out) {
        Ok(_) => Some(out),
        Err(_) => None,
    }
}

/// Decodes a release payload: Base64 first, then gzip, reporting which
/// stage refused the bytes.
pub fn decode_decompress_data(data: &Vec<u8>) -> (r: Result<Vec<u8>, ReleaseError>)
    ensures
        match r {
            Ok(v) => base64_decoded(data@) matches Some(c) && gunzipped(c) == Some(v@),
            Err(e) => ((e == ReleaseError::BadBase64 && base64_decoded(data@) is None) || (e
                == ReleaseError::BadGzip && (base64_decoded(data@) matches Some(c) && gunzipped(c)
                is None))),
        },
{
    match base64_decode(data) {
        Some(compressed) => match gunzip(&compressed) {
            Some(v) => Ok(v),
            None => Err(ReleaseError::BadGzip),
        },
        None => Err(ReleaseError::BadBase64),
    }
}

/// The feature flags and chart version read from one release document,
/// with each possibly-absent path flattened to an optional value.
pub struct HelmRelease {
    /// The chart version at `chart.metadata.version`.
    pub chart_version: Version,
    /// `config.engines.replicated.mayastor.enabled`, when every step of the
    /// path is present.
    pub config_engines_replicated_mayastor: Option<bool>,
    /// `config.mayastor.enabled`, when present.
    pub config_mayastor: Option<bool>,
    /// `values.engines.replicated.mayastor.enabled`, when the engines
    /// section is present.
    pub values_engines_replicated_mayastor: Option<bool>,
    /// `values.mayastor.enabled`, when present.
    pub values_mayastor: Option<bool>,
}

/// The replicated-engine flag that a document's flags resolve to, in
/// priority order: explicit configuration over shipped defaults, newer
/// schema over older, absence meaning disabled.
pub open spec fn spec_mayastor_enabled(
    config_engines: Option<bool>,
    config_mayastor: Option<bool>,
    values_engines: Option<bool>,
    values_mayastor: Option<bool>,
) -> bool {
    match config_engines {
        Some(b) => b,
        None => match config_mayastor {
            Some(b) => b,
            None => match values_engines {
                Some(b) => b,
                None => match values_mayastor {
                    Some(b) => b,
                    None => false,
                },
            },
        },
    }
}

impl HelmRelease {
    /// True iff the replicated engine is enabled for this release, resolved
    /// through the documented priority order.
    pub fn mayastor_is_enabled(&self) -> (r: bool)
        ensures
            r == spec_mayastor_enabled(
                self.config_engines_replicated_mayastor,
                self.config_mayastor,
                self.values_engines_replicated_mayastor,
                self.values_mayastor,
            ),
    {
        match self.config_engines_replicated_mayastor {
            Some(b) => b,
            None => match self.config_mayastor {
                Some(b) => b,
                None => match self.values_engines_replicated_mayastor {
                    Some(b) => b,
                    None => match self.values_mayastor {
                        Some(b) => b,
                        None => false,
                    },
                },
            },
        }
    }

    /// The chart version of the release.
    pub fn version(&self) -> (r: &Version)
        ensures
            r == &self.chart_version,
    {
        &self.chart_version
    }
}

/// The part of a release document that names its chart.
pub struct HelmChartReleaseChartMetadata {
    pub name: String,
}

/// The chart section of a release document.
pub struct HelmChartReleaseChart {
    pub metadata: HelmChartReleaseChartMetadata,
}

/// A release document reduced to its chart name, which may be absent in a
/// malformed document.
pub struct HelmChartRelease {
    pub chart: Option<HelmChartReleaseChart>,
}

impl HelmChartRelease {
    /// The chart name, if the document carries one.
    pub open spec fn spec_chart_name(&self) -> Option<Seq<char>> {
        match self.chart {
            Some(c) => Some(c.metadata.name@),
            None => None,
        }
    }
}

/// One candidate from the release-storage scan: the release name from the
/// object's labels, and its decoded document.
pub struct ReleaseCandidate {
    pub release_name: String,
    pub release: HelmChartRelease,
}

/// How the scan over candidates ends, read left to right: the first
/// candidate without a chart section stops it, the second candidate naming
/// the platform chart stops it, and otherwise it keeps the single match.
pub open spec fn scan_releases(
    cs: Seq<(Seq<char>, Option<Seq<char>>)>,
    acc: Option<Seq<char>>,
) -> Result<Seq<char>, ReleaseError>
    decreases cs.len(),
{
    if cs.len() == 0 {
        match acc {
            Some(n) => Ok(n),
            None => Err(ReleaseError::NotFound),
        }
    } else {
        match cs.first().1 {
            None => Err(ReleaseError::MissingChart),
            Some(chart_name) => if chart_name == "openebs"@ {
                if acc is Some {
                    Err(ReleaseError::TooMany)
                } else {
                    scan_releases(cs.drop_first(), Some(cs.first().0))
                }
            } else {
                scan_releases(cs.drop_first(), acc)
            },
        }
    }
}

/// The view of a candidate list that the scan is specified over.
pub open spec fn candidates_view(cs: Seq<ReleaseCandidate>) -> Seq<(Seq<char>, Option<Seq<char>>)> {
    cs.map_values(|c: ReleaseCandidate| (c.release_name@, c.release.spec_chart_name()))
}

/// Picks the name of the single release of the platform chart out of the
/// decoded release-storage candidates, scanning left to right as
/// [`scan_releases`] describes.
pub fn select_openebs_release(candidates: Vec<ReleaseCandidate>) -> (r: Result<
    String,
    ReleaseError,
>)
    ensures
        match r {
            Ok(n) => scan_releases(candidates_view(candidates@), None) == Result::<
                Seq<char>,
                ReleaseError,
            >::Ok(n@),
            Err(e) => scan_releases(candidates_view(candidates@), None) == Result::<
                Seq<char>,
                ReleaseError,
            >::Err(e),
        },
{
    let ghost cs = candidates_view(candidates@);
    let mut found: Option<String> = None;
    let mut i: usize = 0;
    proof {
        assert(cs.skip(0) =~= cs);
    }
    while i < candidates.len()
        invariant
            i <= candidates.len(),
            cs == candidates_view(candidates@),
            cs.len() == candidates@.len(),
            scan_releases(cs, None) == scan_releases(
                cs.skip(i as int),
                match found {
                    Some(ref n) => Some(n@),
                    None => None,
                },
            ),
        decreases candidates.len() - i,
    {
        let ghost rest = cs.skip(i as int);
        proof {
            assert(rest.len() == cs.len() - i);
            assert(rest.first() == cs[i as int]);
            assert(rest.drop_first() =~= cs.skip(i + 1));
        }
        match &candidates[i].release.chart {
            None => {
                return Err(ReleaseError::MissingChart);
            },
            Some(chart) => {
                if crate::text::str_eq(chart.metadata.name.as_str(), "openebs") {
                    if found.is_some() {
                        return Err(ReleaseError::TooMany);
                    }
                    found = Some(clone_string(&candidates[i].release_name));
                } else {
                }
            },
        }
        i = i + 1;
    }
    proof {
        assert(cs.skip(i as int).len() == 0);
    }
    match found {
        Some(n) => Ok(n),
        None => Err(ReleaseError::NotFound),
    }
}

/// The label selector that finds deployed release secrets for one release.
pub fn release_secret_selector(release_name: &str) -> (r: String)
    ensures
        r@ == "status=deployed,name="@ + release_name@,
{
    let mut out = String::from_str("status=deployed,name=");
    out.append(release_name);
    out
}

/// The label selector that finds deployed release config maps for one
/// release.
pub fn release_configmap_selector(release_name: &str) -> (r: String)
    ensures
        r@ == "owner=helm,status=deployed,name="@ + release_name@,
{
    let mut out = String::from_str("owner=helm,status=deployed,name=");
    out.append(release_name);
    out
}

/// Decodes the payload of the single storage object of a release: no
/// matching object or more than one is refused by name, and the one
/// payload is Base64- and gzip-decoded.
pub fn helm_release_data(mut payloads: Vec<Vec<u8>>) -> (r: Result<Vec<u8>, ReleaseError>)
    ensures
        payloads@.len() == 0 ==> r == Result::<Vec<u8>, ReleaseError>::Err(
            ReleaseError::NotFound,
        ),
        payloads@.len() > 1 ==> r == Result::<Vec<u8>, ReleaseError>::Err(ReleaseError::TooMany),
        payloads@.len() == 1 ==> match r {
            Ok(v) => base64_decoded(payloads@[0]@) matches Some(c) && gunzipped(c) == Some(v@),
            Err(e) => ((e == ReleaseError::BadBase64 && base64_decoded(payloads@[0]@) is None)
                || (e == ReleaseError::BadGzip && (base64_decoded(payloads@[0]@) matches Some(c)
                && gunzipped(c) is None))),
        },
{
    if payloads.len() == 0 {
        return Err(ReleaseError::NotFound);
    }
    if payloads.len() > 1 {
        return Err(ReleaseError::TooMany);
    }
    let payload = match payloads.pop() {
        Some(p) => p,
        None => {
            return Err(ReleaseError::NotFound);
        },
    };
    decode_decompress_data(&payload)
}

/// A copy of a string with the same characters.
pub fn clone_string(s: &String) -> (r: String)
    ensures
        r@ == s@,
{
    let mut out = String::new();
    out.append(s.as_str());
    out
}

} // verus!
