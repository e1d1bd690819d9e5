use base64::Engine;
use flate2::write::GzEncoder;
use flate2::Compression;
use openebs_upgrade::release::{
    decode_decompress_data, helm_release_data, parse_storage_driver, select_openebs_release,
    HelmChartRelease, HelmChartReleaseChart, HelmChartReleaseChartMetadata, HelmRelease,
    ReleaseCandidate, ReleaseError, StorageDriver,
};
use openebs_upgrade::version::Version;
use std::io::Write;

fn encode_release_payload(plain: &[u8]) -> Vec<u8> {
    let mut gz = GzEncoder::new(Vec::new(), Compression::default());
    gz.write_all(plain).unwrap();
    let compressed = gz.finish().unwrap();
    base64::engine::general_purpose::STANDARD
        .encode(compressed)
        .into_bytes()
}

#[test]
fn storage_driver_names() {
    assert!(matches!(parse_storage_driver(""), Ok(StorageDriver::Secret)));
    assert!(matches!(parse_storage_driver("secret"), Ok(StorageDriver::Secret)));
    assert!(matches!(parse_storage_driver("secrets"), Ok(StorageDriver::Secret)));
    assert!(matches!(parse_storage_driver("configmap"), Ok(StorageDriver::Configmap)));
    assert!(matches!(parse_storage_driver("configmaps"), Ok(StorageDriver::Configmap)));
    assert!(matches!(
        parse_storage_driver("memory"),
        Err(ReleaseError::UnsupportedDriver)
    ));
}

#[test]
fn payload_round_trips_through_decode() {
    let plain = br#"{"chart":{"metadata":{"name":"openebs"}}}"#;
    let payload = encode_release_payload(plain);
    let out = decode_decompress_data(&payload).expect("payload should decode");
    assert_eq!(out, plain.to_vec());
}

#[test]
fn bad_base64_is_named() {
    let r = decode_decompress_data(&b"!!!not-base64!!!".to_vec());
    assert!(matches!(r, Err(ReleaseError::BadBase64)));
}

#[test]
fn bad_gzip_is_named() {
    let payload = base64::engine::general_purpose::STANDARD
        .encode(b"plain text, no gzip stream")
        .into_bytes();
    let r = decode_decompress_data(&payload);
    assert!(matches!(r, Err(ReleaseError::BadGzip)));
}

#[test]
fn release_data_needs_exactly_one_object() {
    let payload = encode_release_payload(b"data");

    let r = helm_release_data(Vec::new());
    assert!(matches!(r, Err(ReleaseError::NotFound)));

    let r = helm_release_data(vec![payload.clone(), payload.clone()]);
    assert!(matches!(r, Err(ReleaseError::TooMany)));

    let out = helm_release_data(vec![payload]).expect("single payload should decode");
    assert_eq!(out, b"data".to_vec());
}

fn flag_release(
    config_engines: Option<bool>,
    config_mayastor: Option<bool>,
    values_engines: Option<bool>,
    values_mayastor: Option<bool>,
) -> HelmRelease {
    HelmRelease {
        chart_version: Version::new(2, 7, 0),
        config_engines_replicated_mayastor: config_engines,
        config_mayastor,
        values_engines_replicated_mayastor: values_engines,
        values_mayastor,
    }
}

#[test]
fn replicated_engine_flag_resolves_in_priority_order() {
    // Explicit configuration wins over everything.
    assert!(!flag_release(Some(false), Some(true), Some(true), Some(true)).mayastor_is_enabled());
    assert!(flag_release(Some(true), Some(false), Some(false), Some(false)).mayastor_is_enabled());
    // The older configuration schema comes second.
    assert!(flag_release(None, Some(true), Some(false), Some(false)).mayastor_is_enabled());
    // Shipped defaults come third.
    assert!(flag_release(None, None, Some(true), Some(false)).mayastor_is_enabled());
    // The oldest schema comes last.
    assert!(flag_release(None, None, None, Some(true)).mayastor_is_enabled());
    // Full absence means disabled.
    assert!(!flag_release(None, None, None, None).mayastor_is_enabled());
}

#[test]
fn version_getter_returns_the_chart_version() {
    let release = flag_release(None, None, None, None);
    assert_eq!(release.version().major, 2);
    assert_eq!(release.version().minor, 7);
}

fn candidate(release_name: &str, chart_name: Option<&str>) -> ReleaseCandidate {
    ReleaseCandidate {
        release_name: release_name.to_string(),
        release: HelmChartRelease {
            chart: chart_name.map(|n| HelmChartReleaseChart {
                metadata: HelmChartReleaseChartMetadata { name: n.to_string() },
            }),
        },
    }
}

#[test]
fn release_name_scan_keeps_the_single_platform_chart() {
    let r = select_openebs_release(vec![
        candidate("other", Some("cert-manager")),
        candidate("my-openebs", Some("openebs")),
        candidate("loki", Some("loki")),
    ]);
    assert_eq!(r.unwrap(), "my-openebs");
}

#[test]
fn release_name_scan_refuses_zero_matches() {
    let r = select_openebs_release(vec![candidate("other", Some("cert-manager"))]);
    assert!(matches!(r, Err(ReleaseError::NotFound)));
}

#[test]
fn release_name_scan_refuses_two_matches() {
    let r = select_openebs_release(vec![
        candidate("a", Some("openebs")),
        candidate("b", Some("openebs")),
    ]);
    assert!(matches!(r, Err(ReleaseError::TooMany)));
}

#[test]
fn release_name_scan_refuses_a_chartless_document_first() {
    let r = select_openebs_release(vec![
        candidate("broken", None),
        candidate("my-openebs", Some("openebs")),
    ]);
    assert!(matches!(r, Err(ReleaseError::MissingChart)));
}
