use openebs_upgrade::constants::{
    get_destination_version_tag, replace_dots, upgrade_obj_suffix, upgrade_obj_suffix_for,
};
use openebs_upgrade::image::{
    registry_from_image, select_registry, ContainerInfo, ImageProperties, PodInfo,
};
use openebs_upgrade::resources::{
    config_map_data, job_set_file_args, upgrade_events_selector, upgrade_image,
    upgrade_job_args, upgrade_labels, upgrade_name_concat, BundleNames, ResourceError,
};

fn strings(xs: &[&str]) -> Vec<String> {
    xs.iter().map(|s| s.to_string()).collect()
}

#[test]
fn destination_tag_defaults_to_develop() {
    assert_eq!(get_destination_version_tag(), "develop");
    assert_eq!(upgrade_obj_suffix(), "develop");
}

#[test]
fn suffix_writes_dots_as_dashes() {
    assert_eq!(upgrade_obj_suffix_for("2.7.0"), "2-7-0");
    assert_eq!(upgrade_obj_suffix_for("2.7.0-rc.3"), "2-7-0-rc-3");
    assert_eq!(replace_dots("a.b.c"), "a-b-c");
    assert_eq!(replace_dots("nodots"), "nodots");
}

#[test]
fn name_concat_follows_the_naming_rule() {
    assert_eq!(upgrade_name_concat("rel", "upgrade"), "rel-upgrade-develop");
}

#[test]
fn bundle_names_are_deterministic() {
    let names = BundleNames::derive("rel", "2-7-0");
    assert_eq!(names.service_account, "rel-upgrade-service-account-2-7-0");
    assert_eq!(names.cluster_role, "rel-upgrade-role-2-7-0");
    assert_eq!(names.cluster_role_binding, "rel-upgrade-role-binding-2-7-0");
    assert_eq!(names.config_map, "rel-upgrade-config-map-2-7-0");
    assert_eq!(names.job, "rel-upgrade-2-7-0");

    let again = BundleNames::derive("rel", "2-7-0");
    assert_eq!(names.job, again.job);
}

#[test]
fn event_selector_is_tied_to_the_job_name() {
    assert_eq!(
        upgrade_events_selector("rel", "2-7-0"),
        "regarding.kind=Job,regarding.name=rel-upgrade-2-7-0"
    );
}

#[test]
fn labels_carry_app_and_logging() {
    let labels = upgrade_labels();
    assert_eq!(labels.len(), 2);
    assert_eq!(labels[0], ("app".to_string(), "upgrade".to_string()));
    assert_eq!(
        labels[1],
        ("openebs.io/logging".to_string(), "true".to_string())
    );
}

#[test]
fn config_map_keys_count_from_one() {
    let args = strings(&["jaeger.tolerations=/root/tolerations.yaml", "a=/tmp/b.yaml"]);
    let contents = strings(&["toleration-text", "b-text"]);
    let (data, mapping) = config_map_data(&args, &contents).expect("args should split");
    assert_eq!(data.len(), 2);
    assert_eq!(data[0], ("1".to_string(), "toleration-text".to_string()));
    assert_eq!(data[1], ("2".to_string(), "b-text".to_string()));
    assert_eq!(
        mapping[0],
        ("/root/tolerations.yaml".to_string(), "1".to_string())
    );
    assert_eq!(mapping[1], ("/tmp/b.yaml".to_string(), "2".to_string()));
}

#[test]
fn config_map_refuses_malformed_set_file_arguments() {
    let args = strings(&["no-equals-sign"]);
    let contents = strings(&["text"]);
    let r = config_map_data(&args, &contents);
    assert!(matches!(r, Err(ResourceError::InvalidSetFileArg)));

    let args = strings(&["a=b=c"]);
    let r = config_map_data(&args, &contents);
    assert!(matches!(r, Err(ResourceError::InvalidSetFileArg)));
}

#[test]
fn set_file_args_translate_paths_to_map_keys() {
    let args = strings(&["jaeger.tolerations=/root/tolerations.yaml", "a=/tmp/b.yaml"]);
    let mapping = vec![
        ("/root/tolerations.yaml".to_string(), "1".to_string()),
        ("/tmp/b.yaml".to_string(), "2".to_string()),
    ];
    let r = job_set_file_args(&args, Some(&mapping)).expect("translation should succeed");
    assert_eq!(
        r.unwrap(),
        "jaeger.tolerations=/upgrade-config-map/1,a=/upgrade-config-map/2"
    );
}

#[test]
fn no_set_file_arguments_translate_to_nothing() {
    let r = job_set_file_args(&Vec::new(), None).expect("empty input is fine");
    assert!(r.is_none());
}

#[test]
fn set_file_translation_needs_a_mapped_path() {
    let args = strings(&["a=/tmp/b.yaml"]);
    let r = job_set_file_args(&args, None);
    assert!(matches!(r, Err(ResourceError::SetFileKeyMissing)));

    let mapping = vec![("/other".to_string(), "1".to_string())];
    let r = job_set_file_args(&args, Some(&mapping));
    assert!(matches!(r, Err(ResourceError::SetFileKeyMissing)));
}

#[test]
fn job_image_reference() {
    assert_eq!(
        upgrade_image("docker.io", "2.7.0"),
        "docker.io/openebs/openebs-upgrade-job:2.7.0"
    );
}

#[test]
fn job_args_encode_the_request() {
    let set = strings(&["a=1", "b=2"]);
    let args = upgrade_job_args("storage", "rel", &set, "k=/upgrade-config-map/1", false, false);
    assert_eq!(
        args,
        strings(&[
            "--rest-endpoint=http://rel-api-rest:8081",
            "--namespace=storage",
            "--release-name=rel",
            "--helm-args-set=a=1,b=2",
            "--helm-args-set-file=k=/upgrade-config-map/1",
        ])
    );
}

#[test]
fn job_args_append_skip_flags_in_order() {
    let args = upgrade_job_args("ns", "rel", &Vec::new(), "", true, true);
    assert_eq!(args[args.len() - 2], "--skip-data-plane-restart");
    assert_eq!(args[args.len() - 1], "--skip-upgrade-path-validation");
}

#[test]
fn registry_needs_exactly_three_image_segments() {
    assert_eq!(
        registry_from_image("my.registry.io/org/image:tag"),
        Some("my.registry.io".to_string())
    );
    assert!(registry_from_image("org/image:tag").is_none());
    assert!(registry_from_image("a/b/c/d").is_none());
    assert!(registry_from_image("image").is_none());
}

#[test]
fn explicit_registry_override_always_wins() {
    let ovr = "private.example".to_string();
    let image = "my.registry.io/org/image:tag".to_string();
    assert_eq!(select_registry(Some(&ovr), Some(&image)), "private.example");
    assert_eq!(select_registry(None, Some(&image)), "my.registry.io");
    assert_eq!(
        select_registry(None, Some(&"org/image".to_string())),
        "docker.io"
    );
    assert_eq!(select_registry(None, None), "docker.io");
}

fn pod(containers: &[(&str, Option<&str>)], secrets: Option<&[&str]>) -> PodInfo {
    PodInfo {
        containers: containers
            .iter()
            .map(|(name, image)| ContainerInfo {
                name: name.to_string(),
                image: image.map(|s| s.to_string()),
                image_pull_policy: Some("IfNotPresent".to_string()),
            })
            .collect(),
        image_pull_secrets: secrets.map(|xs| strings(xs)),
    }
}

#[test]
fn image_properties_come_from_the_first_known_container() {
    let pods = vec![
        pod(&[("istio-proxy", Some("istio/proxy"))], None),
        pod(
            &[
                ("csi-provisioner", Some("sig-storage/csi-provisioner")),
                ("api-rest", Some("my.reg/openebs/api-rest:2.7.0")),
            ],
            Some(&["pull-secret"]),
        ),
    ];
    let props = ImageProperties::new_from_pod_listing("rel", None, &pods)
        .expect("a known container exists");
    assert_eq!(props.registry, "my.reg");
    assert_eq!(props.pull_policy, Some("IfNotPresent".to_string()));
    assert_eq!(props.pull_secrets, Some(strings(&["pull-secret"])));
}

#[test]
fn image_properties_recognise_the_release_scoped_hostpath_name() {
    let pods = vec![pod(&[("rel-localpv-provisioner", Some("a/b/c"))], None)];
    let props =
        ImageProperties::new_from_pod_listing("rel", None, &pods).expect("hostpath name matches");
    assert_eq!(props.registry, "a");
}

#[test]
fn image_properties_need_a_known_container() {
    let pods = vec![pod(&[("istio-proxy", None)], None)];
    let r = ImageProperties::new_from_pod_listing("rel", None, &pods);
    assert!(matches!(r, Err(ResourceError::NoKnownContainer)));
}
