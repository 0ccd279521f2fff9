use operator_config::{K8sType, K8sTypeRef};
use std::collections::HashMap;

#[test]
fn new_stores_fields_verbatim() {
    let deployment = K8sType::new("apps", "v1", "Deployment", "deployments");
    assert_eq!(deployment.group, "apps");
    assert_eq!(deployment.version, "v1");
    assert_eq!(deployment.kind, "Deployment");
    assert_eq!(deployment.plural_kind, "deployments");
}

#[test]
fn new_does_not_validate() {
    let odd = K8sType::new("", "", "", "");
    assert_eq!(odd.group, "");
    assert_eq!(odd.version, "");
    assert_eq!(odd.kind, "");
    assert_eq!(odd.plural_kind, "");
    assert_eq!(odd.format_api_version(), "");
    assert_eq!(odd.to_string(), "/");
}

#[test]
fn api_version_of_core_group_is_version() {
    let pod = K8sType::new("", "v1", "Pod", "pods");
    assert_eq!(pod.format_api_version(), "v1");
}

#[test]
fn api_version_of_named_group_is_group_slash_version() {
    let deployment = K8sType::new("apps", "v1", "Deployment", "deployments");
    assert_eq!(deployment.format_api_version(), "apps/v1");
    let custom = K8sType::new("example.com", "v1alpha1", "Widget", "widgets");
    assert_eq!(custom.format_api_version(), "example.com/v1alpha1");
}

#[test]
fn display_form_of_core_group() {
    assert_eq!(K8sType::pod().to_string(), "v1/pods");
    assert_eq!(K8sType::service().to_string(), "v1/services");
}

#[test]
fn display_form_of_named_group() {
    let custom = K8sType::new("example.com", "v1alpha1", "Widget", "widgets");
    assert_eq!(custom.to_string(), "example.com/v1alpha1/widgets");
}

#[test]
fn display_form_is_api_version_slash_plural() {
    let types = vec![
        K8sType::pod(),
        K8sType::service(),
        K8sType::new("apps", "v1", "Deployment", "deployments"),
        K8sType::new("batch", "v1beta1", "CronJob", "cronjobs"),
        K8sType::new("a/b", "v/1", "Odd", "odd/s"),
    ];
    for k8s_type in types {
        let expected = format!("{}/{}", k8s_type.format_api_version(), k8s_type.plural_kind);
        assert_eq!(k8s_type.to_string(), expected);
    }
}

#[test]
fn pod_has_builtin_values() {
    let pod = K8sType::pod();
    assert_eq!(
        (pod.group.as_str(), pod.version.as_str(), pod.kind.as_str(), pod.plural_kind.as_str()),
        ("", "v1", "Pod", "pods")
    );
    assert_eq!(pod, K8sType::new("", "v1", "Pod", "pods"));
}

#[test]
fn service_has_builtin_values() {
    let service = K8sType::service();
    assert_eq!(
        (
            service.group.as_str(),
            service.version.as_str(),
            service.kind.as_str(),
            service.plural_kind.as_str()
        ),
        ("", "v1", "Service", "services")
    );
    assert_eq!(service, K8sType::new("", "v1", "Service", "services"));
}

#[test]
fn type_ref_holds_api_version_and_kind() {
    let pod_ref = K8sType::pod().to_type_ref();
    assert_eq!(pod_ref.api_version, "v1");
    assert_eq!(pod_ref.kind, "Pod");
    let deployment_ref = K8sType::new("apps", "v1", "Deployment", "deployments").to_type_ref();
    assert_eq!(deployment_ref, K8sTypeRef::new("apps/v1".to_owned(), "Deployment".to_owned()));
    assert_ne!(deployment_ref, pod_ref);
    assert_eq!(deployment_ref.clone(), deployment_ref);
}

#[test]
fn equality_is_over_all_four_fields() {
    let base = K8sType::new("g", "v", "K", "ks");
    assert_eq!(base, K8sType::new("g", "v", "K", "ks"));
    assert_ne!(base, K8sType::new("h", "v", "K", "ks"));
    assert_ne!(base, K8sType::new("g", "w", "K", "ks"));
    assert_ne!(base, K8sType::new("g", "v", "L", "ks"));
    assert_ne!(base, K8sType::new("g", "v", "K", "ls"));
    assert_eq!(base.clone(), base);
}

#[test]
fn equal_types_are_one_hash_map_key() {
    let mut seen: HashMap<K8sType, u32> = HashMap::new();
    seen.insert(K8sType::pod(), 1);
    seen.insert(K8sType::new("", "v1", "Pod", "pods"), 2);
    seen.insert(K8sType::service(), 3);
    assert_eq!(seen.len(), 2);
    assert_eq!(seen.get(&K8sType::pod()), Some(&2));
}
