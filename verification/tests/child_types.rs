use operator_config::{ChildConfig, ChildTypes, K8sType, UpdateStrategy};

fn deployment() -> K8sType {
    K8sType::new("apps", "v1", "Deployment", "deployments")
}

#[test]
fn child_config_constructors_set_the_strategy() {
    assert_eq!(ChildConfig::recreate().update_strategy, UpdateStrategy::Recreate);
    assert_eq!(ChildConfig::replace().update_strategy, UpdateStrategy::Replace);
    assert_eq!(ChildConfig::on_delete().update_strategy, UpdateStrategy::OnDelete);
    assert_eq!(ChildConfig::new(UpdateStrategy::Replace), ChildConfig::replace());
    assert_eq!(ChildConfig::new(UpdateStrategy::Recreate), ChildConfig::recreate());
    assert_eq!(ChildConfig::new(UpdateStrategy::OnDelete), ChildConfig::on_delete());
    assert_ne!(ChildConfig::recreate(), ChildConfig::replace());
}

#[test]
fn new_collection_is_empty() {
    let child_types = ChildTypes::new();
    assert_eq!(child_types.len(), 0);
    assert!(child_types.is_empty());
    assert!(!child_types.contains_key(&K8sType::pod()));
    assert_eq!(child_types.get(&K8sType::pod()), None);
    assert!(child_types.keys().is_empty());
}

#[test]
fn insert_adds_a_fresh_key() {
    let mut child_types = ChildTypes::new();
    assert_eq!(child_types.insert(K8sType::pod(), ChildConfig::recreate()), None);
    assert_eq!(child_types.insert(K8sType::service(), ChildConfig::on_delete()), None);
    assert_eq!(child_types.len(), 2);
    assert!(!child_types.is_empty());
    assert!(child_types.contains_key(&K8sType::pod()));
    assert!(child_types.contains_key(&K8sType::service()));
    assert!(!child_types.contains_key(&deployment()));
    assert_eq!(child_types.get(&K8sType::pod()), Some(&ChildConfig::recreate()));
    assert_eq!(child_types.get(&K8sType::service()), Some(&ChildConfig::on_delete()));
    assert_eq!(child_types.get(&deployment()), None);
}

#[test]
fn insert_overwrites_and_returns_the_previous_policy() {
    let mut child_types = ChildTypes::new();
    child_types.insert(K8sType::pod(), ChildConfig::recreate());
    child_types.insert(K8sType::service(), ChildConfig::on_delete());
    let previous = child_types.insert(K8sType::new("", "v1", "Pod", "pods"), ChildConfig::replace());
    assert_eq!(previous, Some(ChildConfig::recreate()));
    assert_eq!(child_types.len(), 2);
    assert_eq!(child_types.get(&K8sType::pod()), Some(&ChildConfig::replace()));
    assert_eq!(child_types.get(&K8sType::service()), Some(&ChildConfig::on_delete()));
}

#[test]
fn keys_lists_each_child_type_once() {
    let mut child_types = ChildTypes::new();
    child_types.insert(K8sType::pod(), ChildConfig::recreate());
    child_types.insert(deployment(), ChildConfig::replace());
    child_types.insert(K8sType::pod(), ChildConfig::on_delete());
    let keys = child_types.keys();
    assert_eq!(keys.len(), 2);
    assert!(keys.contains(&K8sType::pod()));
    assert!(keys.contains(&deployment()));
}

#[test]
fn equality_ignores_insertion_order() {
    let mut one = ChildTypes::new();
    one.insert(K8sType::pod(), ChildConfig::recreate());
    one.insert(K8sType::service(), ChildConfig::replace());
    let mut other = ChildTypes::new();
    other.insert(K8sType::service(), ChildConfig::replace());
    other.insert(K8sType::pod(), ChildConfig::recreate());
    assert_eq!(one, other);
    assert_eq!(other, one);
}

#[test]
fn equality_sees_keys_and_policies() {
    let mut one = ChildTypes::new();
    one.insert(K8sType::pod(), ChildConfig::recreate());
    let mut other_policy = ChildTypes::new();
    other_policy.insert(K8sType::pod(), ChildConfig::replace());
    let mut other_key = ChildTypes::new();
    other_key.insert(K8sType::service(), ChildConfig::recreate());
    let mut larger = ChildTypes::new();
    larger.insert(K8sType::pod(), ChildConfig::recreate());
    larger.insert(K8sType::service(), ChildConfig::recreate());
    assert_ne!(one, other_policy);
    assert_ne!(one, other_key);
    assert_ne!(one, larger);
    assert_ne!(larger, one);
    assert_ne!(one, ChildTypes::new());
    assert_eq!(ChildTypes::new(), ChildTypes::new());
}

#[test]
fn clone_keeps_every_entry() {
    let mut child_types = ChildTypes::new();
    child_types.insert(K8sType::pod(), ChildConfig::recreate());
    child_types.insert(deployment(), ChildConfig::on_delete());
    let copy = child_types.clone();
    assert_eq!(copy, child_types);
    assert_eq!(copy.len(), 2);
    assert_eq!(copy.get(&deployment()), Some(&ChildConfig::on_delete()));
}
