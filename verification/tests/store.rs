use nodeapi::state::{HealthLevel, NodeStateStore, ServiceRecord, ServiceStatus};

fn record(id: &str, status: ServiceStatus) -> ServiceRecord {
    ServiceRecord {
        id: id.to_string(),
        name: format!("{} name", id),
        description: format!("{} description", id),
        status,
    }
}

#[test]
fn fresh_store_is_healthy_and_empty() {
    let store = NodeStateStore::new("NodeName".to_string(), "v0.0.1".to_string());
    assert_eq!(store.get_health(), HealthLevel::Healthy);
    assert!(store.find_service(&"anything".to_string()).is_none());
}

#[test]
fn set_health_then_get_returns_exactly_that_value() {
    let mut store = NodeStateStore::new("n".to_string(), "v".to_string());
    for level in [
        HealthLevel::Healthy,
        HealthLevel::PartiallyHealthy,
        HealthLevel::Unhealthy,
    ] {
        store.set_health(level);
        assert_eq!(store.get_health(), level);
    }
}

#[test]
fn get_identity_returns_construction_values() {
    let store = NodeStateStore::new("NodeName".to_string(), "1.2.3".to_string());
    let identity = store.get_identity();
    assert_eq!(identity.name, "NodeName");
    assert_eq!(identity.version, "1.2.3");
    assert_eq!(identity.spec_version, "v0.0.1");
}

#[test]
fn identity_is_invariant_across_mutations() {
    let mut store = NodeStateStore::new("NodeName".to_string(), "1.2.3".to_string());
    let before_name = store.get_identity().name.clone();
    let before_version = store.get_identity().version.clone();
    let before_spec = store.get_identity().spec_version.clone();

    store.set_health(HealthLevel::Unhealthy);
    store.upsert_service(record("svc1", ServiceStatus::Up));
    store.upsert_service(record("svc2", ServiceStatus::Down));
    store.remove_service(&"svc1".to_string());
    store.set_health(HealthLevel::PartiallyHealthy);

    let identity = store.get_identity();
    assert_eq!(identity.name, before_name);
    assert_eq!(identity.version, before_version);
    assert_eq!(identity.spec_version, before_spec);
}

#[test]
fn health_is_always_one_of_the_three_levels() {
    let mut store = NodeStateStore::new("n".to_string(), "v".to_string());
    for level in [
        HealthLevel::Unhealthy,
        HealthLevel::Healthy,
        HealthLevel::PartiallyHealthy,
    ] {
        store.set_health(level);
        let observed = store.get_health();
        assert!(matches!(
            observed,
            HealthLevel::Healthy | HealthLevel::PartiallyHealthy | HealthLevel::Unhealthy
        ));
    }
}

#[test]
fn find_service_matches_exactly_and_case_sensitively() {
    let mut store = NodeStateStore::new("n".to_string(), "v".to_string());
    store.upsert_service(record("svc1", ServiceStatus::Up));
    let found = store.find_service(&"svc1".to_string());
    assert!(found.is_some());
    assert_eq!(found.unwrap().id, "svc1");
    assert!(store.find_service(&"SVC1".to_string()).is_none());
    assert!(store.find_service(&"svc".to_string()).is_none());
    assert!(store.find_service(&"svc11".to_string()).is_none());
}

#[test]
fn empty_id_is_a_legal_lookup_key() {
    let mut store = NodeStateStore::new("n".to_string(), "v".to_string());
    assert!(store.find_service(&String::new()).is_none());
    store.upsert_service(record("", ServiceStatus::Up));
    let found = store.find_service(&String::new());
    assert!(found.is_some());
    assert_eq!(found.unwrap().status, ServiceStatus::Up);
}

#[test]
fn upsert_with_duplicate_id_replaces_in_place() {
    let mut store = NodeStateStore::new("n".to_string(), "v".to_string());
    store.upsert_service(record("svc1", ServiceStatus::Up));
    store.upsert_service(record("svc2", ServiceStatus::Up));
    store.upsert_service(record("svc1", ServiceStatus::Down));

    let first = store.find_service(&"svc1".to_string()).unwrap();
    assert_eq!(first.status, ServiceStatus::Down);
    let second = store.find_service(&"svc2".to_string()).unwrap();
    assert_eq!(second.status, ServiceStatus::Up);
}

#[test]
fn remove_service_deletes_only_the_named_record() {
    let mut store = NodeStateStore::new("n".to_string(), "v".to_string());
    store.upsert_service(record("svc1", ServiceStatus::Up));
    store.upsert_service(record("svc2", ServiceStatus::Initializing));

    store.remove_service(&"svc1".to_string());
    assert!(store.find_service(&"svc1".to_string()).is_none());
    assert!(store.find_service(&"svc2".to_string()).is_some());

    store.remove_service(&"absent".to_string());
    assert!(store.find_service(&"svc2".to_string()).is_some());
}
