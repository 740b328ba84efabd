use backend::layer::Layer;
use backend::registry::BackendService;

#[test]
fn create_then_exists() {
    let mut s = BackendService::new();
    let r = s.gen_uuid("alpine", "library");
    assert!(s.uuid_exists("alpine", "library", &r.uuid).success);
}

#[test]
fn untouched_triple_is_absent() {
    let s = BackendService::new();
    assert!(!s.uuid_exists("alpine", "library", "sha256:0000").success);
    assert!(!s.uuid_exists("", "", "").success);
}

#[test]
fn cancel_existing_session() {
    let mut s = BackendService::new();
    let r = s.gen_uuid("alpine", "library");
    assert!(s.cancel_upload("alpine", "library", &r.uuid).success);
    assert!(!s.uuid_exists("alpine", "library", &r.uuid).success);
}

#[test]
fn cancel_missing_session_returns_false() {
    let mut s = BackendService::new();
    assert!(!s.cancel_upload("alpine", "library", "no-such-token").success);
}

#[test]
fn delete_removes_registry_entry_only_once() {
    let mut s = BackendService::new();
    let r = s.gen_uuid("alpine", "library");
    assert!(s.delete_uuid("alpine", "library", &r.uuid).success);
    assert!(!s.uuid_exists("alpine", "library", &r.uuid).success);
    assert!(!s.delete_uuid("alpine", "library", &r.uuid).success);
}

#[test]
fn scenario_alpine_upload_lifecycle() {
    let mut s = BackendService::new();
    let u = s.gen_uuid("alpine", "library").uuid;
    assert!(s.uuid_exists("alpine", "library", &u).success);
    assert!(s.cancel_upload("alpine", "library", &u).success);
    assert!(!s.uuid_exists("alpine", "library", &u).success);
}

#[test]
fn repeated_creates_do_not_collide() {
    let mut s = BackendService::new();
    let a = s.gen_uuid("alpine", "library").uuid;
    let b = s.gen_uuid("alpine", "library").uuid;
    assert_ne!(a, b);
    assert!(s.uuid_exists("alpine", "library", &a).success);
    assert!(s.uuid_exists("alpine", "library", &b).success);
}

#[test]
fn sessions_are_independent_per_triple() {
    let mut s = BackendService::new();
    let a = s.gen_uuid("alpine", "library").uuid;
    let b = s.gen_uuid("debian", "library").uuid;
    assert!(s.delete_uuid("alpine", "library", &a).success);
    assert!(s.uuid_exists("debian", "library", &b).success);
    assert!(!s.uuid_exists("alpine", "library", &a).success);
}

#[test]
fn register_session_reports_freshness() {
    let mut s = BackendService::new();
    let layer = Layer {
        name: "alpine".to_string(),
        repo: "library".to_string(),
        digest: "tok-1".to_string(),
    };
    assert!(s.register_session(layer.clone()));
    assert!(!s.register_session(layer));
    assert_eq!(s.get_uuids().uuids.len(), 1);
}

#[test]
fn get_uuids_snapshot_matches_sessions() {
    let mut s = BackendService::new();
    let a = s.gen_uuid("alpine", "library").uuid;
    let b = s.gen_uuid("debian", "library").uuid;
    let list = s.get_uuids();
    assert_eq!(list.uuids.len(), 2);
    assert!(list.uuids.contains(&a));
    assert!(list.uuids.contains(&b));
    assert!(s.delete_uuid("alpine", "library", &a).success);
    let list = s.get_uuids();
    assert_eq!(list.uuids, vec![b]);
}

#[test]
fn listing_has_one_entry_per_session() {
    let mut s = BackendService::new();
    assert!(s.register_session(Layer {
        name: "alpine".to_string(),
        repo: "library".to_string(),
        digest: "tok".to_string(),
    }));
    assert!(s.register_session(Layer {
        name: "debian".to_string(),
        repo: "library".to_string(),
        digest: "tok".to_string(),
    }));
    let list = s.get_uuids();
    assert_eq!(list.uuids, vec!["tok".to_string(), "tok".to_string()]);
}

#[test]
fn get_uuids_on_fresh_service_is_empty() {
    let s = BackendService::new();
    assert!(s.get_uuids().uuids.is_empty());
}

#[test]
fn upload_manifest_always_fails() {
    let s = BackendService::new();
    assert!(!s.upload_manifest(b"manifest payload").success);
    assert!(!s.upload_manifest(b"").success);
}
