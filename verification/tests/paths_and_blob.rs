use backend::blob::layer_exists;
use backend::layer::{layer_matches, Layer};
use backend::paths::{layer_path, scratch_path};

fn sample_layer() -> Layer {
    Layer {
        name: "alpine".to_string(),
        repo: "library".to_string(),
        digest: "sha256:abc123".to_string(),
    }
}

#[test]
fn layer_path_joins_root_and_triple() {
    let p = layer_path("data", &sample_layer());
    assert_eq!(p, "data/layers/alpine/library/sha256:abc123");
}

#[test]
fn layer_path_follows_the_given_root() {
    let p = layer_path("/srv/registry", &sample_layer());
    assert_eq!(p, "/srv/registry/layers/alpine/library/sha256:abc123");
}

#[test]
fn scratch_path_is_keyed_by_token_alone() {
    let p = scratch_path("data", "0c3c21d0-7d18-4e33-b9e4-5f3e1d62c33a");
    assert_eq!(p, "data/scratch/0c3c21d0-7d18-4e33-b9e4-5f3e1d62c33a");
}

#[test]
fn layer_exists_reports_exact_length() {
    let r = layer_exists(Some(1048576));
    assert!(r.success);
    assert_eq!(r.length, 1048576);
}

#[test]
fn layer_exists_collapses_failure_to_miss() {
    let r = layer_exists(None);
    assert!(!r.success);
    assert_eq!(r.length, 0);
}

#[test]
fn layer_matches_compares_all_three_fields() {
    let a = sample_layer();
    let mut b = sample_layer();
    assert!(layer_matches(&a, &b));
    b.digest = "sha256:other".to_string();
    assert!(!layer_matches(&a, &b));
}
