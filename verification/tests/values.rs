use api::keys::key_material;
use api::health;
use api::keys::load_public_key;
use api::errors::StartError;
use api::storage::{aws_client_config, bucket_action, region_source, BucketAction, RegionSource};
use api::types::{AwsClientConfig, BundleKind, NodeKind};

#[test]
fn bundle_kind_names() {
    assert_eq!(BundleKind::Static.as_ref(), "static");
    assert_eq!(BundleKind::NodeJS.as_ref(), "nodejs");
    assert_eq!(BundleKind::try_from("static".to_string()), Ok(BundleKind::Static));
    assert_eq!(BundleKind::try_from("nodejs".to_string()), Ok(BundleKind::NodeJS));
    assert_eq!(BundleKind::try_from("NodeJS".to_string()), Err("invalid kind"));
    assert_eq!(BundleKind::try_from("".to_string()), Err("invalid kind"));
    for kind in [BundleKind::Static, BundleKind::NodeJS] {
        assert_eq!(BundleKind::from_str(kind.as_ref()), Some(kind));
    }
}

#[test]
fn node_kind_names() {
    assert_eq!(NodeKind::Mobile.name(), "Mobile");
    assert_eq!(NodeKind::Web.name(), "Web");
    assert_eq!(NodeKind::Dekstop.name(), "Dekstop");
}

#[test]
fn health_answer() {
    assert_eq!(health(), "Healthy");
}

#[test]
fn region_sources() {
    let custom = region_source(Some(AwsClientConfig {
        endpoint: Some("http://localhost:9000".into()),
        region: "minio".into(),
    }));
    match custom {
        RegionSource::Custom { region, endpoint } => {
            assert_eq!(region, "minio");
            assert_eq!(endpoint, "http://localhost:9000");
        }
        _ => panic!("expected a custom region"),
    }
    match region_source(Some(AwsClientConfig { endpoint: None, region: "eu-west-1".into() })) {
        RegionSource::Named(r) => assert_eq!(r, "eu-west-1"),
        _ => panic!("expected a named region"),
    }
    assert!(matches!(region_source(None), RegionSource::FromEnv));
}

#[test]
fn bucket_actions() {
    assert_eq!(bucket_action(true, true), BucketAction::UseExisting);
    assert_eq!(bucket_action(true, false), BucketAction::UseExisting);
    assert_eq!(bucket_action(false, true), BucketAction::Create);
    assert_eq!(bucket_action(false, false), BucketAction::WarnMissing);
}

const PUBLIC_KEY_BASE64: &str = "LS0tLS1CRUdJTiBQVUJMSUMgS0VZLS0tLS0KTUlHZk1BMEdDU3FHU0liM0RRRUJBUVVBQTRHTkFEQ0JpUUtCZ1FEMGkzOXhzNHU5RjVpRjBRcTdHMzdtZmFxSgpLa21qWlNENG1idDU0YVdXd2VpN1RMZzdzeGtBKzFhSXZJL1E2akhqbjUzRGx2bitjekFKY1RHVjA3VU42ZXFOCkZEcHF4YWtpUHJsL0JBb0NoZkVaMkhyQ01DaUE1eGx0Qnd2eTVBckpIQ1MrRU9RTWs2bUhNUGg4YUF4K2tOeFYKWXNzNEVGRW9MaS8zRjQ0QUZRSURBUUFCCi0tLS0tRU5EIFBVQkxJQyBLRVktLS0tLQo=";

#[test]
fn public_key_loading() {
    assert!(load_public_key(PUBLIC_KEY_BASE64).is_ok());
    match load_public_key("not base64 !") {
        Err(StartError::DecodeKey(m)) => assert!(!m.is_empty()),
        _ => panic!("expected a decode error"),
    }
    // base64 of "not a key"
    match load_public_key("bm90IGEga2V5") {
        Err(StartError::InvalidKey(m)) => assert!(!m.is_empty()),
        _ => panic!("expected an invalid key"),
    }
}

#[test]
fn key_material_passes_bytes_or_refuses() {
    assert_eq!(key_material(Ok(vec![1, 2])).ok(), Some(vec![1, 2]));
    match key_material(Err("Invalid symbol".into())) {
        Err(StartError::DecodeKey(m)) => assert_eq!(m, "Invalid symbol"),
        _ => panic!("expected a decode error"),
    }
}

#[test]
fn configuration_needs_a_region() {
    assert!(aws_client_config(Some("http://minio:9000".into()), None).is_none());
    assert!(aws_client_config(None, None).is_none());
    let c = aws_client_config(None, Some("eu-west-1".into())).unwrap();
    assert_eq!(c.region, "eu-west-1");
    assert!(c.endpoint.is_none());
    let c = aws_client_config(Some("http://minio:9000".into()), Some("minio".into())).unwrap();
    assert_eq!(c.endpoint.as_deref(), Some("http://minio:9000"));
}
