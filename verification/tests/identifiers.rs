use api::uuid_as_base64::id_from_decoded;
use api::cache::{deployed_bundle_key, deployed_node_key, node_key};
use api::deploy::archive_key;
use api::uuid_as_base64::{deserialize, serialize};

const ID: [u8; 16] = [
    0x67, 0xe5, 0x50, 0x44, 0x10, 0xb1, 0x42, 0x6f, 0x92, 0x47, 0xbb, 0x68, 0x0e, 0x5f, 0xe0, 0xc8,
];

#[test]
fn node_key_is_prefix_colon_hyphenated_id() {
    assert_eq!(node_key(ID), "node:67e55044-10b1-426f-9247-bb680e5fe0c8");
}

#[test]
fn deployment_keys_use_their_prefixes() {
    assert_eq!(deployed_bundle_key(ID), "bundle_deployment:67e55044-10b1-426f-9247-bb680e5fe0c8");
    assert_eq!(deployed_node_key([0u8; 16]), "node_deployment:00000000-0000-0000-0000-000000000000");
}

#[test]
fn node_key_matches_uuid_display() {
    let id = uuid::Uuid::from_bytes([0xff; 16]);
    assert_eq!(node_key(*id.as_bytes()), format!("node:{}", id));
}

#[test]
fn archive_key_is_id_with_zip_extension() {
    assert_eq!(archive_key(ID), "67e55044-10b1-426f-9247-bb680e5fe0c8.zip");
}

#[test]
fn serialize_writes_padded_base64url() {
    assert_eq!(serialize(&[0u8; 16]), "AAAAAAAAAAAAAAAAAAAAAA==");
    assert_eq!(serialize(&[0xff; 16]), "_____________________w==");
    assert_eq!(serialize(&ID), "Z-VQRBCxQm-SR7toDl_gyA==");
}

#[test]
fn deserialize_reads_back_what_serialize_writes() {
    for id in [[0u8; 16], [0xff; 16], ID] {
        assert_eq!(deserialize(&serialize(&id)), Ok(id));
    }
}

#[test]
fn deserialize_refuses_wrong_length() {
    // base64url of fifteen zero bytes
    assert_eq!(
        deserialize("AAAAAAAAAAAAAAAAAAAA"),
        Err("invalid length: expected 16 bytes, found 15".to_string())
    );
}

#[test]
fn deserialize_refuses_non_base64() {
    let err = deserialize("not base64!").unwrap_err();
    assert!(!err.is_empty());
    assert!(deserialize("AAAAAAAAAAAAAAAAAAAAAA").is_err());
}

#[test]
fn id_from_decoded_bytes() {
    assert_eq!(id_from_decoded(Ok(ID.to_vec())), Ok(ID));
    assert_eq!(
        id_from_decoded(Ok(vec![0; 17])),
        Err("invalid length: expected 16 bytes, found 17".to_string())
    );
    assert_eq!(id_from_decoded(Err("bad symbol".into())), Err("bad symbol".to_string()));
}
