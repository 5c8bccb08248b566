use cw_ho::identity::{NodeIdentity, NodePrivKey, NodePubkey};

const TEST_NS: &[u8] = b"node_id_namespace";

#[test]
fn generate_and_roundtrip() {
    let node = NodePrivKey::new();
    let bytes = node.clone().into_bytes();
    let restored = NodePrivKey::from_bytes(&bytes).expect("valid private key");
    assert_eq!(node.id().0.to_vec(), restored.id().0.to_vec());
}

#[test]
fn deterministic_seed() {
    let a = NodePrivKey::from_seed(42);
    let b = NodePrivKey::from_seed(42);

    let sig_a = a.sign(Some(TEST_NS), b"payload");
    let sig_b = b.sign(Some(TEST_NS), b"payload");
    assert_eq!(sig_a, sig_b);
}

#[test]
fn sign_and_verify() {
    let node = NodePrivKey::new();
    let msg = b"The quick brown fox jumps over the lazy dog";
    let sig = node.sign(Some(TEST_NS), msg);
    assert!(node.id().verify(Some(TEST_NS), msg, &sig));
}

#[test]
fn reject_wrong_message() {
    let node = NodePrivKey::new();
    let msg = b"correct";
    let bad = b"incorrect";
    let sig = node.sign(Some(TEST_NS), msg);
    assert!(!node.id().verify(Some(TEST_NS), bad, &sig));
}

#[test]
fn reject_wrong_namespace() {
    let node = NodePrivKey::new();
    let msg = b"hello";
    let sig = node.sign(Some(TEST_NS), msg);
    assert!(!node.id().verify(Some(b""), msg, &sig));
    assert!(!node.id().verify(Some(b"other"), msg, &sig));
    assert!(!node.id().verify(None, msg, &sig));
}

#[test]
fn empty_vs_none_namespace() {
    let node = NodePrivKey::new();
    let msg = b"same message";
    let sig = node.sign(Some(&[]), msg);
    assert!(node.id().verify(Some(&[]), msg, &sig));
    assert!(!node.id().verify(None, msg, &sig));
}

#[test]
fn mismatched_keys() {
    let a: NodePrivKey = NodePrivKey::new();
    let b: NodePrivKey = NodePrivKey::new();
    println!("b: {:#?}", b.id().0);

    let msg = b"shared payload";
    let sig = a.sign(Some(TEST_NS), msg);
    assert!(!b.id().verify(Some(TEST_NS), msg, &sig));
}

#[test]
fn public_key_serialisation() {
    let node = NodePrivKey::new();
    let binding = node.id();
    let pk_bytes = binding.0.to_vec();
    let reconstructed = NodePubkey::from_bytes(&pk_bytes).expect("valid pk");
    assert_eq!(node.id().0.to_vec(), reconstructed.0.to_vec());
}

#[test]
fn none_namespace_signs_and_verifies() {
    let node = NodePrivKey::from_seed(7);
    let sig = node.sign(None, b"m");
    assert!(node.id().verify(None, b"m", &sig));
    assert!(!node.id().verify(Some(&[]), b"m", &sig));
}

#[test]
fn private_key_hex_round_trip() {
    let node = NodePrivKey::from_seed(3);
    let bytes = node.clone().into_bytes();
    let hex: String = bytes.iter().map(|b| format!("{:02x}", b)).collect();
    let back = NodePrivKey::from_hex(&hex).expect("valid hex key");
    assert_eq!(back.id().0.to_vec(), node.id().0.to_vec());
    assert!(NodePrivKey::from_hex("abc").is_none());
    assert!(NodePrivKey::from_bytes(&[1u8; 31]).is_none());
}

#[test]
fn public_key_hex_form() {
    let node = NodePrivKey::from_seed(11);
    let pk = node.id();
    let hex = pk.to_hex();
    assert_eq!(hex.len(), 64);
    let expected: String = pk.to_bytes().iter().map(|b| format!("{:02x}", b)).collect();
    assert_eq!(hex, expected);
    let back = NodePubkey::from_hex(&hex).expect("valid pk hex");
    assert_eq!(back.0.to_vec(), pk.0.to_vec());
}

#[test]
fn identity_addresses_and_display() {
    let mut id = NodeIdentity::default();
    id.host = "10.0.0.2".to_string();
    id.p2p_port = 26969;
    id.api_port = 8080;
    id.node_type = "NODE_TYPE_EXECUTOR".to_string();
    assert_eq!(id.api_address(), "10.0.0.2:8080");
    assert_eq!(id.p2p_address().unwrap(), "10.0.0.2:26969");
    assert_eq!(id.p2p_identity(), "no_pubkey@10.0.0.2:26969");
    assert_eq!(id.display_id(), "NODE_TYPE_EXECUTOR-no_pubkey");
    id.public_key = Some(vec![0xde, 0xad, 0xbe, 0xef, 1, 2, 3, 4, 5, 6]);
    assert_eq!(id.display_id(), "NODE_TYPE_EXECUTOR-deadbeef01020304");
    assert_eq!(id.p2p_identity(), "deadbeef010203040506@10.0.0.2:26969");
}

#[test]
fn identity_bad_address_is_config_error() {
    let mut id = NodeIdentity::default();
    id.host = "127.0.0.1".to_string();
    id.p2p_port = 70000;
    assert!(matches!(id.p2p_address(), Err(cw_ho::error::CommonwareNetworkError::ConfigError(_))));
    id.p2p_port = 0;
    assert_eq!(id.p2p_address().unwrap(), "127.0.0.1:0");
    id.p2p_port = 80;
    for bad in ["", "not a host", "256.0.0.1", "01.2.3.4", "1.2.3", "1.2.3.4.5", "::1", "1..2.3",
        "[::1", "[1:2:3:4:5:6:7:8:9]", "[1::2::3]", "[12345::]", "[1:2:3:4:5:6:7:8::]", "[:1::]",
        "[fe80::1%]", "[fe80::1%4294967296]", "[1.2.3.4::]", "[::1.2.3]", "[1:2:3:4:5:6:7:1.2.3.4]",
        "[::1:2:3:4:5:6:7:8]", "[]", "[1:2:3:4:5:6:7]"] {
        id.host = bad.to_string();
        assert!(matches!(id.p2p_address(), Err(cw_ho::error::CommonwareNetworkError::ConfigError(_))), "{}", bad);
    }
    id.host = "0.10.255.9".to_string();
    assert_eq!(id.p2p_address().unwrap(), "0.10.255.9:80");
    for good in ["[::1]", "[::]", "[1:2:3:4:5:6:7:8]", "[::ffff:1.2.3.4]", "[fe80::1%2]",
        "[1:2:3:4:5:6:7::]", "[1::2:3:4:5:6:7]", "[ABCD::ef]", "[1:2:3:4:5:6:1.2.3.4]",
        "[::1:2:3:4:5:6:7]", "[fe80::1%4294967295]"] {
        id.host = good.to_string();
        assert_eq!(id.p2p_address().unwrap(), format!("{}:80", good));
    }
}

#[test]
fn identity_new_has_keys_and_defaults() {
    let id = NodeIdentity::new();
    assert_eq!(id.user, "ergors");
    assert_eq!(id.api_port, 8080);
    assert_eq!(id.p2p_port, 26969);
    assert_eq!(id.ssh_port, 22);
    assert_eq!(id.node_type, "NODE_TYPE_UNSPECIFIED");
    assert_eq!(id.host, "127.0.0.1");
    assert_eq!(id.public_key.as_ref().unwrap().len(), 32);
    assert_eq!(id.private_key.as_ref().unwrap().len(), 32);
    let key = id.signing_key().expect("key present");
    assert_eq!(key.id().0.to_vec(), id.public_key.clone().unwrap());
}
