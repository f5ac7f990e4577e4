use ddc_primitives::hash::{try_hex_from_string, MergeMMRHash, H256};
use ddc_primitives::node::{AccountId32, AccountId32Hex, NodePubKey, NodeType, StorageNodeMode, StorageNodeParams};
use ddc_primitives::cluster::{ClusterNodesStats, ClusterParams, ClusterProtocolParams, Perquintill};
use ddc_primitives::payout::{CustomerCharge, MMRProof, PayoutFingerprintParams, PayoutReceiptParams, PayoutState, ProviderReward};

use blake2::Digest;

fn counting_bytes() -> [u8; 32] {
    let mut bytes = [0u8; 32];
    for (i, b) in bytes.iter_mut().enumerate() {
        *b = i as u8;
    }
    bytes
}

const COUNTING_HEX: &str = "0x000102030405060708090a0b0c0d0e0f101112131415161718191a1b1c1d1e1f";

#[test]
fn node_type_code_is_one() {
    assert_eq!(u8::from(NodeType::Storage), 1);
    assert_eq!(NodeType::try_from(1u8), Ok(NodeType::Storage));
    assert_eq!(NodeType::try_from(0u8), Err(()));
    assert_eq!(NodeType::try_from(2u8), Err(()));
    assert_eq!(NodeType::try_from(255u8), Err(()));
}

#[test]
fn node_type_code_roundtrip() {
    let t = NodeType::Storage;
    assert_eq!(NodeType::try_from(u8::from(t)), Ok(t));
}

#[test]
fn node_pub_key_to_string() {
    let key = NodePubKey::StoragePubKey(AccountId32(counting_bytes()));
    assert_eq!(String::from(key), COUNTING_HEX);
}

#[test]
fn node_pub_key_high_bytes_to_string() {
    let key = NodePubKey::StoragePubKey(AccountId32([0xab; 32]));
    let expected = format!("0x{}", "ab".repeat(32));
    assert_eq!(String::from(key), expected);
}

#[test]
fn node_pub_key_from_string() {
    let key = NodePubKey::try_from(String::from(COUNTING_HEX)).unwrap();
    assert_eq!(key, NodePubKey::StoragePubKey(AccountId32(counting_bytes())));
}

#[test]
fn node_pub_key_from_upper_case_string() {
    let text = format!("0x{}", "AbCdEf01".repeat(8));
    let key = NodePubKey::try_from(text).unwrap();
    let mut expected = [0u8; 32];
    for i in 0..8 {
        expected[4 * i..4 * i + 4].copy_from_slice(&[0xab, 0xcd, 0xef, 0x01]);
    }
    assert_eq!(key, NodePubKey::StoragePubKey(AccountId32(expected)));
}

#[test]
fn node_pub_key_string_roundtrip() {
    let key = NodePubKey::StoragePubKey(AccountId32([0x5a; 32]));
    let text = String::from(key.clone());
    assert_eq!(NodePubKey::try_from(text), Ok(key));
}

#[test]
fn node_pub_key_string_normalizes_case() {
    let text = format!("0x{}", "DEADBEEF".repeat(8));
    let key = NodePubKey::try_from(text.clone()).unwrap();
    assert_eq!(String::from(key), text.to_ascii_lowercase());
}

#[test]
fn node_pub_key_string_without_prefix() {
    let text = format!("1x{}", "00".repeat(32));
    assert_eq!(
        NodePubKey::try_from(text),
        Err("NodePubKey must be a 32-byte hex string started with '0x'")
    );
}

#[test]
fn node_pub_key_string_too_short() {
    let text = format!("0x{}", "00".repeat(31));
    assert_eq!(
        NodePubKey::try_from(text),
        Err("NodePubKey must be a 32-byte hex string started with '0x'")
    );
}

#[test]
fn node_pub_key_string_odd_length() {
    let text = format!("0x{}", "0".repeat(65));
    assert_eq!(
        NodePubKey::try_from(text),
        Err("NodePubKey must be a 32-byte hex string started with '0x'")
    );
}

#[test]
fn node_pub_key_string_empty() {
    assert_eq!(
        NodePubKey::try_from(String::new()),
        Err("NodePubKey must be a 32-byte hex string started with '0x'")
    );
}

#[test]
fn node_pub_key_string_bad_digit() {
    let text = format!("0x{}g", "0".repeat(63));
    assert_eq!(NodePubKey::try_from(text), Err("NodePubKey must be a valid hex string"));
}

#[test]
fn node_pub_key_string_non_ascii() {
    // 62 hex digits and one two-byte character make 66 bytes.
    let text = format!("0x{}é", "0".repeat(62));
    assert_eq!(text.len(), 66);
    assert_eq!(NodePubKey::try_from(text), Err("NodePubKey must be a valid hex string"));
}

#[test]
fn node_pub_key_from_bytes() {
    let bytes = counting_bytes();
    let key = NodePubKey::try_from(&bytes[..]).unwrap();
    assert_eq!(key, NodePubKey::StoragePubKey(AccountId32(bytes)));
    assert_eq!(NodePubKey::try_from(bytes.to_vec()), Ok(key));
}

#[test]
fn node_pub_key_from_wrong_number_of_bytes() {
    assert_eq!(NodePubKey::try_from(&[1u8; 31][..]), Err("NodePubKey must be exactly 32 bytes"));
    assert_eq!(NodePubKey::try_from(vec![1u8; 33]), Err("NodePubKey must be exactly 32 bytes"));
    assert_eq!(NodePubKey::try_from(Vec::new()), Err("NodePubKey must be exactly 32 bytes"));
}

#[test]
fn node_pub_key_to_bytes() {
    let key = NodePubKey::StoragePubKey(AccountId32(counting_bytes()));
    assert_eq!(key.as_ref(), &counting_bytes()[..]);
    let bytes: Vec<u8> = Vec::from(key.clone());
    assert_eq!(bytes, counting_bytes().to_vec());
    assert_eq!(NodePubKey::try_from(bytes), Ok(key));
}

#[test]
fn account_id_hex_from_string() {
    let value = AccountId32Hex::try_from(String::from(COUNTING_HEX)).unwrap();
    assert_eq!(value.id, counting_bytes());
    let value = AccountId32Hex::try_from(COUNTING_HEX).unwrap();
    assert_eq!(value.id, counting_bytes());
}

#[test]
fn account_id_hex_errors() {
    assert_eq!(
        AccountId32Hex::try_from("0x1234"),
        Err("NodePubKey must be a 32-byte hex string started with '0x'")
    );
    let text = format!("0x{}zz", "00".repeat(31));
    assert_eq!(AccountId32Hex::try_from(text), Err("NodePubKey must be a valid hex string"));
}

#[test]
fn account_id_hex_to_string() {
    let value = AccountId32Hex { id: counting_bytes() };
    assert_eq!(String::from(value), COUNTING_HEX);
}

#[test]
fn account_id_hex_roundtrip() {
    let value = AccountId32Hex { id: [0xc3; 32] };
    assert_eq!(AccountId32Hex::try_from(String::from(value)), Ok(value));
}

#[test]
fn account_id_from_hex() {
    let value = AccountId32Hex { id: counting_bytes() };
    assert_eq!(AccountId32::from(value), AccountId32(counting_bytes()));
}

#[test]
fn hash_from_string() {
    assert_eq!(try_hex_from_string(String::from(COUNTING_HEX)), Ok(H256(counting_bytes())));
    let upper = format!("0x{}", "FF".repeat(32));
    assert_eq!(try_hex_from_string(upper), Ok(H256([0xff; 32])));
}

#[test]
fn hash_from_string_errors() {
    assert_eq!(
        try_hex_from_string(String::from("0x")),
        Err("Input must be a 32-byte hex string started with '0x'")
    );
    let no_prefix = "00".repeat(33);
    assert_eq!(
        try_hex_from_string(no_prefix),
        Err("Input must be a 32-byte hex string started with '0x'")
    );
    let bad = format!("0x{} ", "0".repeat(63));
    assert_eq!(try_hex_from_string(bad), Err("Input must be a valid hex string"));
}

#[test]
fn merge_is_blake2s_of_both_nodes() {
    let lhs = H256(counting_bytes());
    let rhs = H256([0xee; 32]);
    let mut hasher = blake2::Blake2s256::new();
    hasher.update(lhs.0);
    hasher.update(rhs.0);
    let expected: [u8; 32] = hasher.finalize().into();
    let parent = MergeMMRHash::merge(&lhs, &rhs);
    assert_eq!(parent, H256(expected));
    assert_ne!(parent, lhs);
    assert_ne!(parent, rhs);
}

#[test]
fn merge_depends_on_order() {
    let lhs = H256([1; 32]);
    let rhs = H256([2; 32]);
    assert_ne!(MergeMMRHash::merge(&lhs, &rhs), MergeMMRHash::merge(&rhs, &lhs));
}

#[test]
fn merge_known_value() {
    // BLAKE2s-256 of 64 zero bytes.
    let expected = {
        let mut hasher = blake2::Blake2s256::new();
        hasher.update([0u8; 64]);
        let out: [u8; 32] = hasher.finalize().into();
        out
    };
    assert_eq!(MergeMMRHash::merge(&H256([0; 32]), &H256([0; 32])), H256(expected));
}

#[test]
fn storage_node_params_default() {
    let params = StorageNodeParams::default();
    assert_eq!(params.mode, StorageNodeMode::Full);
    assert!(params.host.is_empty());
    assert!(params.domain.is_empty());
    assert!(!params.ssl);
    assert_eq!((params.http_port, params.grpc_port, params.p2p_port), (0, 0, 0));
}

#[test]
fn cluster_params_default() {
    let params: ClusterParams<AccountId32> = ClusterParams::default();
    assert!(params.node_provider_auth_contract.is_none());
    assert_eq!(params.erasure_coding_required, 0);
    assert_eq!(params.erasure_coding_total, 0);
    assert_eq!(params.replication_total, 0);
    assert!(params.inspection_dry_run_params.is_none());
}

#[test]
fn payout_state_default_is_not_initialized() {
    assert_eq!(PayoutState::default(), PayoutState::NotInitialized);
}

#[test]
fn hex_readers_agree() {
    let text = format!("0x{}", "0f1E2d3C".repeat(8));
    let key = NodePubKey::try_from(text.clone()).unwrap();
    let account = AccountId32Hex::try_from(text.clone()).unwrap();
    let hash = try_hex_from_string(text).unwrap();
    assert_eq!(key.as_ref(), &account.id[..]);
    assert_eq!(account.id, hash.0);

    let bad = format!("0x{}", "0".repeat(60));
    assert!(NodePubKey::try_from(bad.clone()).is_err());
    assert!(AccountId32Hex::try_from(bad.clone()).is_err());
    assert!(try_hex_from_string(bad).is_err());
}

#[test]
fn account_id_hex_string_normalizes_case() {
    let text = format!("0x{}", "A0b1C2d3".repeat(8));
    let value = AccountId32Hex::try_from(text.as_str()).unwrap();
    assert_eq!(String::from(value), text.to_ascii_lowercase());
}

#[test]
fn storage_node_mode_codes() {
    assert_eq!(u8::from(StorageNodeMode::Full), 1);
    assert_eq!(u8::from(StorageNodeMode::Storage), 2);
    assert_eq!(u8::from(StorageNodeMode::Cache), 3);
    assert_eq!(u8::from(StorageNodeMode::Compute), 4);
    for mode in [StorageNodeMode::Full, StorageNodeMode::Storage, StorageNodeMode::Cache, StorageNodeMode::Compute] {
        assert_eq!(StorageNodeMode::try_from(u8::from(mode)), Ok(mode));
    }
    assert_eq!(StorageNodeMode::try_from(0u8), Err(()));
    assert_eq!(StorageNodeMode::try_from(5u8), Err(()));
}

#[test]
fn payout_state_codes() {
    let states = [
        PayoutState::NotInitialized,
        PayoutState::Initialized,
        PayoutState::ChargingCustomers,
        PayoutState::CustomersChargedWithFees,
        PayoutState::RewardingProviders,
        PayoutState::ProvidersRewarded,
        PayoutState::Finalized,
    ];
    for (i, state) in states.iter().enumerate() {
        assert_eq!(u8::from(*state), i as u8 + 1);
        assert_eq!(PayoutState::try_from(i as u8 + 1), Ok(*state));
    }
    assert_eq!(PayoutState::try_from(0u8), Err(()));
    assert_eq!(PayoutState::try_from(8u8), Err(()));
    assert_eq!(u8::from(PayoutState::default()), 1);
}

#[test]
fn payout_defaults() {
    assert_eq!(CustomerCharge::default(), CustomerCharge { transfer: 0, storage: 0, puts: 0, gets: 0, compute: 0 });
    assert_eq!(ProviderReward::default(), ProviderReward { transfer: 0, storage: 0, puts: 0, gets: 0, compute: 0 });
    assert!(MMRProof::default().proof.is_empty());
    let receipt = PayoutReceiptParams::default();
    assert_eq!(receipt.state, PayoutState::NotInitialized);
    assert_eq!(receipt.cluster_id.0, [0u8; 20]);
    assert_eq!(receipt.fingerprint, H256([0u8; 32]));
    assert!(receipt.charging_processed_batches.is_empty());
    let fingerprint: PayoutFingerprintParams<AccountId32> = PayoutFingerprintParams::default();
    assert!(fingerprint.validators.is_empty());
    assert_eq!(fingerprint.ehd_merkle_root, H256::default());
}

#[test]
fn cluster_defaults() {
    assert_eq!(Perquintill::default(), Perquintill(0));
    let stats = ClusterNodesStats::default();
    assert_eq!((stats.await_validation, stats.validation_succeeded, stats.validation_failed), (0, 0, 0));
    let params: ClusterProtocolParams<u128, u32, u64> = ClusterProtocolParams::default();
    assert_eq!(params.treasury_share, Perquintill(0));
    assert_eq!(params.storage_bond_size, 0);
    assert_eq!(params.cost_per_ram_unit, 0);
    assert_eq!(params.customer_deposit_contract, 0);
}
