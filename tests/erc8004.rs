use x402_rs::erc8004::{
    default_feedback_type, default_true, ethereum_mainnet_contracts, get_contracts,
    is_configured, is_erc8004_supported, supported_network_names, supported_networks,
    Erc8004Config, Erc8004Extension, ProofOfPayment,
};
use x402_rs::json::JsonValue;
use x402_rs::types::{EvmAddress, MixedAddress, Network, TokenAmount, TransactionHash};

#[test]
fn test_ethereum_mainnet_supported() {
    assert!(is_erc8004_supported(&Network::Ethereum));
    let contracts = get_contracts(&Network::Ethereum).unwrap();
    assert_eq!(contracts.identity_registry, ethereum_mainnet_contracts().identity_registry);
}

#[test]
fn test_ethereum_sepolia_supported() {
    assert!(is_erc8004_supported(&Network::EthereumSepolia));
    let contracts = get_contracts(&Network::EthereumSepolia).unwrap();
    assert!(contracts.validation_registry.is_some());
}

#[test]
fn test_unsupported_network() {
    assert!(!is_erc8004_supported(&Network::Avalanche));
    assert!(get_contracts(&Network::Avalanche).is_none());
}

#[test]
fn test_supported_networks_list() {
    let networks = supported_networks();
    assert!(networks.contains(&Network::Ethereum));
    assert!(networks.contains(&Network::EthereumSepolia));
}

#[test]
fn supported_names_and_base_pending() {
    assert_eq!(supported_network_names(), vec!["ethereum", "ethereum-sepolia"]);
    assert!(get_contracts(&Network::Base).is_none());
    assert!(get_contracts(&Network::BaseSepolia).is_none());
}

#[test]
fn mainnet_identity_address_bytes() {
    let c = ethereum_mainnet_contracts();
    assert_eq!(hex::encode(&c.identity_registry.bytes), "8004a169fb4a3325136eb29fa0ceb6d2e539a432");
    assert_eq!(hex::encode(&c.reputation_registry.bytes), "8004baa17c55a88189ae136b182e5fda19de9b63");
}

fn object(entries: Vec<(&str, JsonValue)>) -> JsonValue {
    JsonValue::Object(entries.into_iter().map(|(k, v)| (k.to_string(), v)).collect())
}

#[test]
fn test_erc8004_extension_parsing() {
    let extra = object(vec![("8004-reputation", object(vec![("includeProof", JsonValue::Bool(true))]))]);
    let extension = Erc8004Extension::from_extra(&Some(extra)).unwrap();
    assert!(extension.include_proof);
}

#[test]
fn extension_defaults_and_refusals() {
    let empty = object(vec![("8004-reputation", object(vec![]))]);
    assert_eq!(Erc8004Extension::from_extra(&Some(empty)), Some(Erc8004Extension { include_proof: true }));
    let off = object(vec![("8004-reputation", object(vec![("includeProof", JsonValue::Bool(false))]))]);
    assert_eq!(Erc8004Extension::from_extra(&Some(off)), Some(Erc8004Extension { include_proof: false }));
    let wrong = object(vec![("8004-reputation", object(vec![("includeProof", JsonValue::Text("yes".to_string()))]))]);
    assert_eq!(Erc8004Extension::from_extra(&Some(wrong)), None);
    assert_eq!(Erc8004Extension::from_extra(&Some(object(vec![("other", JsonValue::Null)]))), None);
    assert_eq!(Erc8004Extension::from_extra(&None), None);
    assert!(default_true());
}

#[test]
fn config_overrides() {
    let c = Erc8004Config::from_overrides(None, None, None);
    assert!(c.is_configured);
    assert!(is_configured(&c));
    assert_eq!(c.identity_registry, ethereum_mainnet_contracts().identity_registry);
    assert_eq!(c.validation_registry.bytes, vec![0u8; 20]);
    let zero = Erc8004Config::from_overrides(None, Some("0x0000000000000000000000000000000000000000".to_string()), None);
    assert!(!zero.is_configured);
    let custom = Erc8004Config::from_overrides(Some("1111111111111111111111111111111111111111".to_string()), Some("garbage".to_string()), None);
    assert_eq!(custom.identity_registry.bytes, vec![0x11u8; 20]);
    assert_eq!(custom.reputation_registry, ethereum_mainnet_contracts().reputation_registry);
}

fn amount(v: u8) -> TokenAmount {
    let mut b = vec![0u8; 32];
    b[31] = v;
    TokenAmount { be_bytes: b }
}

#[test]
fn proof_of_payment_hash_vector() {
    let payer = MixedAddress::Algorand("PAYER".to_string());
    let payee = MixedAddress::Algorand("PAYEE".to_string());
    let token = MixedAddress::Evm(EvmAddress { bytes: vec![0u8; 20] });
    let tx = TransactionHash::Evm(vec![0x11; 32]);
    let proof = ProofOfPayment::new(tx.clone(), 258, Network::Base, payer, payee, amount(5), token, 99);
    let mut data = vec![0x11u8; 32];
    data.extend_from_slice(&258u64.to_be_bytes());
    data.extend_from_slice(b"PAYER");
    data.extend_from_slice(b"PAYEE");
    data.extend_from_slice(&amount(5).be_bytes);
    assert_eq!(proof.payment_hash, alloy::primitives::keccak256(&data).to_vec());
    assert_eq!(proof.block_number, 258);
    assert_eq!(proof.timestamp, 99);
}

#[test]
fn proof_of_payment_non_evm_hash_and_checksummed_payer() {
    let evm = EvmAddress { bytes: hex::decode("833589fcd6edb6e08f4c7c32d4f71b54bda02913").unwrap() };
    let payer = MixedAddress::Evm(evm.clone());
    let payee = MixedAddress::Algorand("AGENT".to_string());
    let proof = ProofOfPayment::new(
        TransactionHash::Algorand("TXID".to_string()),
        1,
        Network::Algorand,
        payer.clone(),
        payee.clone(),
        amount(1),
        payer,
        0,
    );
    let mut data = vec![0u8; 32];
    data.extend_from_slice(&1u64.to_be_bytes());
    data.extend_from_slice(b"0x833589fCD6eDb6E08f4c7C32D4f71b54bdA02913");
    data.extend_from_slice(b"AGENT");
    data.extend_from_slice(&amount(1).be_bytes);
    assert_eq!(proof.payment_hash, alloy::primitives::keccak256(&data).to_vec());
}

#[test]
fn feedback_file_type() {
    assert_eq!(default_feedback_type(), "https://eips.ethereum.org/EIPS/eip-8004#feedback-v1");
}
