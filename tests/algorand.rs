use algonaut_core::{Address, MicroAlgos, Round};
use algonaut_crypto::HashDigest;
use algonaut_transaction::account::Account;
use algonaut_transaction::transaction::{AssetClawbackTransaction, AssetTransferTransaction, Payment};
use algonaut_transaction::{Transaction, TransactionType};
use base64::Engine;

use x402_rs::algorand::{
    check_expiry, check_payment_group, confirmation_step, AlgorandAddress, AlgorandChain,
    AlgorandError, AlgorandProvider, ConfirmationStep, PollStatus, USDC_ASA_ID_MAINNET,
    USDC_ASA_ID_TESTNET,
};
use x402_rs::facilitator::{
    ExactAlgorandPayload, ExactPaymentPayload, FacilitatorErrorReason, FacilitatorLocalError,
    PaymentPayload,
};
use x402_rs::types::{MixedAddress, Network, TransactionHash};

const GROUP_G: [u8; 32] = [7u8; 32];

fn addr(seed: u8) -> Address {
    Account::from_seed([seed; 32]).address()
}

fn base_tx(txn_type: TransactionType, group: Option<[u8; 32]>, last_valid: u64) -> Transaction {
    Transaction {
        fee: MicroAlgos(1000),
        first_valid: Round(1000),
        genesis_hash: HashDigest([9u8; 32]),
        last_valid: Round(last_valid),
        txn_type,
        genesis_id: None,
        group: group.map(HashDigest),
        lease: None,
        note: None,
        rekey_to: None,
    }
}

fn fee_tx(close_remainder_to: Option<Address>, group: Option<[u8; 32]>) -> Transaction {
    base_tx(
        TransactionType::Payment(Payment {
            sender: addr(1),
            receiver: addr(1),
            amount: MicroAlgos(0),
            close_remainder_to,
        }),
        group,
        2000,
    )
}

fn asa_transfer(asset: u64, group: Option<[u8; 32]>, last_valid: u64) -> Transaction {
    base_tx(
        TransactionType::AssetTransferTransaction(AssetTransferTransaction {
            sender: addr(2),
            xfer: asset,
            amount: 1_000_000,
            receiver: addr(3),
            close_to: None,
        }),
        group,
        last_valid,
    )
}

fn encode_unsigned(tx: &Transaction) -> String {
    base64::engine::general_purpose::STANDARD.encode(rmp_serde::to_vec_named(tx).unwrap())
}

fn encode_signed(tx: Transaction) -> String {
    let signed = Account::from_seed([2u8; 32]).sign_transaction(tx).unwrap();
    base64::engine::general_purpose::STANDARD.encode(rmp_serde::to_vec_named(&signed).unwrap())
}

fn payload(group: Vec<String>, payment_index: usize) -> ExactAlgorandPayload {
    ExactAlgorandPayload { payment_group: group, payment_index }
}

fn valid_group(asset: u64) -> ExactAlgorandPayload {
    payload(
        vec![
            encode_unsigned(&fee_tx(None, Some(GROUP_G))),
            encode_signed(asa_transfer(asset, Some(GROUP_G), 5000)),
        ],
        1,
    )
}

#[test]
fn test_algorand_address_validation() {
    let valid = AlgorandAddress::new(
        "AAAAAAAAAAAAAAAAAAAAAAAAAAAAAAAAAAAAAAAAAAAAAAAAAAAAY5HFKQ".to_string(),
    );
    assert!(valid.is_valid());

    let invalid_short = AlgorandAddress::new("AAAA".to_string());
    assert!(!invalid_short.is_valid());

    let invalid_chars = AlgorandAddress::new(
        "0000000000000000000000000000000000000000000000000000000000".to_string(),
    );
    assert!(!invalid_chars.is_valid());
}

#[test]
fn test_chain_config() {
    let mainnet = AlgorandChain::try_from(Network::Algorand).unwrap();
    assert_eq!(mainnet.usdc_asa_id, USDC_ASA_ID_MAINNET);

    let testnet = AlgorandChain::try_from(Network::AlgorandTestnet).unwrap();
    assert_eq!(testnet.usdc_asa_id, USDC_ASA_ID_TESTNET);
}

#[test]
fn chain_config_refuses_other_networks() {
    assert!(matches!(
        AlgorandChain::try_from(Network::Base),
        Err(FacilitatorLocalError::UnsupportedNetwork)
    ));
}

#[test]
fn default_algod_urls() {
    let mainnet = AlgorandChain::try_from(Network::Algorand).unwrap();
    assert_eq!(mainnet.default_algod_url(), "https://mainnet-api.algonode.cloud");
    let testnet = AlgorandChain::try_from(Network::AlgorandTestnet).unwrap();
    assert_eq!(testnet.default_algod_url(), "https://testnet-api.algonode.cloud");
}

#[test]
fn address_try_from_string() {
    let ok = AlgorandAddress::try_from_string(addr(4).to_string()).unwrap();
    assert_eq!(ok.address, addr(4).to_string());
    assert!(matches!(
        AlgorandAddress::try_from_string("AAAA".to_string()),
        Err(FacilitatorLocalError::InvalidAddress(_))
    ));
}

#[test]
fn valid_group_passes_and_names_payer() {
    let check = check_payment_group(&valid_group(USDC_ASA_ID_TESTNET), USDC_ASA_ID_TESTNET).unwrap();
    assert_eq!(check.payer.address, addr(2).to_string());
    assert_eq!(check.recipient, addr(3).to_string());
    assert_eq!(check.amount, 1_000_000);
    assert_eq!(check.group_id, GROUP_G.to_vec());
    assert_eq!(check.last_valid, 5000);
}

#[test]
fn fee_field_close_remainder_to_is_rejected() {
    let p = payload(
        vec![
            encode_unsigned(&fee_tx(Some(addr(5)), Some(GROUP_G))),
            encode_signed(asa_transfer(10458941, Some(GROUP_G), 5000)),
        ],
        1,
    );
    match check_payment_group(&p, USDC_ASA_ID_TESTNET) {
        Err(AlgorandError::ForbiddenFeeField { field }) => assert_eq!(field, "close_remainder_to"),
        other => panic!("unexpected: {:?}", other.map(|c| c.amount)),
    }
}

#[test]
fn fee_field_rekey_to_is_rejected() {
    let mut fee = fee_tx(None, Some(GROUP_G));
    fee.rekey_to = Some(addr(6));
    let p = payload(
        vec![encode_unsigned(&fee), encode_signed(asa_transfer(10458941, Some(GROUP_G), 5000))],
        1,
    );
    match check_payment_group(&p, USDC_ASA_ID_TESTNET) {
        Err(AlgorandError::ForbiddenFeeField { field }) => assert_eq!(field, "rekey_to"),
        other => panic!("unexpected: {:?}", other.map(|c| c.amount)),
    }
}

#[test]
fn group_id_mismatch_is_rejected() {
    let p = payload(
        vec![
            encode_unsigned(&fee_tx(None, Some([1u8; 32]))),
            encode_signed(asa_transfer(10458941, Some([2u8; 32]), 5000)),
        ],
        1,
    );
    match check_payment_group(&p, USDC_ASA_ID_TESTNET) {
        Err(AlgorandError::InvalidAtomicGroup(m)) => assert_eq!(m, "Group IDs do not match"),
        other => panic!("unexpected: {:?}", other.map(|c| c.amount)),
    }
}

#[test]
fn missing_group_id_is_rejected() {
    let p = payload(
        vec![
            encode_unsigned(&fee_tx(None, None)),
            encode_signed(asa_transfer(10458941, Some(GROUP_G), 5000)),
        ],
        1,
    );
    assert!(matches!(check_payment_group(&p, USDC_ASA_ID_TESTNET), Err(AlgorandError::InvalidGroupId)));
}

#[test]
fn asa_mismatch_is_rejected() {
    match check_payment_group(&valid_group(10458941), USDC_ASA_ID_MAINNET) {
        Err(e) => assert_eq!(e, AlgorandError::AsaIdMismatch { expected: 31566704, actual: 10458941 }),
        Ok(_) => panic!("accepted a foreign asset"),
    }
}

#[test]
fn group_too_small_is_rejected() {
    let p = payload(vec![encode_unsigned(&fee_tx(None, Some(GROUP_G)))], 0);
    assert_eq!(
        check_payment_group(&p, USDC_ASA_ID_TESTNET).err(),
        Some(AlgorandError::InvalidAtomicGroup("Group must have at least 2 transactions".to_string()))
    );
}

#[test]
fn fee_clawback_asset_close_to_is_rejected() {
    let fee = base_tx(
        TransactionType::AssetClawbackTransaction(AssetClawbackTransaction {
            sender: addr(1),
            xfer: 10458941,
            asset_amount: 5,
            asset_sender: addr(2),
            asset_receiver: addr(1),
            asset_close_to: Some(addr(5)),
        }),
        Some(GROUP_G),
        2000,
    );
    let p = payload(vec![encode_unsigned(&fee), encode_signed(asa_transfer(10458941, Some(GROUP_G), 5000))], 1);
    match check_payment_group(&p, USDC_ASA_ID_TESTNET) {
        Err(AlgorandError::ForbiddenFeeField { field }) => assert_eq!(field, "asset_close_to"),
        other => panic!("unexpected: {:?}", other.map(|c| c.amount)),
    }
}

#[test]
fn checked_signing_refuses_a_bad_group() {
    let p = provider();
    let bad = payload(
        vec![
            encode_unsigned(&fee_tx(Some(addr(5)), Some(GROUP_G))),
            encode_signed(asa_transfer(10458941, Some(GROUP_G), 5000)),
        ],
        1,
    );
    assert!(matches!(p.sign_checked_group(&bad), Err(AlgorandError::ForbiddenFeeField { .. })));
    assert_eq!(p.sign_checked_group(&valid_group(USDC_ASA_ID_TESTNET)).unwrap().len(), 2);
}

#[test]
fn payment_index_out_of_bounds() {
    let mut p = valid_group(USDC_ASA_ID_TESTNET);
    p.payment_index = 2;
    assert_eq!(
        check_payment_group(&p, USDC_ASA_ID_TESTNET).err(),
        Some(AlgorandError::PaymentIndexOutOfBounds { index: 2, len: 2 })
    );
    p.payment_index = 0;
    assert_eq!(
        check_payment_group(&p, USDC_ASA_ID_TESTNET).err(),
        Some(AlgorandError::PaymentIndexOutOfBounds { index: 0, len: 2 })
    );
}

#[test]
fn undecodable_transaction_is_invalid_encoding() {
    let p = payload(vec!["not base64!".to_string(), "also not".to_string()], 1);
    assert!(matches!(check_payment_group(&p, USDC_ASA_ID_TESTNET), Err(AlgorandError::InvalidEncoding(_))));
}

#[test]
fn expiry_is_checked_against_current_round() {
    let check = check_payment_group(&valid_group(USDC_ASA_ID_TESTNET), USDC_ASA_ID_TESTNET).unwrap();
    let expired = check_expiry(check.clone(), 5001).err();
    assert_eq!(expired, Some(AlgorandError::TransactionExpired { expiry_round: 5000, current_round: 5001 }));
    let ok = check_expiry(check, 5000).unwrap();
    assert_eq!(ok.current_round, 5000);
}

#[test]
fn confirmation_polling_steps() {
    assert_eq!(confirmation_step(1, PollStatus::Confirmed), ConfirmationStep::Done);
    assert_eq!(confirmation_step(1, PollStatus::Pending), ConfirmationStep::PollAgain);
    assert_eq!(confirmation_step(19, PollStatus::Unreachable), ConfirmationStep::PollAgain);
    assert_eq!(
        confirmation_step(20, PollStatus::Pending),
        ConfirmationStep::Fail(AlgorandError::TransactionNotConfirmed { attempts: 20 })
    );
    assert_eq!(
        confirmation_step(3, PollStatus::Rejected("overspend".to_string())),
        ConfirmationStep::Fail(AlgorandError::SubmissionFailed("overspend".to_string()))
    );
}

fn provider() -> AlgorandProvider {
    let mnemonic = Account::from_seed([1u8; 32]).mnemonic();
    AlgorandProvider::try_new(mnemonic, Network::AlgorandTestnet).unwrap()
}

#[test]
fn provider_identity_and_supported_kinds() {
    let p = provider();
    assert_eq!(p.network(), Network::AlgorandTestnet);
    match p.facilitator_address() {
        MixedAddress::Algorand(s) => assert_eq!(s, addr(1).to_string()),
        _ => panic!("not an Algorand address"),
    }
    let kinds = p.supported().kinds;
    assert_eq!(kinds.len(), 1);
    assert_eq!(kinds[0].network, "algorand-testnet");
    assert_eq!(kinds[0].x402_version, 1);
}

#[test]
fn provider_refuses_bad_mnemonic_and_network() {
    assert!(matches!(
        AlgorandProvider::try_new("not a mnemonic".to_string(), Network::AlgorandTestnet),
        Err(FacilitatorLocalError::InvalidAddress(_))
    ));
    let mnemonic = Account::from_seed([1u8; 32]).mnemonic();
    assert!(matches!(
        AlgorandProvider::try_new(mnemonic, Network::Ethereum),
        Err(FacilitatorLocalError::UnsupportedNetwork)
    ));
}

#[test]
fn payload_selection_checks_variant_and_network() {
    let p = provider();
    let wrong_network = PaymentPayload {
        network: Network::Algorand,
        payload: ExactPaymentPayload::Algorand(valid_group(USDC_ASA_ID_TESTNET)),
    };
    assert!(matches!(
        p.select_payload(&wrong_network),
        Err(FacilitatorLocalError::NetworkMismatch { expected: Network::AlgorandTestnet, actual: Network::Algorand })
    ));
    let wrong_variant = PaymentPayload { network: Network::AlgorandTestnet, payload: ExactPaymentPayload::Evm(vec![1]) };
    assert!(matches!(p.select_payload(&wrong_variant), Err(FacilitatorLocalError::InvalidPayload)));
    let right = PaymentPayload {
        network: Network::AlgorandTestnet,
        payload: ExactPaymentPayload::Algorand(valid_group(USDC_ASA_ID_TESTNET)),
    };
    assert_eq!(p.select_payload(&right).unwrap().payment_index, 1);
}

#[test]
fn signing_replaces_slot_zero_and_passes_the_rest_through() {
    let p = provider();
    let group = valid_group(USDC_ASA_ID_TESTNET);
    let signed = p.sign_and_assemble(&group).unwrap();
    assert_eq!(signed.len(), 2);
    let client = base64::engine::general_purpose::STANDARD.decode(&group.payment_group[1]).unwrap();
    assert_eq!(signed[1], client);
    let fee_unsigned = base64::engine::general_purpose::STANDARD.decode(&group.payment_group[0]).unwrap();
    assert_ne!(signed[0], fee_unsigned);
    let stx: algonaut_transaction::SignedTransaction = rmp_serde::from_slice(&signed[0]).unwrap();
    assert_eq!(stx.transaction.group, Some(HashDigest(GROUP_G)));
    let expected = Account::from_seed([1u8; 32]).sign_transaction(fee_tx(None, Some(GROUP_G))).unwrap();
    assert_eq!(signed[0], rmp_serde::to_vec_named(&expected).unwrap());
}

#[test]
fn settle_response_keeps_payer_on_failure() {
    let p = provider();
    let payer = AlgorandAddress::new(addr(2).to_string());
    let ok = p.settle_response(payer.clone(), Ok("TXID".to_string()));
    assert!(ok.success);
    assert_eq!(ok.transaction, Some(TransactionHash::Algorand("TXID".to_string())));
    let failed = p.settle_response(payer, Err(AlgorandError::SubmissionFailed("down".to_string())));
    assert!(!failed.success);
    assert_eq!(failed.error_reason, Some(FacilitatorErrorReason::UnexpectedSettleError));
    assert_eq!(failed.payer, MixedAddress::Algorand(addr(2).to_string()));
    assert!(failed.transaction.is_none());
}

#[test]
fn replay_record_key_and_ttl() {
    let p = provider();
    let check = check_payment_group(&valid_group(USDC_ASA_ID_TESTNET), USDC_ASA_ID_TESTNET).unwrap();
    let verified = check_expiry(check, 4900).unwrap();
    let (key, ttl) = p.replay_record(&verified).unwrap();
    assert_eq!(key, format!("algorand-testnet#group#{}", hex::encode(GROUP_G)));
    assert_eq!(ttl, 100 * 4 + 3600);
}

#[test]
fn verify_outcome_reports_payer() {
    let p = provider();
    let check = check_payment_group(&valid_group(USDC_ASA_ID_TESTNET), USDC_ASA_ID_TESTNET).unwrap();
    let resp = p.verify_outcome(check_expiry(check, 10)).unwrap();
    assert!(resp.valid);
    assert_eq!(resp.payer, MixedAddress::Algorand(addr(2).to_string()));
}
