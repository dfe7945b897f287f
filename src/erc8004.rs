//! ERC-8004 (trustless agents) integration: registry addresses per network,
//! proof-of-payment construction, extension parsing and the request and
//! response records of the reputation, identity and validation registries.
use vstd::prelude::*;

use crate::facilitator::{FacilitatorErrorReason, X402Version};
use crate::json::{lookup, object_get, JsonValue};
use crate::text::bytes_equal;
use crate::types::{address_text, EvmAddress, MixedAddress, Network, TokenAmount, TransactionHash};

verus! {

/// The x402 extension identifier of ERC-8004 reputation.
pub const EXTENSION_ID: &'static str = "8004-reputation";

/// The registry contracts of one network.
#[derive(Debug, Clone, PartialEq, Eq)]
pub struct Erc8004Contracts {
    pub identity_registry: EvmAddress,
    pub reputation_registry: EvmAddress,
    pub validation_registry: Option<EvmAddress>,
}

/// Bytes of the address 0x8004A169FB4a3325136EB29fA0ceB6D2e539a432.
pub open spec fn mainnet_identity_bytes() -> Seq<u8> {
    seq![0x80, 0x04, 0xa1, 0x69, 0xfb, 0x4a, 0x33, 0x25, 0x13, 0x6e, 0xb2, 0x9f, 0xa0, 0xce, 0xb6, 0xd2, 0xe5, 0x39, 0xa4, 0x32]
}

/// Bytes of the address 0x8004BAa17C55a88189AE136b182e5fdA19dE9b63.
pub open spec fn mainnet_reputation_bytes() -> Seq<u8> {
    seq![0x80, 0x04, 0xba, 0xa1, 0x7c, 0x55, 0xa8, 0x81, 0x89, 0xae, 0x13, 0x6b, 0x18, 0x2e, 0x5f, 0xda, 0x19, 0xde, 0x9b, 0x63]
}

/// Bytes of the address 0x8004A818BFB912233c491871b3d84c89A494BD9e.
pub open spec fn sepolia_identity_bytes() -> Seq<u8> {
    seq![0x80, 0x04, 0xa8, 0x18, 0xbf, 0xb9, 0x12, 0x23, 0x3c, 0x49, 0x18, 0x71, 0xb3, 0xd8, 0x4c, 0x89, 0xa4, 0x94, 0xbd, 0x9e]
}

/// Bytes of the address 0x8004B663056A597Dffe9eCcC1965A193B7388713.
pub open spec fn sepolia_reputation_bytes() -> Seq<u8> {
    seq![0x80, 0x04, 0xb6, 0x63, 0x05, 0x6a, 0x59, 0x7d, 0xff, 0xe9, 0xec, 0xcc, 0x19, 0x65, 0xa1, 0x93, 0xb7, 0x38, 0x87, 0x13]
}

/// Bytes of the address 0x8004Cb1BF31DAf7788923b405b754f57acEB4272.
pub open spec fn sepolia_validation_bytes() -> Seq<u8> {
    seq![0x80, 0x04, 0xcb, 0x1b, 0xf3, 0x1d, 0xaf, 0x77, 0x88, 0x92, 0x3b, 0x40, 0x5b, 0x75, 0x4f, 0x57, 0xac, 0xeb, 0x42, 0x72]
}

fn mainnet_identity() -> (r: EvmAddress)
    ensures
        r.bytes@ == mainnet_identity_bytes(),
{
    let bytes: Vec<u8> = vec![0x80, 0x04, 0xa1, 0x69, 0xfb, 0x4a, 0x33, 0x25, 0x13, 0x6e, 0xb2, 0x9f, 0xa0, 0xce, 0xb6, 0xd2, 0xe5, 0x39, 0xa4, 0x32];
    assert(bytes@ =~= mainnet_identity_bytes());
    EvmAddress { bytes }
}

fn mainnet_reputation() -> (r: EvmAddress)
    ensures
        r.bytes@ == mainnet_reputation_bytes(),
{
    let bytes: Vec<u8> = vec![0x80, 0x04, 0xba, 0xa1, 0x7c, 0x55, 0xa8, 0x81, 0x89, 0xae, 0x13, 0x6b, 0x18, 0x2e, 0x5f, 0xda, 0x19, 0xde, 0x9b, 0x63];
    assert(bytes@ =~= mainnet_reputation_bytes());
    EvmAddress { bytes }
}

fn sepolia_identity() -> (r: EvmAddress)
    ensures
        r.bytes@ == sepolia_identity_bytes(),
{
    let bytes: Vec<u8> = vec![0x80, 0x04, 0xa8, 0x18, 0xbf, 0xb9, 0x12, 0x23, 0x3c, 0x49, 0x18, 0x71, 0xb3, 0xd8, 0x4c, 0x89, 0xa4, 0x94, 0xbd, 0x9e];
    assert(bytes@ =~= sepolia_identity_bytes());
    EvmAddress { bytes }
}

fn sepolia_reputation() -> (r: EvmAddress)
    ensures
        r.bytes@ == sepolia_reputation_bytes(),
{
    let bytes: Vec<u8> = vec![0x80, 0x04, 0xb6, 0x63, 0x05, 0x6a, 0x59, 0x7d, 0xff, 0xe9, 0xec, 0xcc, 0x19, 0x65, 0xa1, 0x93, 0xb7, 0x38, 0x87, 0x13];
    assert(bytes@ =~= sepolia_reputation_bytes());
    EvmAddress { bytes }
}

fn sepolia_validation() -> (r: EvmAddress)
    ensures
        r.bytes@ == sepolia_validation_bytes(),
{
    let bytes: Vec<u8> = vec![0x80, 0x04, 0xcb, 0x1b, 0xf3, 0x1d, 0xaf, 0x77, 0x88, 0x92, 0x3b, 0x40, 0x5b, 0x75, 0x4f, 0x57, 0xac, 0xeb, 0x42, 0x72];
    assert(bytes@ =~= sepolia_validation_bytes());
    EvmAddress { bytes }
}



/// The official Ethereum mainnet deployment (no validation registry yet).
pub fn ethereum_mainnet_contracts() -> (r: Erc8004Contracts)
    ensures
        r.identity_registry.bytes@ == mainnet_identity_bytes(),
        r.reputation_registry.bytes@ == mainnet_reputation_bytes(),
        r.validation_registry is None,
{
    Erc8004Contracts {
        identity_registry: mainnet_identity(),
        reputation_registry: mainnet_reputation(),
        validation_registry: None,
    }
}

/// The official Ethereum Sepolia deployment.
pub fn ethereum_sepolia_contracts() -> (r: Erc8004Contracts)
    ensures
        r.identity_registry.bytes@ == sepolia_identity_bytes(),
        r.reputation_registry.bytes@ == sepolia_reputation_bytes(),
        r.validation_registry matches Some(v) && v.bytes@ == sepolia_validation_bytes(),
{
    Erc8004Contracts {
        identity_registry: sepolia_identity(),
        reputation_registry: sepolia_reputation(),
        validation_registry: Some(sepolia_validation()),
    }
}

/// Whether a network has an official ERC-8004 deployment.
pub open spec fn has_deployment(network: Network) -> bool {
    network == Network::Ethereum || network == Network::EthereumSepolia
}

/// The registry contracts of a network, `None` where none is deployed.
pub fn get_contracts(network: &Network) -> (r: Option<Erc8004Contracts>)
    ensures
        *network == Network::Ethereum ==> (r matches Some(c) && c.identity_registry.bytes@ == mainnet_identity_bytes()
            && c.reputation_registry.bytes@ == mainnet_reputation_bytes() && c.validation_registry is None),
        *network == Network::EthereumSepolia ==> (r matches Some(c) && c.identity_registry.bytes@ == sepolia_identity_bytes()
            && c.reputation_registry.bytes@ == sepolia_reputation_bytes()
            && (c.validation_registry matches Some(v) && v.bytes@ == sepolia_validation_bytes())),
        !has_deployment(*network) ==> r is None,
{
    match network {
        Network::Ethereum => Some(ethereum_mainnet_contracts()),
        Network::EthereumSepolia => Some(ethereum_sepolia_contracts()),
        _ => None,
    }
}

/// Whether ERC-8004 is available on a network.
pub fn is_erc8004_supported(network: &Network) -> (r: bool)
    ensures
        r == has_deployment(*network),
{
    get_contracts(network).is_some()
}

/// The networks with an ERC-8004 deployment.
pub fn supported_networks() -> (r: Vec<Network>)
    ensures
        r@ == seq![Network::Ethereum, Network::EthereumSepolia],
{
    let mut v: Vec<Network> = Vec::new();
    v.push(Network::Ethereum);
    v.push(Network::EthereumSepolia);
    assert(v@ =~= seq![Network::Ethereum, Network::EthereumSepolia]);
    v
}

/// The wire names of the networks with an ERC-8004 deployment.
pub fn supported_network_names() -> (r: Vec<&'static str>)
    ensures
        r@.len() == 2,
        r@[0]@ == "ethereum"@,
        r@[1]@ == "ethereum-sepolia"@,
{
    let mut v: Vec<&'static str> = Vec::new();
    v.push("ethereum");
    v.push("ethereum-sepolia");
    v
}

// ---------------------------------------------------------------------------
// Configured registries
// ---------------------------------------------------------------------------

/// `s` without a leading `0x` (or `0X`).
pub open spec fn strip_0x(s: Seq<char>) -> Seq<char> {
    if s.len() >= 2 && s[0] == '0' && (s[1] == 'x' || s[1] == 'X') {
        s.subrange(2, s.len() as int)
    } else {
        s
    }
}

/// The 20 bytes that an address text (40 hex digits, optionally after `0x`
/// or `0X`) spells.
pub open spec fn evm_address_text(s: Seq<char>) -> Option<Seq<u8>> {
    let t = strip_0x(s);
    if t.len() == 40 {
        crate::discovery_aggregator::hex_decode(t)
    } else {
        None
    }
}

/// Registry addresses in effect for a custom deployment.
#[derive(Debug, Clone, PartialEq, Eq)]
pub struct Erc8004Config {
    pub identity_registry: EvmAddress,
    pub reputation_registry: EvmAddress,
    pub validation_registry: EvmAddress,
    pub is_configured: bool,
}

/// The all-zero address.
pub open spec fn zero_address() -> Seq<u8> {
    Seq::new(20, |i: int| 0u8)
}

fn zero_evm_address() -> (r: EvmAddress)
    ensures
        r.bytes@ == zero_address(),
{
    let mut b: Vec<u8> = Vec::new();
    let mut i: usize = 0;
    while i < 20
        invariant
            i <= 20,
            b@ == Seq::new(i as nat, |j: int| 0u8),
        decreases 20 - i,
    {
        b.push(0u8);
        i = i + 1;
        assert(b@ =~= Seq::new(i as nat, |j: int| 0u8));
    }
    EvmAddress { bytes: b }
}

/// The address an override text names, else `fallback`.
pub open spec fn override_or(text: Option<String>, fallback: Seq<u8>) -> Seq<u8> {
    match text {
        Some(s) => match evm_address_text(s@) {
            Some(b) => b,
            None => fallback,
        },
        None => fallback,
    }
}

fn address_or(text: &Option<String>, fallback: EvmAddress) -> (r: EvmAddress)
    ensures
        r.bytes@ == override_or(*text, fallback.bytes@),
{
    match text {
        Some(s) => match crate::discovery_aggregator::evm_address_from_text(s.as_str()) {
            Some(bytes) => EvmAddress { bytes },
            None => fallback,
        },
        None => fallback,
    }
}

impl Erc8004Config {
    /// The configuration from optional override texts: each one that parses
    /// as an address replaces the mainnet identity / mainnet reputation /
    /// zero validation default; reputation at the zero address means not
    /// configured.
    pub fn from_overrides(identity: Option<String>, reputation: Option<String>, validation: Option<String>) -> (r: Self)
        ensures
            r.identity_registry.bytes@ == override_or(identity, mainnet_identity_bytes()),
            r.reputation_registry.bytes@ == override_or(reputation, mainnet_reputation_bytes()),
            r.validation_registry.bytes@ == override_or(validation, zero_address()),
            r.is_configured == (r.reputation_registry.bytes@ != zero_address()),
    {
        let identity_registry = address_or(&identity, mainnet_identity());
        let reputation_registry = address_or(&reputation, mainnet_reputation());
        let validation_registry = address_or(&validation, zero_evm_address());
        let zero = zero_evm_address();
        let is_configured = !bytes_equal(&reputation_registry.bytes, &zero.bytes);
        Erc8004Config { identity_registry, reputation_registry, validation_registry, is_configured }
    }
}

/// Whether a configuration names a reputation registry.
pub fn is_configured(config: &Erc8004Config) -> (r: bool)
    ensures
        r == config.is_configured,
{
    config.is_configured
}

} // verus!

verus! {

// ---------------------------------------------------------------------------
// Proof of payment
// ---------------------------------------------------------------------------

/// A name for the Keccak-256 digest of `data`.
pub uninterp spec fn keccak256_of(data: Seq<u8>) -> Seq<u8>;

/// Relies on alloy's `keccak256`: the 32-byte Keccak-256 digest.
#[verifier::external_body]
fn keccak256(data: &Vec<u8>) -> (r: Vec<u8>)
    ensures
        r@ == keccak256_of(data@),
        r@.len() == 32,
{
    alloy::primitives::keccak256(data).to_vec()
}

/// The eight big-endian bytes of `n`.
pub open spec fn be8(n: u64) -> Seq<u8> {
    seq![
        (n / 0x100000000000000) as u8,
        ((n / 0x1000000000000) % 256) as u8,
        ((n / 0x10000000000) % 256) as u8,
        ((n / 0x100000000) % 256) as u8,
        ((n / 0x1000000) % 256) as u8,
        ((n / 0x10000) % 256) as u8,
        ((n / 0x100) % 256) as u8,
        (n % 256) as u8,
    ]
}

/// The bytes of a transaction hash that enter a payment hash: the 32 bytes
/// of an EVM hash, 32 zero bytes for other chains.
pub open spec fn tx_hash_bytes(tx: TransactionHash) -> Seq<u8> {
    match tx {
        TransactionHash::Evm(b) => b@,
        _ => Seq::new(32, |i: int| 0u8),
    }
}

/// `tx_hash ∥ block_number (8 bytes, big-endian) ∥ utf8(payer text) ∥
/// utf8(payee text) ∥ amount (32 bytes, big-endian)`.
pub open spec fn payment_preimage(
    tx: TransactionHash,
    block_number: u64,
    payer: MixedAddress,
    payee: MixedAddress,
    amount: TokenAmount,
) -> Seq<u8> {
    tx_hash_bytes(tx) + be8(block_number) + vstd::utf8::encode_utf8(address_text(payer))
        + vstd::utf8::encode_utf8(address_text(payee)) + amount.be_bytes@
}

/// A settled payment, bound by its hash to the fields it was built from.
#[derive(Debug, Clone)]
pub struct ProofOfPayment {
    pub transaction_hash: TransactionHash,
    pub block_number: u64,
    pub network: Network,
    pub payer: MixedAddress,
    pub payee: MixedAddress,
    pub amount: TokenAmount,
    pub token: MixedAddress,
    pub timestamp: u64,
    /// Keccak-256 of the payment preimage.
    pub payment_hash: Vec<u8>,
}

fn push_bytes(out: &mut Vec<u8>, b: &[u8])
    ensures
        final(out)@ == old(out)@ + b@,
{
    let mut i: usize = 0;
    while i < b.len()
        invariant
            0 <= i <= b@.len(),
            out@ == old(out)@ + b@.subrange(0, i as int),
        decreases b@.len() - i,
    {
        out.push(b[i]);
        i = i + 1;
        assert(out@ =~= old(out)@ + b@.subrange(0, i as int));
    }
    assert(b@.subrange(0, b@.len() as int) =~= b@);
}

impl ProofOfPayment {
    /// The payment hash of settlement data.
    pub fn compute_payment_hash(
        transaction_hash: &TransactionHash,
        block_number: u64,
        payer: &MixedAddress,
        payee: &MixedAddress,
        amount: &TokenAmount,
    ) -> (r: Vec<u8>)
        requires
            payer.wf(),
            payee.wf(),
        ensures
            r@ == keccak256_of(payment_preimage(*transaction_hash, block_number, *payer, *payee, *amount)),
            r@.len() == 32,
    {
        let mut data: Vec<u8> = Vec::new();
        match transaction_hash {
            TransactionHash::Evm(bytes) => push_bytes(&mut data, bytes.as_slice()),
            _ => {
                let mut i: usize = 0;
                while i < 32
                    invariant
                        i <= 32,
                        data@ == Seq::new(i as nat, |j: int| 0u8),
                    decreases 32 - i,
                {
                    data.push(0u8);
                    i = i + 1;
                    assert(data@ =~= Seq::new(i as nat, |j: int| 0u8));
                }
            },
        }
        let ghost d1 = data@;
        data.push((block_number / 0x100000000000000) as u8);
        data.push(((block_number / 0x1000000000000) % 256) as u8);
        data.push(((block_number / 0x10000000000) % 256) as u8);
        data.push(((block_number / 0x100000000) % 256) as u8);
        data.push(((block_number / 0x1000000) % 256) as u8);
        data.push(((block_number / 0x10000) % 256) as u8);
        data.push(((block_number / 0x100) % 256) as u8);
        data.push((block_number % 256) as u8);
        assert(data@ =~= d1 + be8(block_number));
        let payer_text = payer.to_text();
        push_bytes(&mut data, payer_text.as_str().as_bytes());
        let payee_text = payee.to_text();
        push_bytes(&mut data, payee_text.as_str().as_bytes());
        push_bytes(&mut data, amount.be_bytes.as_slice());
        assert(data@ =~= payment_preimage(*transaction_hash, block_number, *payer, *payee, *amount));
        keccak256(&data)
    }

    /// A proof of payment from settlement data; its hash covers the
    /// transaction hash, block number, payer, payee and amount.
    pub fn new(
        transaction_hash: TransactionHash,
        block_number: u64,
        network: Network,
        payer: MixedAddress,
        payee: MixedAddress,
        amount: TokenAmount,
        token: MixedAddress,
        timestamp: u64,
    ) -> (r: Self)
        requires
            payer.wf(),
            payee.wf(),
        ensures
            r.payment_hash@ == keccak256_of(payment_preimage(transaction_hash, block_number, payer, payee, amount)),
            r.transaction_hash == transaction_hash,
            r.block_number == block_number,
            r.network == network,
            r.payer == payer,
            r.payee == payee,
            r.amount == amount,
            r.token == token,
            r.timestamp == timestamp,
    {
        let payment_hash = Self::compute_payment_hash(&transaction_hash, block_number, &payer, &payee, &amount);
        ProofOfPayment {
            transaction_hash,
            block_number,
            network,
            payer,
            payee,
            amount,
            token,
            timestamp,
            payment_hash,
        }
    }
}

// ---------------------------------------------------------------------------
// Extension
// ---------------------------------------------------------------------------

/// `true`, the default of flags that are on unless stated.
pub fn default_true() -> (r: bool)
    ensures
        r,
{
    true
}

/// Settings of the `8004-reputation` extension.
#[derive(Debug, Clone, Copy, PartialEq, Eq, Structural)]
pub struct Erc8004Extension {
    /// Whether settlement responses carry a proof of payment.
    pub include_proof: bool,
}

/// The extension settings that `extra` carries under `8004-reputation`: an
/// object whose `includeProof`, when present, is a boolean (absent means
/// `true`). `None` when `extra` is absent, not an object, lacks the key, or
/// holds a malformed value there.
pub open spec fn extension_of(extra: Option<JsonValue>) -> Option<bool> {
    match extra {
        Some(JsonValue::Object(entries)) => match lookup(entries@, "8004-reputation"@) {
            Some(JsonValue::Object(inner)) => match lookup(inner@, "includeProof"@) {
                None => Some(true),
                Some(JsonValue::Bool(b)) => Some(b),
                Some(_) => None,
            },
            _ => None,
        },
        _ => None,
    }
}

impl Erc8004Extension {
    /// The extension settings carried by a requirement's `extra` data.
    pub fn from_extra(extra: &Option<JsonValue>) -> (r: Option<Self>)
        ensures
            match extension_of(*extra) {
                Some(b) => r == Some(Erc8004Extension { include_proof: b }),
                None => r is None,
            },
    {
        let entries = match extra {
            Some(JsonValue::Object(entries)) => entries,
            _ => {
                return None;
            },
        };
        let inner = match object_get(entries, EXTENSION_ID) {
            Some(JsonValue::Object(inner)) => inner,
            _ => {
                return None;
            },
        };
        match object_get(inner, "includeProof") {
            None => Some(Erc8004Extension { include_proof: default_true() }),
            Some(JsonValue::Bool(b)) => Some(Erc8004Extension { include_proof: *b }),
            Some(_) => None,
        }
    }
}

} // verus!

verus! {

// ---------------------------------------------------------------------------
// Registry records
// ---------------------------------------------------------------------------

/// An agent as the identity registry records it.
#[derive(Debug, Clone)]
pub struct AgentIdentity {
    /// The agent's token id.
    pub agent_id: u64,
    pub owner: MixedAddress,
    /// URI of the agent's registration file.
    pub agent_uri: String,
    pub agent_wallet: Option<MixedAddress>,
    pub network: Network,
}

/// A service an agent offers.
#[derive(Debug, Clone)]
pub struct AgentService {
    pub name: String,
    pub endpoint: String,
    pub version: Option<String>,
}

/// A registration of an agent on some chain (`{namespace}:{chainId}:{address}`).
#[derive(Debug, Clone)]
pub struct AgentRegistration {
    pub agent_id: u64,
    pub agent_registry: String,
}

/// The registration file an agent URI resolves to.
#[derive(Debug, Clone)]
pub struct AgentRegistrationFile {
    pub type_: String,
    pub name: String,
    pub description: String,
    pub image: Option<String>,
    pub services: Vec<AgentService>,
    pub x402_support: bool,
    pub active: bool,
    pub registrations: Vec<AgentRegistration>,
    pub supported_trust: Vec<String>,
}

/// Reputation feedback for an agent; `value` is fixed-point with
/// `value_decimals` decimals.
#[derive(Debug, Clone)]
pub struct FeedbackParams {
    pub agent_id: u64,
    pub value: i128,
    pub value_decimals: u8,
    pub tag1: String,
    pub tag2: String,
    pub endpoint: String,
    pub feedback_uri: String,
    /// Keccak-256 of the feedback content (32 bytes).
    pub feedback_hash: Option<Vec<u8>>,
    pub proof: Option<ProofOfPayment>,
}

/// A request to submit feedback.
#[derive(Debug, Clone)]
pub struct FeedbackRequest {
    pub x402_version: X402Version,
    pub network: Network,
    pub feedback: FeedbackParams,
}

/// The outcome of a feedback submission.
#[derive(Debug, Clone)]
pub struct FeedbackResponse {
    pub success: bool,
    pub transaction: Option<TransactionHash>,
    /// Index assigned to the feedback, from 1.
    pub feedback_index: Option<u64>,
    pub error: Option<String>,
    pub network: Network,
}

/// A request to revoke feedback.
#[derive(Debug, Clone)]
pub struct RevokeFeedbackRequest {
    pub x402_version: X402Version,
    pub network: Network,
    pub agent_id: u64,
    pub feedback_index: u64,
}

/// A request to append a response to feedback.
#[derive(Debug, Clone)]
pub struct AppendResponseRequest {
    pub x402_version: X402Version,
    pub network: Network,
    pub agent_id: u64,
    pub client_address: MixedAddress,
    pub feedback_index: u64,
    pub response_uri: String,
    pub response_hash: Option<Vec<u8>>,
}

/// Aggregated reputation of an agent.
#[derive(Debug, Clone)]
pub struct ReputationSummary {
    pub agent_id: u64,
    pub count: u64,
    pub summary_value: i128,
    pub summary_value_decimals: u8,
    pub network: Network,
}

/// One feedback entry.
#[derive(Debug, Clone)]
pub struct FeedbackEntry {
    pub client: MixedAddress,
    pub feedback_index: u64,
    pub value: i128,
    pub value_decimals: u8,
    pub tag1: String,
    pub tag2: String,
    pub is_revoked: bool,
}

/// Filters of a reputation query (empty means all).
#[derive(Debug, Clone)]
pub struct GetReputationRequest {
    pub client_addresses: Vec<MixedAddress>,
    pub tag1: String,
    pub tag2: String,
}

/// The answer to a reputation query.
#[derive(Debug, Clone)]
pub struct ReputationResponse {
    pub agent_id: u64,
    pub summary: ReputationSummary,
    pub feedback: Option<Vec<FeedbackEntry>>,
    pub network: Network,
}

/// Payment details in a feedback file.
#[derive(Debug, Clone)]
pub struct PaymentInfo {
    pub token: String,
    pub amount: String,
    pub reason: String,
}

/// One entry of an off-chain feedback file.
#[derive(Debug, Clone)]
pub struct FeedbackFileEntry {
    pub timestamp: u64,
    pub result: String,
    pub value: i128,
    pub value_decimals: u8,
    pub payment_info: Option<PaymentInfo>,
    pub interactions: Vec<String>,
}

/// An off-chain feedback file.
#[derive(Debug, Clone)]
pub struct FeedbackFile {
    pub type_: String,
    pub feedback: Vec<FeedbackFileEntry>,
}

/// The type identifier of a feedback file.
pub fn default_feedback_type() -> (r: String)
    ensures
        r@ == "https://eips.ethereum.org/EIPS/eip-8004#feedback-v1"@,
{
    String::from_str("https://eips.ethereum.org/EIPS/eip-8004#feedback-v1")
}

/// A settle response extended with a proof of payment.
#[derive(Debug, Clone)]
pub struct SettleResponseWithProof {
    pub success: bool,
    pub error_reason: Option<FacilitatorErrorReason>,
    pub payer: MixedAddress,
    pub transaction: Option<TransactionHash>,
    pub network: Network,
    pub proof_of_payment: Option<ProofOfPayment>,
}

/// A request for validation.
#[derive(Debug, Clone)]
pub struct ValidationRequestParams {
    pub x402_version: X402Version,
    pub network: Network,
    pub validator_address: MixedAddress,
    pub agent_id: u64,
    pub request_uri: String,
    pub request_hash: Option<Vec<u8>>,
}

/// A validator's response (0 to 100).
#[derive(Debug, Clone)]
pub struct ValidationResponseParams {
    pub x402_version: X402Version,
    pub network: Network,
    pub request_hash: Vec<u8>,
    pub response: u8,
    pub response_uri: String,
    pub response_hash: Option<Vec<u8>>,
    pub tag: String,
}

/// The state of a validation.
#[derive(Debug, Clone)]
pub struct ValidationStatus {
    pub validator_address: MixedAddress,
    pub agent_id: u64,
    pub response: u8,
    pub response_hash: Vec<u8>,
    pub tag: String,
    pub last_update: u64,
}

} // verus!
