//! Algorand provider: gasless ASA payments through atomic groups in which the
//! facilitator co-signs a fee-paying transaction 0 for the client's signed
//! transfer.
use algonaut_transaction::transaction::TransactionType;
use base64::Engine;
use vstd::prelude::*;

use crate::facilitator::{
    ExactAlgorandPayload, ExactPaymentPayload, FacilitatorErrorReason, FacilitatorLocalError,
    PaymentPayload, SettleResponse, SupportedPaymentKind, SupportedPaymentKindExtra,
    SupportedPaymentKindsResponse, VerifyResponse,
};
use crate::nonce_store::{algorand_key, algorand_nonce_key, algorand_ttl_seconds, ttl_spec};
use crate::text::{bytes_equal, push_str, string_of};
use crate::types::{network_name, MixedAddress, Network, Scheme, TransactionHash};

verus! {

/// USDC ASA id on Algorand mainnet.
pub const USDC_ASA_ID_MAINNET: u64 = 31566704;

/// USDC ASA id on Algorand testnet.
pub const USDC_ASA_ID_TESTNET: u64 = 10458941;

/// Polls of a submitted group before it counts as unconfirmed.
pub const MAX_CONFIRMATION_ATTEMPTS: u32 = 20;

/// Milliseconds between confirmation polls.
pub const POLL_INTERVAL_MS: u64 = 500;

/// Algorand-specific errors.
#[derive(Debug, Clone, PartialEq, Eq)]
pub enum AlgorandError {
    InvalidEncoding(String),
    InvalidAtomicGroup(String),
    TransactionExpired { expiry_round: u64, current_round: u64 },
    InvalidSignature { address: String },
    ForbiddenFeeField { field: String },
    InsufficientFee { provided: u64, required: u64 },
    SubmissionFailed(String),
    TransactionNotConfirmed { attempts: u32 },
    AsaIdMismatch { expected: u64, actual: u64 },
    RpcError(String),
    InvalidGroupId,
    PaymentIndexOutOfBounds { index: usize, len: usize },
}

// ---------------------------------------------------------------------------
// Chain configuration
// ---------------------------------------------------------------------------

/// An Algorand network and its USDC asset id.
#[derive(Debug, Clone, Copy, PartialEq, Eq, Structural)]
pub struct AlgorandChain {
    pub network: Network,
    pub usdc_asa_id: u64,
}

/// The USDC asset id of an Algorand network.
pub open spec fn usdc_asa_of(n: Network) -> Option<u64> {
    match n {
        Network::Algorand => Some(USDC_ASA_ID_MAINNET),
        Network::AlgorandTestnet => Some(USDC_ASA_ID_TESTNET),
        _ => None,
    }
}

impl AlgorandChain {
    /// The network is an Algorand one and the asset id is its USDC.
    pub open spec fn wf(&self) -> bool {
        usdc_asa_of(self.network) == Some(self.usdc_asa_id)
    }

    /// The chain configuration of an Algorand network.
    pub fn try_from_network(network: Network) -> (r: Result<Self, FacilitatorLocalError>)
        ensures
            match usdc_asa_of(network) {
                Some(id) => r == Ok::<_, FacilitatorLocalError>(AlgorandChain { network, usdc_asa_id: id }),
                None => r matches Err(FacilitatorLocalError::UnsupportedNetwork),
            },
    {
        match network {
            Network::Algorand => Ok(AlgorandChain { network, usdc_asa_id: USDC_ASA_ID_MAINNET }),
            Network::AlgorandTestnet => Ok(AlgorandChain { network, usdc_asa_id: USDC_ASA_ID_TESTNET }),
            _ => Err(FacilitatorLocalError::UnsupportedNetwork),
        }
    }

    /// The default algod endpoint of this network.
    pub fn default_algod_url(&self) -> (r: &'static str)
        requires
            self.wf(),
        ensures
            self.network == Network::Algorand ==> r@ == "https://mainnet-api.algonode.cloud"@,
            self.network == Network::AlgorandTestnet ==> r@ == "https://testnet-api.algonode.cloud"@,
    {
        match self.network {
            Network::Algorand => "https://mainnet-api.algonode.cloud",
            _ => "https://testnet-api.algonode.cloud",
        }
    }
}

impl TryFrom<Network> for AlgorandChain {
    type Error = FacilitatorLocalError;

    fn try_from(value: Network) -> (r: Result<Self, FacilitatorLocalError>) {
        AlgorandChain::try_from_network(value)
    }
}

impl vstd::std_specs::convert::TryFromSpecImpl<Network> for AlgorandChain {
    open spec fn obeys_try_from_spec() -> bool {
        true
    }

    open spec fn try_from_spec(v: Network) -> Result<Self, FacilitatorLocalError> {
        match usdc_asa_of(v) {
            Some(id) => Ok(AlgorandChain { network: v, usdc_asa_id: id }),
            None => Err(FacilitatorLocalError::UnsupportedNetwork),
        }
    }
}

// ---------------------------------------------------------------------------
// Addresses
// ---------------------------------------------------------------------------

/// A name for whether algonaut's `Address: FromStr` accepts `s` (base32 of
/// 32 key bytes and a 4-byte checksum that must match).
pub uninterp spec fn algo_address_parses(s: Seq<char>) -> bool;

#[verifier::external_type_specification]
#[verifier::external_body]
pub struct ExAlgoAddress(algonaut_core::Address);

/// Relies on algonaut_core's `Address: FromStr` (base32 decode, length and
/// checksum check).
#[verifier::external_body]
fn parse_algo_address(s: &str) -> (r: Option<algonaut_core::Address>)
    ensures
        r is Some <==> algo_address_parses(s@),
{
    s.parse::<algonaut_core::Address>().ok()
}

/// An Algorand address in its 58-character base32 text form.
#[derive(Debug, Clone, PartialEq, Eq)]
pub struct AlgorandAddress {
    pub address: String,
}

impl AlgorandAddress {
    /// Wraps an address text without checking it.
    pub fn new(address: String) -> (r: Self)
        ensures
            r.address == address,
    {
        AlgorandAddress { address }
    }

    /// Whether the text is 58 characters long and decodes as an address.
    pub fn is_valid(&self) -> (r: bool)
        ensures
            r == (self.address@.len() == 58 && algo_address_parses(self.address@)),
    {
        if self.address.as_str().unicode_len() != 58 {
            return false;
        }
        parse_algo_address(self.address.as_str()).is_some()
    }

    /// The algonaut form of this address.
    pub fn to_algo_address(&self) -> (r: Result<algonaut_core::Address, AlgorandError>)
        ensures
            r is Ok <==> algo_address_parses(self.address@),
            r is Err ==> (r matches Err(AlgorandError::InvalidEncoding(_))),
    {
        match parse_algo_address(self.address.as_str()) {
            Some(a) => Ok(a),
            None => Err(AlgorandError::InvalidEncoding(String::from_str("invalid address"))),
        }
    }

    /// A checked address.
    pub fn try_from_string(value: String) -> (r: Result<Self, FacilitatorLocalError>)
        ensures
            (value@.len() == 58 && algo_address_parses(value@)) ==> r == Ok::<_, FacilitatorLocalError>(AlgorandAddress { address: value }),
            !(value@.len() == 58 && algo_address_parses(value@)) ==> r matches Err(FacilitatorLocalError::InvalidAddress(_)),
    {
        let addr = AlgorandAddress::new(value);
        if addr.is_valid() {
            Ok(addr)
        } else {
            let mut msg: Vec<char> = Vec::new();
            push_str(&mut msg, "invalid Algorand address: ");
            push_str(&mut msg, addr.address.as_str());
            Err(FacilitatorLocalError::InvalidAddress(string_of(&msg)))
        }
    }

    /// A checked address out of a chain-tagged one.
    pub fn try_from_mixed(value: MixedAddress) -> (r: Result<Self, FacilitatorLocalError>)
        ensures
            match value {
                MixedAddress::Algorand(s) => if s@.len() == 58 && algo_address_parses(s@) {
                    r == Ok::<_, FacilitatorLocalError>(AlgorandAddress { address: s })
                } else {
                    r matches Err(FacilitatorLocalError::InvalidAddress(_))
                },
                _ => r matches Err(FacilitatorLocalError::InvalidAddress(_)),
            },
    {
        match value {
            MixedAddress::Algorand(s) => Self::try_from_string(s),
            _ => Err(FacilitatorLocalError::InvalidAddress(String::from_str("expected Algorand address"))),
        }
    }

    /// The chain-tagged form of this address.
    pub fn into_mixed(self) -> (r: MixedAddress)
        ensures
            r == MixedAddress::Algorand(self.address),
    {
        MixedAddress::Algorand(self.address)
    }
}

// ---------------------------------------------------------------------------
// Decoded transactions
// ---------------------------------------------------------------------------

/// The fields of an asset transfer that verification reads.
#[derive(Debug, Clone, PartialEq, Eq)]
pub struct AssetTransferFields {
    pub sender: String,
    pub xfer: u64,
    pub amount: u64,
    pub receiver: String,
    pub close_to: Option<String>,
}

/// The fields of a decoded transaction that verification reads; addresses in
/// their text form.
#[derive(Debug, Clone, PartialEq, Eq)]
pub struct TxFields {
    /// The 32-byte group id, if the transaction is grouped.
    pub group: Option<Vec<u8>>,
    pub last_valid: u64,
    pub rekey_to: Option<String>,
    /// A payment's `close_remainder_to`.
    pub close_remainder_to: Option<String>,
    /// The asset transfer, if the transaction is one.
    pub asset_transfer: Option<AssetTransferFields>,
    /// An asset clawback's `asset_close_to` (a clawback is an asset transfer
    /// that names an asset sender).
    pub clawback_close_to: Option<String>,
    /// Whether the transaction is a state proof, which cannot be signed.
    pub is_state_proof: bool,
}

#[verifier::external_type_specification]
#[verifier::external_body]
pub struct ExTransaction(algonaut_transaction::transaction::Transaction);

#[verifier::external_type_specification]
#[verifier::external_body]
pub struct ExAssetTransfer(algonaut_transaction::transaction::AssetTransferTransaction);

/// A name for what the standard base64 alphabet (with padding) decodes `s` to.
pub uninterp spec fn base64_decoded(s: Seq<char>) -> Option<Seq<u8>>;

/// A name for the fields of the unsigned transaction that msgpack bytes `b` encode.
pub uninterp spec fn msgpack_unsigned_tx(b: Seq<u8>) -> Option<TxFields>;

/// A name for the fields of the transaction inside the signed transaction that
/// msgpack bytes `b` encode.
pub uninterp spec fn msgpack_signed_tx(b: Seq<u8>) -> Option<TxFields>;

/// Relies on base64's `STANDARD` engine `decode`.
#[verifier::external_body]
fn decode_base64(s: &str) -> (r: Option<Vec<u8>>)
    ensures
        match r {
            Some(v) => base64_decoded(s@) == Some(v@),
            None => base64_decoded(s@) is None,
        },
{
    base64::engine::general_purpose::STANDARD.decode(s).ok()
}

/// Copies the fields of an algonaut asset transfer, addresses as text.
#[verifier::external_body]
fn asset_transfer_fields(a: &algonaut_transaction::transaction::AssetTransferTransaction) -> (r: AssetTransferFields) {
    AssetTransferFields {
        sender: a.sender.to_string(),
        xfer: a.xfer,
        amount: a.amount,
        receiver: a.receiver.to_string(),
        close_to: a.close_to.map(|c| c.to_string()),
    }
}

/// Copies the fields of an algonaut transaction, addresses as text.
#[verifier::external_body]
fn transaction_fields(tx: &algonaut_transaction::transaction::Transaction) -> (r: TxFields) {
    let (close, xfer, claw) = match &tx.txn_type {
        TransactionType::Payment(p) => (p.close_remainder_to, None, None),
        TransactionType::AssetTransferTransaction(a) => (None, Some(asset_transfer_fields(a)), None),
        TransactionType::AssetClawbackTransaction(c) => (None, None, c.asset_close_to),
        _ => (None, None, None),
    };
    TxFields {
        group: tx.group.map(|g| g.0.to_vec()),
        last_valid: tx.last_valid.0,
        rekey_to: tx.rekey_to.map(|a| a.to_string()),
        close_remainder_to: close.map(|a| a.to_string()),
        asset_transfer: xfer,
        clawback_close_to: claw.map(|a| a.to_string()),
        is_state_proof: matches!(tx.txn_type, TransactionType::StateProofTransaction(_)),
    }
}

/// Relies on rmp_serde's `from_slice` into algonaut's `Transaction`.
#[verifier::external_body]
fn decode_unsigned_msgpack(b: &Vec<u8>) -> (r: Option<TxFields>)
    ensures
        r == msgpack_unsigned_tx(b@),
{
    let tx: algonaut_transaction::transaction::Transaction = rmp_serde::from_slice(b).ok()?;
    Some(transaction_fields(&tx))
}

/// Relies on rmp_serde's `from_slice` into algonaut's `SignedTransaction`.
#[verifier::external_body]
fn decode_signed_msgpack(b: &Vec<u8>) -> (r: Option<TxFields>)
    ensures
        r == msgpack_signed_tx(b@),
{
    let stx: algonaut_transaction::transaction::SignedTransaction = rmp_serde::from_slice(b).ok()?;
    Some(transaction_fields(&stx.transaction))
}

/// The fields of the unsigned transaction encoded (base64 over msgpack) in `s`.
pub open spec fn decoded_unsigned(s: Seq<char>) -> Option<TxFields> {
    match base64_decoded(s) {
        Some(b) => msgpack_unsigned_tx(b),
        None => None,
    }
}

/// The fields of the signed transaction encoded (base64 over msgpack) in `s`.
pub open spec fn decoded_signed(s: Seq<char>) -> Option<TxFields> {
    match base64_decoded(s) {
        Some(b) => msgpack_signed_tx(b),
        None => None,
    }
}

/// Decodes a base64 msgpack unsigned transaction.
pub fn decode_transaction(base64_tx: &str) -> (r: Result<TxFields, AlgorandError>)
    ensures
        match decoded_unsigned(base64_tx@) {
            Some(f) => r == Ok::<_, AlgorandError>(f),
            None => r matches Err(AlgorandError::InvalidEncoding(_)),
        },
{
    let bytes = match decode_base64(base64_tx) {
        Some(b) => b,
        None => {
            return Err(AlgorandError::InvalidEncoding(String::from_str("base64 decode failed")));
        },
    };
    match decode_unsigned_msgpack(&bytes) {
        Some(f) => Ok(f),
        None => Err(AlgorandError::InvalidEncoding(String::from_str("msgpack decode failed"))),
    }
}

/// Decodes a base64 msgpack signed transaction.
pub fn decode_signed_transaction(base64_tx: &str) -> (r: Result<TxFields, AlgorandError>)
    ensures
        match decoded_signed(base64_tx@) {
            Some(f) => r == Ok::<_, AlgorandError>(f),
            None => r matches Err(AlgorandError::InvalidEncoding(_)),
        },
{
    let bytes = match decode_base64(base64_tx) {
        Some(b) => b,
        None => {
            return Err(AlgorandError::InvalidEncoding(String::from_str("base64 decode failed")));
        },
    };
    match decode_signed_msgpack(&bytes) {
        Some(f) => Ok(f),
        None => Err(AlgorandError::InvalidEncoding(String::from_str("msgpack decode failed"))),
    }
}

} // verus!

verus! {

// ---------------------------------------------------------------------------
// Group verification
// ---------------------------------------------------------------------------

/// The first forbidden field set on a fee transaction: each of them would let
/// a client drain or take over the fee-paying account.
pub open spec fn fee_violation(tx: TxFields) -> Option<Seq<char>> {
    if tx.close_remainder_to is Some {
        Some("close_remainder_to"@)
    } else if tx.rekey_to is Some {
        Some("rekey_to"@)
    } else if (tx.asset_transfer matches Some(a) && a.close_to is Some) || tx.clawback_close_to is Some {
        Some("asset_close_to"@)
    } else {
        None
    }
}

/// Rejects a fee transaction that sets `close_remainder_to`, `rekey_to` or
/// `asset_close_to` (of a transfer or a clawback), naming the first one found.
pub fn validate_fee_transaction(tx: &TxFields) -> (r: Result<(), AlgorandError>)
    ensures
        match fee_violation(*tx) {
            Some(f) => r matches Err(AlgorandError::ForbiddenFeeField { field }) && field@ == f,
            None => r is Ok,
        },
{
    proof {
        reveal_strlit("close_remainder_to");
        reveal_strlit("rekey_to");
        reveal_strlit("asset_close_to");
    }
    if tx.close_remainder_to.is_some() {
        return Err(AlgorandError::ForbiddenFeeField { field: String::from_str("close_remainder_to") });
    }
    if tx.rekey_to.is_some() {
        return Err(AlgorandError::ForbiddenFeeField { field: String::from_str("rekey_to") });
    }
    let transfer_close = match &tx.asset_transfer {
        Some(a) => a.close_to.is_some(),
        None => false,
    };
    if transfer_close || tx.clawback_close_to.is_some() {
        return Err(AlgorandError::ForbiddenFeeField { field: String::from_str("asset_close_to") });
    }
    Ok(())
}

/// Why a payment group is refused, in the order in which the checks run.
pub enum GroupRejection {
    /// Fewer than two transactions.
    TooSmall,
    /// The payment index is zero or past the end.
    IndexOutOfBounds,
    /// Transaction 0 does not decode as an unsigned transaction.
    FeeUndecodable,
    /// Transaction 0 sets the named forbidden field.
    ForbiddenField(Seq<char>),
    /// Transaction 0 is a state proof, which the facilitator cannot sign.
    FeeNotSignable,
    /// The payment does not decode as a signed transaction.
    PaymentUndecodable,
    /// A transaction carries no group id.
    MissingGroupId,
    /// The two group ids differ.
    GroupMismatch,
    /// The payment is not an asset transfer.
    NotAssetTransfer,
    /// The payment moves another asset than the network's USDC.
    AsaMismatch { expected: u64, actual: u64 },
}

/// The refusal of a group of encoded transactions with payment index `idx`
/// on a network whose USDC asset is `usdc`, or `None` when it passes.
pub open spec fn group_rejection(group: Seq<Seq<char>>, idx: int, usdc: u64) -> Option<GroupRejection> {
    if group.len() < 2 {
        Some(GroupRejection::TooSmall)
    } else if idx >= group.len() || idx == 0 {
        Some(GroupRejection::IndexOutOfBounds)
    } else {
        match decoded_unsigned(group[0]) {
            None => Some(GroupRejection::FeeUndecodable),
            Some(fee) => match fee_violation(fee) {
                Some(f) => Some(GroupRejection::ForbiddenField(f)),
                None => if fee.is_state_proof {
                    Some(GroupRejection::FeeNotSignable)
                } else { match decoded_signed(group[idx]) {
                    None => Some(GroupRejection::PaymentUndecodable),
                    Some(pay) => match (fee.group, pay.group) {
                        (Some(g1), Some(g2)) => if g1@ != g2@ {
                            Some(GroupRejection::GroupMismatch)
                        } else {
                            match pay.asset_transfer {
                                None => Some(GroupRejection::NotAssetTransfer),
                                Some(a) => if a.xfer != usdc {
                                    Some(GroupRejection::AsaMismatch { expected: usdc, actual: a.xfer })
                                } else {
                                    None
                                },
                            }
                        },
                        _ => Some(GroupRejection::MissingGroupId),
                    },
                } },
            },
        }
    }
}

/// Whether error `e` reports refusal `g` (for a group of `len` transactions
/// with payment index `idx`).
pub open spec fn reports(e: AlgorandError, g: GroupRejection, idx: usize, len: usize) -> bool {
    match g {
        GroupRejection::TooSmall => e matches AlgorandError::InvalidAtomicGroup(m) && m@ == "Group must have at least 2 transactions"@,
        GroupRejection::IndexOutOfBounds => e == AlgorandError::PaymentIndexOutOfBounds { index: idx, len },
        GroupRejection::FeeUndecodable => e is InvalidEncoding,
        GroupRejection::ForbiddenField(f) => e matches AlgorandError::ForbiddenFeeField { field } && field@ == f,
        GroupRejection::FeeNotSignable => e matches AlgorandError::InvalidAtomicGroup(m) && m@ == "Fee transaction cannot be a state proof"@,
        GroupRejection::PaymentUndecodable => e is InvalidEncoding,
        GroupRejection::MissingGroupId => e is InvalidGroupId,
        GroupRejection::GroupMismatch => e matches AlgorandError::InvalidAtomicGroup(m) && m@ == "Group IDs do not match"@,
        GroupRejection::NotAssetTransfer => e matches AlgorandError::InvalidAtomicGroup(m) && m@ == "Payment must be an asset transfer"@,
        GroupRejection::AsaMismatch { expected, actual } => e == AlgorandError::AsaIdMismatch { expected, actual },
    }
}

/// The text views of a payment group.
pub open spec fn group_view(g: Seq<String>) -> Seq<Seq<char>> {
    g.map_values(|s: String| s@)
}

/// A group that passed the structural checks, before the chain's current
/// round is known.
#[derive(Debug, Clone)]
pub struct GroupCheck {
    pub payer: AlgorandAddress,
    pub fee_tx: TxFields,
    pub payment_signed: TxFields,
    pub group_id: Vec<u8>,
    pub amount: u64,
    pub recipient: String,
    pub last_valid: u64,
}

/// Whether `c` records the accepted group `group` with payment index `idx`:
/// its decoded transactions, their common group id, and the payer, amount
/// and recipient of the asset transfer.
pub open spec fn records_group(c: GroupCheck, group: Seq<Seq<char>>, idx: int) -> bool {
    &&& decoded_unsigned(group[0]) == Some(c.fee_tx)
    &&& decoded_signed(group[idx]) == Some(c.payment_signed)
    &&& c.fee_tx.group matches Some(g) && g@ == c.group_id@
    &&& c.payment_signed.group matches Some(g) && g@ == c.group_id@
    &&& c.payment_signed.asset_transfer matches Some(a) && c.payer.address == a.sender
        && c.amount == a.amount && c.recipient == a.receiver
    &&& c.last_valid == c.payment_signed.last_valid
}

/// The result of a verification that passed, with the round it saw.
#[derive(Debug, Clone)]
pub struct VerifyGroupResult {
    pub payer: AlgorandAddress,
    pub fee_tx: TxFields,
    pub payment_signed: TxFields,
    pub group_id: Vec<u8>,
    pub amount: u64,
    pub recipient: String,
    pub current_round: u64,
}

/// Checks the structure of a payment group: size, payment index, fee
/// transaction safety, common group id and the asset of the transfer. Reads
/// nothing from the chain.
pub fn check_payment_group(payload: &ExactAlgorandPayload, usdc_asa_id: u64) -> (r: Result<GroupCheck, AlgorandError>)
    ensures
        r matches Ok(c) ==> fee_violation(c.fee_tx) is None && (c.payment_signed.asset_transfer matches Some(a)
            && a.xfer == usdc_asa_id),
        match group_rejection(group_view(payload.payment_group@), payload.payment_index as int, usdc_asa_id) {
            Some(g) => r matches Err(e) && reports(e, g, payload.payment_index, payload.payment_group@.len() as usize),
            None => r matches Ok(c) && records_group(c, group_view(payload.payment_group@), payload.payment_index as int),
        },
{
    let ghost gv = group_view(payload.payment_group@);
    let len = payload.payment_group.len();
    let idx = payload.payment_index;
    if len < 2 {
        proof {
            reveal_strlit("Group must have at least 2 transactions");
        }
        return Err(AlgorandError::InvalidAtomicGroup(String::from_str("Group must have at least 2 transactions")));
    }
    if idx >= len || idx == 0 {
        return Err(AlgorandError::PaymentIndexOutOfBounds { index: idx, len });
    }
    assert(gv[0] == payload.payment_group@[0]@);
    assert(gv[idx as int] == payload.payment_group@[idx as int]@);
    let fee_tx = decode_transaction(payload.payment_group[0].as_str())?;
    validate_fee_transaction(&fee_tx)?;
    if fee_tx.is_state_proof {
        proof {
            reveal_strlit("Fee transaction cannot be a state proof");
        }
        return Err(AlgorandError::InvalidAtomicGroup(String::from_str("Fee transaction cannot be a state proof")));
    }
    let payment_signed = decode_signed_transaction(payload.payment_group[idx].as_str())?;
    let fee_group = match &fee_tx.group {
        Some(g) => g.clone(),
        None => {
            return Err(AlgorandError::InvalidGroupId);
        },
    };
    let payment_group_id = match &payment_signed.group {
        Some(g) => g,
        None => {
            return Err(AlgorandError::InvalidGroupId);
        },
    };
    if !bytes_equal(&fee_group, payment_group_id) {
        proof {
            reveal_strlit("Group IDs do not match");
        }
        return Err(AlgorandError::InvalidAtomicGroup(String::from_str("Group IDs do not match")));
    }
    let transfer = match &payment_signed.asset_transfer {
        Some(a) => a,
        None => {
            proof {
                reveal_strlit("Payment must be an asset transfer");
            }
            return Err(AlgorandError::InvalidAtomicGroup(String::from_str("Payment must be an asset transfer")));
        },
    };
    if transfer.xfer != usdc_asa_id {
        return Err(AlgorandError::AsaIdMismatch { expected: usdc_asa_id, actual: transfer.xfer });
    }
    let payer = AlgorandAddress::new(transfer.sender.clone());
    let amount = transfer.amount;
    let recipient = transfer.receiver.clone();
    let last_valid = payment_signed.last_valid;
    Ok(GroupCheck { payer, fee_tx, payment_signed, group_id: fee_group, amount, recipient, last_valid })
}

/// Completes a verification with the chain's current round: a payment whose
/// last valid round lies before it has expired.
pub fn check_expiry(check: GroupCheck, current_round: u64) -> (r: Result<VerifyGroupResult, AlgorandError>)
    ensures
        check.last_valid < current_round ==> r == Err::<VerifyGroupResult, _>(
            AlgorandError::TransactionExpired { expiry_round: check.last_valid, current_round },
        ),
        check.last_valid >= current_round ==> (r matches Ok(v) && v.payer == check.payer && v.fee_tx == check.fee_tx
            && v.payment_signed == check.payment_signed && v.group_id == check.group_id && v.amount == check.amount
            && v.recipient == check.recipient && v.current_round == current_round),
{
    if check.last_valid < current_round {
        return Err(AlgorandError::TransactionExpired { expiry_round: check.last_valid, current_round });
    }
    Ok(VerifyGroupResult {
        payer: check.payer,
        fee_tx: check.fee_tx,
        payment_signed: check.payment_signed,
        group_id: check.group_id,
        amount: check.amount,
        recipient: check.recipient,
        current_round,
    })
}

/// A group that passes verification pays the network's USDC asset, and its
/// fee transaction and payment carry the same group id.
pub proof fn lemma_verified_group_pays_usdc(group: Seq<Seq<char>>, idx: int, usdc: u64, c: GroupCheck)
    requires
        group_rejection(group, idx, usdc) is None,
        records_group(c, group, idx),
    ensures
        c.payment_signed.asset_transfer matches Some(a) && a.xfer == usdc,
        c.fee_tx.group matches Some(g1) && c.payment_signed.group matches Some(g2) && g1@ == g2@,
{
}

/// A fee transaction that sets `close_remainder_to`, `rekey_to` or
/// `asset_close_to` always refuses the group, so nothing is ever signed for it.
pub proof fn lemma_forbidden_fee_field_refused(group: Seq<Seq<char>>, idx: int, usdc: u64)
    requires
        group.len() >= 2,
        0 < idx < group.len(),
        decoded_unsigned(group[0]) matches Some(fee) && fee_violation(fee) is Some,
    ensures
        group_rejection(group, idx, usdc) matches Some(GroupRejection::ForbiddenField(_)),
{
}

} // verus!

verus! {

// ---------------------------------------------------------------------------
// Provider
// ---------------------------------------------------------------------------

/// A name for the address text of the account that a 25-word Algorand
/// mnemonic encodes, `None` when the mnemonic does not decode.
pub uninterp spec fn mnemonic_address(mnemonic: Seq<char>) -> Option<Seq<char>>;

/// A name for the msgpack bytes of the signed transaction that the account of
/// `mnemonic` makes of the unsigned transaction encoded in `unsigned`
/// (Ed25519 signatures are deterministic).
pub uninterp spec fn fee_signature_of(mnemonic: Seq<char>, unsigned: Seq<u8>) -> Seq<u8>;

/// Relies on algonaut's `Account::from_mnemonic`, `Account::address` and the
/// address's text form.
#[verifier::external_body]
fn account_address(mnemonic: &str) -> (r: Option<String>)
    ensures
        match r {
            Some(a) => mnemonic_address(mnemonic@) == Some(a@),
            None => mnemonic_address(mnemonic@) is None,
        },
{
    algonaut_transaction::account::Account::from_mnemonic(mnemonic).ok().map(|a| a.address().to_string())
}

/// Relies on algonaut's `Account::sign_transaction` for the account of
/// `mnemonic`, applied to the msgpack-decoded transaction, and on rmp_serde
/// to encode the signed transaction. Signing a state proof panics in
/// algonaut (`todo!`), so that input is excluded.
#[verifier::external_body]
fn sign_unsigned_msgpack(mnemonic: &str, unsigned: &Vec<u8>) -> (r: Option<Vec<u8>>)
    requires
        !(msgpack_unsigned_tx(unsigned@) matches Some(f) && f.is_state_proof),
    ensures
        r matches Some(v) ==> v@ == fee_signature_of(mnemonic@, unsigned@),
        mnemonic_address(mnemonic@) is Some && msgpack_unsigned_tx(unsigned@) is Some ==> r is Some,
{
    let account = algonaut_transaction::account::Account::from_mnemonic(mnemonic).ok()?;
    let tx: algonaut_transaction::transaction::Transaction = rmp_serde::from_slice(unsigned).ok()?;
    let signed = account.sign_transaction(tx).ok()?;
    rmp_serde::to_vec_named(&signed).ok()
}

/// The status of a submitted group as one poll saw it.
#[derive(Debug, Clone, PartialEq, Eq)]
pub enum PollStatus {
    /// The group has a confirmed round.
    Confirmed,
    /// Still pending.
    Pending,
    /// The node dropped it with a reason.
    Rejected(String),
    /// The status could not be read.
    Unreachable,
}

/// What the settlement does after a poll.
#[derive(Debug, Clone, PartialEq, Eq)]
pub enum ConfirmationStep {
    /// Record the group and report success.
    Done,
    /// Wait one interval and poll again.
    PollAgain,
    /// Stop with this error.
    Fail(AlgorandError),
}

/// Decides the next step of confirmation polling after poll number `attempt`
/// (counting from 1): confirmed ends it, a rejection is fatal, anything else
/// polls again until the attempts are spent.
pub fn confirmation_step(attempt: u32, status: PollStatus) -> (r: ConfirmationStep)
    ensures
        match status {
            PollStatus::Confirmed => r == ConfirmationStep::Done,
            PollStatus::Rejected(m) => r == ConfirmationStep::Fail(AlgorandError::SubmissionFailed(m)),
            _ => if attempt < MAX_CONFIRMATION_ATTEMPTS {
                r == ConfirmationStep::PollAgain
            } else {
                r == ConfirmationStep::Fail(
                    AlgorandError::TransactionNotConfirmed { attempts: MAX_CONFIRMATION_ATTEMPTS },
                )
            },
        },
{
    match status {
        PollStatus::Confirmed => ConfirmationStep::Done,
        PollStatus::Rejected(m) => ConfirmationStep::Fail(AlgorandError::SubmissionFailed(m)),
        _ => if attempt < MAX_CONFIRMATION_ATTEMPTS {
            ConfirmationStep::PollAgain
        } else {
            ConfirmationStep::Fail(AlgorandError::TransactionNotConfirmed { attempts: MAX_CONFIRMATION_ATTEMPTS })
        },
    }
}

/// The Algorand payment provider: the facilitator's signing key (as its
/// mnemonic), its address and its network. The algod client that reads the
/// chain is held by the caller.
pub struct AlgorandProvider {
    mnemonic: String,
    public_address: String,
    chain: AlgorandChain,
}

/// The endpoint to use: the configured one, else the network's default.
pub fn effective_algod_url(algod_url: Option<String>, chain: &AlgorandChain) -> (r: String)
    requires
        chain.wf(),
    ensures
        algod_url matches Some(u) ==> r == u,
        algod_url is None && chain.network == Network::Algorand ==> r@ == "https://mainnet-api.algonode.cloud"@,
        algod_url is None && chain.network == Network::AlgorandTestnet ==> r@ == "https://testnet-api.algonode.cloud"@,
{
    match algod_url {
        Some(u) => u,
        None => String::from_str(chain.default_algod_url()),
    }
}

impl AlgorandProvider {
    /// The provider's network and USDC asset.
    pub closed spec fn chain_spec(&self) -> AlgorandChain {
        self.chain
    }

    /// The provider's chain configuration is an Algorand one.
    pub open spec fn wf(&self) -> bool {
        self.chain_spec().wf()
    }

    /// The mnemonic of the signing account.
    pub closed spec fn signing_key(&self) -> Seq<char> {
        self.mnemonic@
    }

    /// Every provider serves an Algorand network with its USDC asset, and
    /// its address is that of its signing key.
    #[verifier::type_invariant]
    spec fn inv(&self) -> bool {
        &&& self.chain.wf()
        &&& mnemonic_address(self.mnemonic@) == Some(self.public_address@)
    }

    /// The facilitator's address text.
    pub closed spec fn address_view(&self) -> Seq<char> {
        self.public_address@
    }

    /// A provider for an Algorand `network` signing with the account of
    /// `mnemonic`.
    pub fn try_new(mnemonic: String, network: Network) -> (r: Result<Self, FacilitatorLocalError>)
        ensures
            usdc_asa_of(network) is None ==> r matches Err(FacilitatorLocalError::UnsupportedNetwork),
            usdc_asa_of(network) is Some ==> match mnemonic_address(mnemonic@) {
                Some(a) => r matches Ok(p) && p.wf() && p.chain_spec().network == network && p.address_view() == a
                    && p.signing_key() == mnemonic@,
                None => r matches Err(FacilitatorLocalError::InvalidAddress(_)),
            },
    {
        let chain = AlgorandChain::try_from_network(network)?;
        let public_address = match account_address(mnemonic.as_str()) {
            Some(a) => a,
            None => {
                return Err(FacilitatorLocalError::InvalidAddress(String::from_str("invalid Algorand mnemonic")));
            },
        };
        Ok(AlgorandProvider { mnemonic, public_address, chain })
    }

    /// The facilitator's address, chain-tagged.
    pub fn facilitator_address(&self) -> (r: MixedAddress)
        ensures
            r matches MixedAddress::Algorand(s) && s@ == self.address_view(),
    {
        MixedAddress::Algorand(self.public_address.clone())
    }

    /// The address that signs fee transactions.
    pub fn signer_address(&self) -> (r: MixedAddress)
        ensures
            r matches MixedAddress::Algorand(s) && s@ == self.address_view(),
    {
        self.facilitator_address()
    }

    /// The provider's network.
    pub fn network(&self) -> (r: Network)
        ensures
            r == self.chain_spec().network,
    {
        self.chain.network
    }

    /// The Algorand payload of a request for this provider's network.
    pub fn select_payload<'a>(&self, payload: &'a PaymentPayload) -> (r: Result<&'a ExactAlgorandPayload, FacilitatorLocalError>)
        ensures
            match payload.payload {
                ExactPaymentPayload::Algorand(p) => if payload.network == self.chain_spec().network {
                    r matches Ok(q) && *q == p
                } else {
                    r matches Err(FacilitatorLocalError::NetworkMismatch { expected, actual })
                        && expected == self.chain_spec().network && actual == payload.network
                },
                _ => r matches Err(FacilitatorLocalError::InvalidPayload),
            },
    {
        let p = match &payload.payload {
            ExactPaymentPayload::Algorand(p) => p,
            _ => {
                return Err(FacilitatorLocalError::InvalidPayload);
            },
        };
        if payload.network != self.chain.network {
            return Err(FacilitatorLocalError::NetworkMismatch { expected: self.chain.network, actual: payload.network });
        }
        Ok(p)
    }

    /// The structural part of verification, against this network's USDC.
    pub fn verify_payment_group(&self, payload: &ExactAlgorandPayload) -> (r: Result<GroupCheck, AlgorandError>)
        ensures
            r matches Ok(c) ==> fee_violation(c.fee_tx) is None && (c.payment_signed.asset_transfer matches Some(a)
                && usdc_asa_of(self.chain_spec().network) == Some(a.xfer)),
            match group_rejection(group_view(payload.payment_group@), payload.payment_index as int, self.chain_spec().usdc_asa_id) {
                Some(g) => r matches Err(e) && reports(e, g, payload.payment_index, payload.payment_group@.len() as usize),
                None => r matches Ok(c) && records_group(c, group_view(payload.payment_group@), payload.payment_index as int),
            },
    {
        proof {
            use_type_invariant(self);
        }
        check_payment_group(payload, self.chain.usdc_asa_id)
    }

    /// The answer to a verify request, from the outcome of verification.
    pub fn verify_outcome(&self, outcome: Result<VerifyGroupResult, AlgorandError>) -> (r: Result<VerifyResponse, FacilitatorLocalError>)
        ensures
            match outcome {
                Ok(v) => r matches Ok(resp) && resp.valid && resp.payer == MixedAddress::Algorand(v.payer.address),
                Err(e) => r matches Err(FacilitatorLocalError::Algorand(e2)) && e2 == e,
            },
    {
        match outcome {
            Ok(v) => Ok(VerifyResponse { valid: true, payer: v.payer.into_mixed() }),
            Err(e) => Err(FacilitatorLocalError::Algorand(e)),
        }
    }

    /// Signs transaction 0 with the facilitator account and reassembles the
    /// group in index order: slot 0 holds the new signed fee transaction,
    /// every other slot the client's bytes unchanged. Only a group that passed
    /// verification can be signed; it fails only when a client slot is not
    /// base64.
    pub fn sign_and_assemble(&self, payload: &ExactAlgorandPayload) -> (r: Result<Vec<Vec<u8>>, AlgorandError>)
        requires
            group_rejection(group_view(payload.payment_group@), payload.payment_index as int, self.chain_spec().usdc_asa_id) is None,
        ensures
            r matches Ok(g) ==> g@.len() == payload.payment_group@.len() && (base64_decoded(
                payload.payment_group@[0]@,
            ) matches Some(b) && g@[0]@ == fee_signature_of(self.signing_key(), b)) && forall|i: int|
                1 <= i < g@.len() ==> base64_decoded(payload.payment_group@[i]@) == Some(#[trigger] g@[i]@),
            (forall|i: int| 1 <= i < payload.payment_group@.len() ==> #[trigger] base64_decoded(payload.payment_group@[i]@) is Some)
                ==> r is Ok,
            r is Err ==> (r matches Err(AlgorandError::InvalidEncoding(_))),
    {
        proof {
            use_type_invariant(self);
            assert(group_view(payload.payment_group@)[0] == payload.payment_group@[0]@);
        }
        let fee_bytes = match decode_base64(payload.payment_group[0].as_str()) {
            Some(b) => b,
            None => {
                return Err(AlgorandError::InvalidEncoding(String::from_str("base64 decode failed")));
            },
        };
        let signed_fee = match sign_unsigned_msgpack(self.mnemonic.as_str(), &fee_bytes) {
            Some(s) => s,
            None => {
                return Err(AlgorandError::InvalidEncoding(String::from_str("failed to sign fee transaction")));
            },
        };
        let mut out: Vec<Vec<u8>> = Vec::new();
        out.push(signed_fee);
        let mut i: usize = 1;
        while i < payload.payment_group.len()
            invariant
                1 <= i <= payload.payment_group@.len(),
                out@.len() == i,
                base64_decoded(payload.payment_group@[0]@) matches Some(b) && out@[0]@ == fee_signature_of(self.signing_key(), b),
                forall|j: int| 1 <= j < i ==> base64_decoded(payload.payment_group@[j]@) == Some(#[trigger] out@[j]@),
            decreases payload.payment_group@.len() - i,
        {
            match decode_base64(payload.payment_group[i].as_str()) {
                Some(b) => out.push(b),
                None => {
                    return Err(AlgorandError::InvalidEncoding(String::from_str("base64 decode failed")));
                },
            }
            i = i + 1;
        }
        Ok(out)
    }

    /// Verifies the structure of a group and, when it passes, signs and
    /// assembles it; a refused group is never signed.
    pub fn sign_checked_group(&self, payload: &ExactAlgorandPayload) -> (r: Result<Vec<Vec<u8>>, AlgorandError>)
        ensures
            match group_rejection(group_view(payload.payment_group@), payload.payment_index as int, self.chain_spec().usdc_asa_id) {
                Some(g) => r matches Err(e) && reports(e, g, payload.payment_index, payload.payment_group@.len() as usize),
                None => (r matches Ok(g) ==> g@.len() == payload.payment_group@.len() && (base64_decoded(
                    payload.payment_group@[0]@,
                ) matches Some(b) && g@[0]@ == fee_signature_of(self.signing_key(), b)) && forall|i: int|
                    1 <= i < g@.len() ==> base64_decoded(payload.payment_group@[i]@) == Some(#[trigger] g@[i]@))
                    && ((forall|i: int| 1 <= i < payload.payment_group@.len() ==> #[trigger] base64_decoded(payload.payment_group@[i]@) is Some)
                    ==> r is Ok),
            },
    {
        match self.verify_payment_group(payload) {
            Ok(_) => self.sign_and_assemble(payload),
            Err(e) => Err(e),
        }
    }

    /// The nonce-store key and TTL that record a confirmed group, or `None`
    /// when the TTL would not fit in 64 bits.
    pub fn replay_record(&self, v: &VerifyGroupResult) -> (r: Option<(String, u64)>)
        ensures
            r matches Some((k, ttl)) ==> k@ == algorand_key(network_name(self.chain_spec().network), v.group_id@)
                && ttl == ttl_spec(v.current_round as int, v.payment_signed.last_valid as int, 4),
            r is None ==> ttl_spec(v.current_round as int, v.payment_signed.last_valid as int, 4) > u64::MAX,
    {
        let last_valid = v.payment_signed.last_valid;
        if last_valid > v.current_round && (last_valid - v.current_round) > (18446744073709551615u64 - 3600) / 4 {
            return None;
        }
        let ttl = algorand_ttl_seconds(v.current_round, last_valid);
        let key = algorand_nonce_key(self.chain.network.as_str(), v.group_id.as_slice());
        Some((key, ttl))
    }

    /// The settle response after submission: success carries the transaction
    /// id; a failed submission or confirmation still names the payer.
    pub fn settle_response(&self, payer: AlgorandAddress, outcome: Result<String, AlgorandError>) -> (r: SettleResponse)
        ensures
            r.payer == MixedAddress::Algorand(payer.address),
            r.network == self.chain_spec().network,
            match outcome {
                Ok(id) => r.success && r.error_reason is None && r.transaction == Some(TransactionHash::Algorand(id)),
                Err(_) => !r.success && r.error_reason == Some(FacilitatorErrorReason::UnexpectedSettleError)
                    && r.transaction is None,
            },
    {
        match outcome {
            Ok(id) => SettleResponse {
                success: true,
                error_reason: None,
                payer: payer.into_mixed(),
                transaction: Some(TransactionHash::Algorand(id)),
                network: self.chain.network,
            },
            Err(_) => SettleResponse {
                success: false,
                error_reason: Some(FacilitatorErrorReason::UnexpectedSettleError),
                payer: payer.into_mixed(),
                transaction: None,
                network: self.chain.network,
            },
        }
    }

    /// The single payment kind this provider supports: its network, the
    /// exact scheme, protocol version 1, and the facilitator as fee payer.
    pub fn supported(&self) -> (r: SupportedPaymentKindsResponse)
        ensures
            r.kinds@.len() == 1,
            r.kinds@[0].network@ == network_name(self.chain_spec().network),
            r.kinds@[0].scheme == Scheme::Exact,
            r.kinds@[0].x402_version == 1,
            r.kinds@[0].extra matches Some(x) && x.tokens is None && (x.fee_payer matches Some(
                MixedAddress::Algorand(s),
            ) && s@ == self.address_view()),
    {
        let kind = SupportedPaymentKind {
            network: String::from_str(self.chain.network.as_str()),
            scheme: Scheme::Exact,
            x402_version: 1,
            extra: Some(SupportedPaymentKindExtra { fee_payer: Some(self.signer_address()), tokens: None }),
        };
        let mut kinds: Vec<SupportedPaymentKind> = Vec::new();
        kinds.push(kind);
        SupportedPaymentKindsResponse { kinds }
    }
}

} // verus!
