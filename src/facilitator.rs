//! Requests, responses and errors of the facilitator's verify / settle /
//! supported operations.
use vstd::prelude::*;

use crate::algorand::AlgorandError;
use crate::nonce_store::NonceStoreError;
use crate::types::{MixedAddress, Network, Scheme, TransactionHash};

verus! {

/// The x402 protocol version.
#[derive(Debug, Clone, Copy, PartialEq, Eq, Structural)]
pub enum X402Version {
    V1,
    V2,
}

/// The Algorand variant of an exact payment: a base64 msgpack-encoded atomic
/// group and the index of the client-signed payment in it.
#[derive(Debug, Clone)]
pub struct ExactAlgorandPayload {
    pub payment_group: Vec<String>,
    pub payment_index: usize,
}

/// A chain-specific exact payment.
#[derive(Debug, Clone)]
pub enum ExactPaymentPayload {
    /// An Algorand atomic group.
    Algorand(ExactAlgorandPayload),
    /// An EVM authorization, carried as its encoded bytes.
    Evm(Vec<u8>),
}

/// A payment payload and the network it declares.
#[derive(Debug, Clone)]
pub struct PaymentPayload {
    pub network: Network,
    pub payload: ExactPaymentPayload,
}

/// A request to verify a payment.
#[derive(Debug, Clone)]
pub struct VerifyRequest {
    pub payment_payload: PaymentPayload,
}

/// A request to settle a payment.
#[derive(Debug, Clone)]
pub struct SettleRequest {
    pub payment_payload: PaymentPayload,
}

/// The outcome of a verification that passed.
#[derive(Debug, Clone)]
pub struct VerifyResponse {
    pub valid: bool,
    pub payer: MixedAddress,
}

/// Machine-readable reasons of a failed settlement.
#[derive(Debug, Clone, Copy, PartialEq, Eq, Structural)]
pub enum FacilitatorErrorReason {
    /// Submission or confirmation failed after verification.
    UnexpectedSettleError,
}

/// The outcome of a settlement.
#[derive(Debug, Clone)]
pub struct SettleResponse {
    pub success: bool,
    pub error_reason: Option<FacilitatorErrorReason>,
    pub payer: MixedAddress,
    pub transaction: Option<TransactionHash>,
    pub network: Network,
}

/// Extra data of a supported payment kind.
#[derive(Debug, Clone)]
pub struct SupportedPaymentKindExtra {
    pub fee_payer: Option<MixedAddress>,
    pub tokens: Option<Vec<String>>,
}

/// One (network, scheme, version) a provider supports.
#[derive(Debug, Clone)]
pub struct SupportedPaymentKind {
    pub network: String,
    pub scheme: Scheme,
    pub x402_version: u8,
    pub extra: Option<SupportedPaymentKindExtra>,
}

/// The payment kinds a provider supports.
#[derive(Debug, Clone)]
pub struct SupportedPaymentKindsResponse {
    pub kinds: Vec<SupportedPaymentKind>,
}

/// Errors common to all providers.
#[derive(Debug, Clone)]
pub enum FacilitatorLocalError {
    /// No provider claims the network.
    UnsupportedNetwork,
    /// The payload declares `actual` where the provider serves `expected`.
    NetworkMismatch { expected: Network, actual: Network },
    /// The payload variant is not the provider's chain family.
    InvalidPayload,
    /// An address or key failed to parse.
    InvalidAddress(String),
    /// A typed Algorand failure.
    Algorand(AlgorandError),
    /// A replay, or a failure of the nonce store.
    NonceStore(NonceStoreError),
    /// Anything else, with its message.
    Other(String),
}

} // verus!
