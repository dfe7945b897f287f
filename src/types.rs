//! Shared protocol types: networks, chain-tagged addresses, transaction
//! hashes and 256-bit token amounts.
use vstd::prelude::*;

use crate::erc8004::keccak256_of;
use crate::nonce_store::hex_of;

verus! {

/// A chain and environment.
#[derive(Debug, Clone, Copy, PartialEq, Eq, Hash, Structural)]
pub enum Network {
    Base,
    BaseSepolia,
    Ethereum,
    EthereumSepolia,
    Polygon,
    PolygonAmoy,
    Optimism,
    Arbitrum,
    Avalanche,
    AvalancheFuji,
    Celo,
    Algorand,
    AlgorandTestnet,
    Stellar,
    StellarTestnet,
}

/// The wire name of a network.
pub open spec fn network_name(n: Network) -> Seq<char> {
    match n {
        Network::Base => "base"@,
        Network::BaseSepolia => "base-sepolia"@,
        Network::Ethereum => "ethereum"@,
        Network::EthereumSepolia => "ethereum-sepolia"@,
        Network::Polygon => "polygon"@,
        Network::PolygonAmoy => "polygon-amoy"@,
        Network::Optimism => "optimism"@,
        Network::Arbitrum => "arbitrum"@,
        Network::Avalanche => "avalanche"@,
        Network::AvalancheFuji => "avalanche-fuji"@,
        Network::Celo => "celo"@,
        Network::Algorand => "algorand"@,
        Network::AlgorandTestnet => "algorand-testnet"@,
        Network::Stellar => "stellar"@,
        Network::StellarTestnet => "stellar-testnet"@,
    }
}

impl Network {
    /// The wire name of this network (`algorand-testnet`, `ethereum-sepolia`, ...).
    pub fn as_str(&self) -> (r: &'static str)
        ensures
            r@ == network_name(*self),
    {
        match self {
            Network::Base => "base",
            Network::BaseSepolia => "base-sepolia",
            Network::Ethereum => "ethereum",
            Network::EthereumSepolia => "ethereum-sepolia",
            Network::Polygon => "polygon",
            Network::PolygonAmoy => "polygon-amoy",
            Network::Optimism => "optimism",
            Network::Arbitrum => "arbitrum",
            Network::Avalanche => "avalanche",
            Network::AvalancheFuji => "avalanche-fuji",
            Network::Celo => "celo",
            Network::Algorand => "algorand",
            Network::AlgorandTestnet => "algorand-testnet",
            Network::Stellar => "stellar",
            Network::StellarTestnet => "stellar-testnet",
        }
    }
}

/// A 20-byte EVM account address.
#[derive(Debug, Clone, PartialEq, Eq)]
pub struct EvmAddress {
    pub bytes: Vec<u8>,
}

/// An address tagged with the chain family whose encoding it uses.
#[derive(Debug, Clone, PartialEq, Eq)]
pub enum MixedAddress {
    /// An EVM address.
    Evm(EvmAddress),
    /// An Algorand address in its 58-character base32 text form.
    Algorand(String),
    /// A Stellar account in its text form.
    Stellar(String),
}

/// The bytes of an ASCII text.
pub open spec fn ascii_bytes(s: Seq<char>) -> Seq<u8> {
    s.map_values(|c: char| c as u8)
}

/// Nibble `i` of `h`, high nibble of each byte first.
pub open spec fn nibble(h: Seq<u8>, i: int) -> u8 {
    if i % 2 == 0 {
        h[i / 2] / 16
    } else {
        h[i / 2] % 16
    }
}

/// EIP-55 mixed-case checksummed text of an address: `0x` and its lowercase
/// hex, where a letter is upper-cased when the matching nibble of the
/// Keccak-256 of the lowercase hex is at least 8.
pub open spec fn evm_checksum_text(bytes: Seq<u8>) -> Seq<char> {
    let lower = hex_of(bytes);
    let h = keccak256_of(ascii_bytes(lower));
    seq!['0', 'x'] + Seq::new(
        lower.len(),
        |i: int|
            if lower[i] >= 'a' && nibble(h, i) >= 8 {
                (((lower[i] as u32) - 32) as u8) as char
            } else {
                lower[i]
            },
    )
}

/// The text form of an address: the checksummed hex of an EVM address, the
/// address string itself otherwise.
pub open spec fn address_text(a: MixedAddress) -> Seq<char> {
    match a {
        MixedAddress::Evm(e) => evm_checksum_text(e.bytes@),
        MixedAddress::Algorand(s) => s@,
        MixedAddress::Stellar(s) => s@,
    }
}

/// Relies on alloy's `Address::to_checksum` with no chain id (EIP-55 over
/// Keccak-256 of the lowercase hex), the form in which alloy displays an
/// address.
#[verifier::external_body]
fn checksum_text(bytes: &Vec<u8>) -> (r: String)
    requires
        bytes@.len() == 20,
    ensures
        r@ == evm_checksum_text(bytes@),
{
    alloy::primitives::Address::from_slice(bytes).to_checksum(None)
}

impl MixedAddress {
    /// Whether an EVM address holds exactly 20 bytes.
    pub open spec fn wf(&self) -> bool {
        match self {
            MixedAddress::Evm(e) => e.bytes@.len() == 20,
            _ => true,
        }
    }

    /// The text form of this address.
    pub fn to_text(&self) -> (r: String)
        requires
            self.wf(),
        ensures
            r@ == address_text(*self),
    {
        match self {
            MixedAddress::Evm(e) => checksum_text(&e.bytes),
            MixedAddress::Algorand(s) => s.clone(),
            MixedAddress::Stellar(s) => s.clone(),
        }
    }
}

/// A transaction hash, one variant per chain family.
#[derive(Debug, Clone, PartialEq, Eq)]
pub enum TransactionHash {
    /// The 32 bytes of an EVM transaction hash.
    Evm(Vec<u8>),
    /// An Algorand transaction id.
    Algorand(String),
    /// A Stellar transaction hash in hex.
    Stellar(String),
}

/// An unsigned 256-bit token amount in base units, as 32 big-endian bytes.
#[derive(Debug, Clone, PartialEq, Eq)]
pub struct TokenAmount {
    pub be_bytes: Vec<u8>,
}

impl TokenAmount {
    /// Holds exactly 32 bytes.
    pub open spec fn wf(&self) -> bool {
        self.be_bytes@.len() == 32
    }

    /// The zero amount.
    pub fn zero() -> (r: Self)
        ensures
            r.wf(),
            r.be_bytes@ == Seq::new(32, |i: int| 0u8),
    {
        let mut b: Vec<u8> = Vec::new();
        let mut i: usize = 0;
        while i < 32
            invariant
                i <= 32,
                b@ == Seq::new(i as nat, |j: int| 0u8),
            decreases 32 - i,
        {
            b.push(0u8);
            i = i + 1;
            assert(b@ =~= Seq::new(i as nat, |j: int| 0u8));
        }
        TokenAmount { be_bytes: b }
    }
}

/// A payment scheme.
#[derive(Debug, Clone, Copy, PartialEq, Eq, Structural)]
pub enum Scheme {
    /// Pay exactly the stated amount.
    Exact,
}

} // verus!
