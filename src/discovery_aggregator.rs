//! Discovery aggregation: peer facilitator catalogs in several response
//! shapes, normalised into canonical v2 discovery resources.
use vstd::prelude::*;

use crate::text::{
    chars_of, decimal, parse_u32_spec, parse_u64_spec, parse_unsigned, push_decimal, push_str, split,
    split_chars, string_of, text_eq,
};
use crate::types::{EvmAddress, MixedAddress, Scheme, TokenAmount};

verus! {

// ---------------------------------------------------------------------------
// Timestamps
// ---------------------------------------------------------------------------

/// `s` without its trailing `Z` characters.
pub open spec fn trim_end_z(s: Seq<char>) -> Seq<char>
    decreases s.len(),
{
    if s.len() > 0 && s.last() == 'Z' {
        trim_end_z(s.drop_last())
    } else {
        s
    }
}

/// The values of those pieces that parse as `u32`, in order; the others are
/// skipped.
pub open spec fn parsed_parts(pieces: Seq<Seq<char>>) -> Seq<u32>
    decreases pieces.len(),
{
    if pieces.len() == 0 {
        Seq::empty()
    } else {
        let p = parsed_parts(pieces.drop_last());
        match parse_u32_spec(pieces.last()) {
            Some(v) => p.push(v),
            None => p,
        }
    }
}

/// Days from 1970-01-01 to the given proleptic-Gregorian date (Howard
/// Hinnant's `days_from_civil`).
pub open spec fn days_from_civil(year: int, month: int, day: int) -> int {
    let y = year - (if month <= 2 { 1int } else { 0int });
    let era = y / 400;
    let yoe = y - era * 400;
    let mp = if month > 2 { month - 3 } else { month + 9 };
    let doy = (153 * mp + 2) / 5 + day - 1;
    let doe = yoe * 365 + yoe / 4 - yoe / 100 + doy;
    era * 146097 + doe - 719468
}

/// Unix seconds of a date and time of day, leap seconds ignored.
pub open spec fn unix_seconds(date: Seq<u32>, time: Seq<u32>) -> int {
    days_from_civil(date[0] as int, date[1] as int, date[2] as int) * 86400 + time[0] * 3600
        + time[1] * 60 + time[2]
}

/// The numeric date and time fields of `YYYY-MM-DDTHH:MM:SS[.fff][Z]`:
/// trailing `Z`s are dropped, everything from the first `.` is discarded, the
/// rest must split at `T` into two parts, and each part must yield exactly
/// three numbers when split at `-` (resp. `:`).
pub open spec fn iso8601_fields(s: Seq<char>) -> Option<(Seq<u32>, Seq<u32>)> {
    let dt = split(trim_end_z(s), '.')[0];
    let parts = split(dt, 'T');
    if parts.len() != 2 {
        None
    } else {
        let date = parsed_parts(split(parts[0], '-'));
        let time = parsed_parts(split(parts[1], ':'));
        if date.len() != 3 || time.len() != 3 {
            None
        } else {
            Some((date, time))
        }
    }
}

/// Whether the fields name a calendar month and day at or after the epoch.
pub open spec fn fields_in_range(date: Seq<u32>, time: Seq<u32>) -> bool {
    &&& 1 <= date[1] <= 12
    &&& 1 <= date[2] <= 31
    &&& days_from_civil(date[0] as int, date[1] as int, date[2] as int) >= 0
}

/// Unix seconds of an ISO-8601 timestamp, fractional seconds discarded.
pub open spec fn iso8601_to_unix(s: Seq<char>) -> Option<u64> {
    match iso8601_fields(s) {
        Some((date, time)) => if fields_in_range(date, time) {
            Some(unix_seconds(date, time) as u64)
        } else {
            None
        },
        None => None,
    }
}

fn trimmed_len(cs: &Vec<char>) -> (e: usize)
    ensures
        e <= cs@.len(),
        cs@.subrange(0, e as int) == trim_end_z(cs@),
{
    let mut e: usize = cs.len();
    assert(cs@.subrange(0, e as int) =~= cs@);
    while e > 0 && cs[e - 1] == 'Z'
        invariant
            e <= cs@.len(),
            trim_end_z(cs@.subrange(0, e as int)) == trim_end_z(cs@),
        decreases e,
    {
        assert(cs@.subrange(0, e as int).drop_last() =~= cs@.subrange(0, e - 1));
        e = e - 1;
    }
    e
}

fn parse_parts(pieces: &Vec<Vec<char>>, Ghost(pv): Ghost<Seq<Seq<char>>>) -> (r: Vec<u32>)
    requires
        pieces@.len() == pv.len(),
        forall|j: int| 0 <= j < pv.len() ==> #[trigger] pieces@[j]@ == pv[j],
    ensures
        r@ == parsed_parts(pv),
{
    let mut out: Vec<u32> = Vec::new();
    let mut i: usize = 0;
    while i < pieces.len()
        invariant
            0 <= i <= pieces@.len(),
            pieces@.len() == pv.len(),
            forall|j: int| 0 <= j < pv.len() ==> #[trigger] pieces@[j]@ == pv[j],
            out@ == parsed_parts(pv.subrange(0, i as int)),
        decreases pieces@.len() - i,
    {
        assert(pv.subrange(0, i + 1).drop_last() =~= pv.subrange(0, i as int));
        let v = parse_unsigned(pieces[i].as_slice(), 4294967295u64);
        if let Some(x) = v {
            out.push(x as u32);
        }
        i = i + 1;
    }
    assert(pv.subrange(0, pv.len() as int) =~= pv);
    out
}

fn days_since_epoch(year: u32, month: u32, day: u32) -> (r: Option<u64>)
    requires
        1 <= month <= 12,
        1 <= day <= 31,
    ensures
        r == (if days_from_civil(year as int, month as int, day as int) >= 0 {
            Some(days_from_civil(year as int, month as int, day as int) as u64)
        } else {
            None::<u64>
        }),
        r matches Some(d) ==> d <= 1_600_000_000_000,
{
    if year == 0 && month <= 2 {
        return None;
    }
    let y: u64 = year as u64 - (if month <= 2 { 1u64 } else { 0u64 });
    let era: u64 = y / 400;
    let yoe: u64 = y - era * 400;
    let mp: u64 = if month > 2 { month as u64 - 3 } else { month as u64 + 9 };
    let doy: u64 = (153 * mp + 2) / 5 + day as u64 - 1;
    let doe: u64 = yoe * 365 + yoe / 4 - yoe / 100 + doy;
    assert(era <= 10737418);
    assert(era * 146097 <= 1_568_704_557_546) by (nonlinear_arith)
        requires era <= 10737418;
    let total: u64 = era * 146097 + doe;
    if total < 719468 {
        return None;
    }
    Some(total - 719468)
}

/// Parses an ISO-8601 UTC timestamp (`YYYY-MM-DDTHH:MM:SS[.fff]Z`) to Unix
/// seconds; fractional seconds are dropped, not rounded.
pub fn parse_iso8601_to_unix(s: &str) -> (r: Result<u64, String>)
    ensures
        match iso8601_to_unix(s@) {
            Some(v) => r == Ok::<u64, String>(v),
            None => r is Err,
        },
{
    let cs = chars_of(s);
    let e = trimmed_len(&cs);
    let mut trimmed: Vec<char> = cs;
    trimmed.truncate(e);
    let dot_pieces = split_chars(trimmed.as_slice(), '.');
    assert(trimmed@ == trim_end_z(s@));
    assert(dot_pieces@[0]@ == split(trimmed@, '.')[0]);
    let parts = split_chars(dot_pieces[0].as_slice(), 'T');
    if parts.len() != 2 {
        return Err(String::from_str("invalid ISO8601 format"));
    }
    let date_pieces = split_chars(parts[0].as_slice(), '-');
    let time_pieces = split_chars(parts[1].as_slice(), ':');
    assert(parts@[0]@ == split(split(trim_end_z(s@), '.')[0], 'T')[0]);
    assert(parts@[1]@ == split(split(trim_end_z(s@), '.')[0], 'T')[1]);
    let date = parse_parts(&date_pieces, Ghost(split(parts@[0]@, '-')));
    let time = parse_parts(&time_pieces, Ghost(split(parts@[1]@, ':')));
    if date.len() != 3 || time.len() != 3 {
        return Err(String::from_str("invalid date/time components"));
    }
    let (year, month, day) = (date[0], date[1], date[2]);
    if !(1 <= month && month <= 12 && 1 <= day && day <= 31) {
        return Err(String::from_str("date out of range"));
    }
    let days = match days_since_epoch(year, month, day) {
        Some(d) => d,
        None => {
            return Err(String::from_str("date before the epoch"));
        },
    };
    let secs: u64 = days * 86400 + time[0] as u64 * 3600 + time[1] as u64 * 60 + time[2] as u64;
    Ok(secs)
}

} // verus!

verus! {

// ---------------------------------------------------------------------------
// Flexible timestamps
// ---------------------------------------------------------------------------

/// One JSON token in a `last_updated` field.
#[derive(Debug, Clone, PartialEq, Eq)]
pub enum TimestampToken {
    /// An unsigned integer.
    Unsigned(u64),
    /// A signed integer.
    Signed(i64),
    /// A string, expected in ISO-8601 form.
    Text(String),
    /// `null`.
    Null,
}

/// Decodes a `last_updated` token: integers are Unix seconds (a signed one is
/// reinterpreted as unsigned), strings are ISO-8601, `null` is absent.
pub fn decode_flexible_timestamp(token: &TimestampToken) -> (r: Result<Option<u64>, String>)
    ensures
        match token {
            TimestampToken::Unsigned(v) => r == Ok::<Option<u64>, String>(Some(*v)),
            TimestampToken::Signed(v) => r == Ok::<Option<u64>, String>(Some(*v as u64)),
            TimestampToken::Text(s) => match iso8601_to_unix(s@) {
                Some(v) => r == Ok::<Option<u64>, String>(Some(v)),
                None => r is Err,
            },
            TimestampToken::Null => r == Ok::<Option<u64>, String>(None),
        },
{
    match token {
        TimestampToken::Unsigned(v) => Ok(Some(*v)),
        TimestampToken::Signed(v) => Ok(Some(#[verifier::truncate] (*v as u64))),
        TimestampToken::Text(s) => match parse_iso8601_to_unix(s.as_str()) {
            Ok(v) => Ok(Some(v)),
            Err(e) => Err(e),
        },
        TimestampToken::Null => Ok(None),
    }
}

// ---------------------------------------------------------------------------
// Errors and peer configuration
// ---------------------------------------------------------------------------

/// Errors of one peer's fetch; none of them aborts an aggregation cycle.
#[derive(Debug, Clone, PartialEq, Eq)]
pub enum AggregatorError {
    /// The HTTP request failed.
    HttpError(String),
    /// The body matched none of the known response shapes.
    ParseError(String),
    /// A resource URL did not parse.
    InvalidUrl(String),
    /// The peer answered with a non-success status.
    FacilitatorError(String),
}

/// A peer facilitator whose discovery catalog is polled.
#[derive(Debug, Clone)]
pub struct FacilitatorConfig {
    /// Unique identifier of the peer.
    pub id: String,
    /// Human-readable name.
    pub name: String,
    /// Discovery endpoint.
    pub discovery_url: String,
    /// Whether the peer is polled.
    pub enabled: bool,
    /// Per-request timeout in seconds.
    pub timeout_secs: u64,
}

/// Whether `c` is the enabled peer `id` named `name` at `url`, with the
/// default thirty-second timeout.
pub open spec fn is_peer(c: FacilitatorConfig, id: Seq<char>, name: Seq<char>, url: Seq<char>) -> bool {
    &&& c.id@ == id
    &&& c.name@ == name
    &&& c.discovery_url@ == url
    &&& c.enabled
    &&& c.timeout_secs == 30
}

fn peer(id: &str, name: &str, url: &str) -> (r: FacilitatorConfig)
    ensures
        is_peer(r, id@, name@, url@),
{
    FacilitatorConfig {
        id: String::from_str(id),
        name: String::from_str(name),
        discovery_url: String::from_str(url),
        enabled: true,
        timeout_secs: 30,
    }
}

/// Whether `v` is the list of known peers, in order.
pub open spec fn known_peers(v: Seq<FacilitatorConfig>) -> bool {
    &&& v.len() == 12
    &&& is_peer(v[0], "coinbase"@, "Coinbase CDP"@, "https://api.cdp.coinbase.com/platform/v2/x402/discovery/resources"@)
    &&& is_peer(v[1], "payai"@, "PayAI"@, "https://facilitator.payai.network/discovery/resources"@)
    &&& is_peer(v[2], "thirdweb"@, "Thirdweb"@, "https://api.thirdweb.com/v1/payments/x402/discovery/resources"@)
    &&& is_peer(v[3], "questflow"@, "QuestFlow"@, "https://facilitator.questflow.ai/discovery/resources"@)
    &&& is_peer(v[4], "aurracloud"@, "AurraCloud"@, "https://x402-facilitator.aurracloud.com/discovery/resources"@)
    &&& is_peer(v[5], "anyspend"@, "AnySpend"@, "https://mainnet.anyspend.com/x402/discovery/resources"@)
    &&& is_peer(v[6], "openx402"@, "OpenX402"@, "https://open.x402.host/discovery/resources"@)
    &&& is_peer(v[7], "x402rs"@, "x402.rs"@, "https://facilitator.x402.rs/discovery/resources"@)
    &&& is_peer(v[8], "heurist"@, "Heurist"@, "https://facilitator.heurist.xyz/discovery/resources"@)
    &&& is_peer(v[9], "polymer"@, "Polymer"@, "https://api.polymer.zone/x402/v1/discovery/resources"@)
    &&& is_peer(v[10], "meridian"@, "Meridian"@, "https://api.mrdn.finance/discovery/resources"@)
    &&& is_peer(v[11], "virtuals"@, "Virtuals Protocol"@, "https://acpx.virtuals.io/discovery/resources"@)
}

impl FacilitatorConfig {
    /// A field-by-field copy.
    pub fn copy(&self) -> (r: Self)
        ensures
            r == *self,
    {
        FacilitatorConfig {
            id: self.id.clone(),
            name: self.name.clone(),
            discovery_url: self.discovery_url.clone(),
            enabled: self.enabled,
            timeout_secs: self.timeout_secs,
        }
    }

    /// The Coinbase CDP peer.
    pub fn coinbase() -> (r: Self)
        ensures
            is_peer(r, "coinbase"@, "Coinbase CDP"@, "https://api.cdp.coinbase.com/platform/v2/x402/discovery/resources"@),
    {
        peer("coinbase", "Coinbase CDP", "https://api.cdp.coinbase.com/platform/v2/x402/discovery/resources")
    }

    /// The PayAI peer.
    pub fn payai() -> (r: Self)
        ensures
            is_peer(r, "payai"@, "PayAI"@, "https://facilitator.payai.network/discovery/resources"@),
    {
        peer("payai", "PayAI", "https://facilitator.payai.network/discovery/resources")
    }

    /// The Thirdweb peer.
    pub fn thirdweb() -> (r: Self)
        ensures
            is_peer(r, "thirdweb"@, "Thirdweb"@, "https://api.thirdweb.com/v1/payments/x402/discovery/resources"@),
    {
        peer("thirdweb", "Thirdweb", "https://api.thirdweb.com/v1/payments/x402/discovery/resources")
    }

    /// The QuestFlow peer.
    pub fn questflow() -> (r: Self)
        ensures
            is_peer(r, "questflow"@, "QuestFlow"@, "https://facilitator.questflow.ai/discovery/resources"@),
    {
        peer("questflow", "QuestFlow", "https://facilitator.questflow.ai/discovery/resources")
    }

    /// The AurraCloud peer.
    pub fn aurracloud() -> (r: Self)
        ensures
            is_peer(r, "aurracloud"@, "AurraCloud"@, "https://x402-facilitator.aurracloud.com/discovery/resources"@),
    {
        peer("aurracloud", "AurraCloud", "https://x402-facilitator.aurracloud.com/discovery/resources")
    }

    /// The AnySpend peer.
    pub fn anyspend() -> (r: Self)
        ensures
            is_peer(r, "anyspend"@, "AnySpend"@, "https://mainnet.anyspend.com/x402/discovery/resources"@),
    {
        peer("anyspend", "AnySpend", "https://mainnet.anyspend.com/x402/discovery/resources")
    }

    /// The OpenX402 peer.
    pub fn openx402() -> (r: Self)
        ensures
            is_peer(r, "openx402"@, "OpenX402"@, "https://open.x402.host/discovery/resources"@),
    {
        peer("openx402", "OpenX402", "https://open.x402.host/discovery/resources")
    }

    /// The x402.rs (upstream) peer.
    pub fn x402rs() -> (r: Self)
        ensures
            is_peer(r, "x402rs"@, "x402.rs"@, "https://facilitator.x402.rs/discovery/resources"@),
    {
        peer("x402rs", "x402.rs", "https://facilitator.x402.rs/discovery/resources")
    }

    /// The Heurist peer.
    pub fn heurist() -> (r: Self)
        ensures
            is_peer(r, "heurist"@, "Heurist"@, "https://facilitator.heurist.xyz/discovery/resources"@),
    {
        peer("heurist", "Heurist", "https://facilitator.heurist.xyz/discovery/resources")
    }

    /// The Polymer peer.
    pub fn polymer() -> (r: Self)
        ensures
            is_peer(r, "polymer"@, "Polymer"@, "https://api.polymer.zone/x402/v1/discovery/resources"@),
    {
        peer("polymer", "Polymer", "https://api.polymer.zone/x402/v1/discovery/resources")
    }

    /// The Meridian peer.
    pub fn meridian() -> (r: Self)
        ensures
            is_peer(r, "meridian"@, "Meridian"@, "https://api.mrdn.finance/discovery/resources"@),
    {
        peer("meridian", "Meridian", "https://api.mrdn.finance/discovery/resources")
    }

    /// The Virtuals Protocol peer.
    pub fn virtuals() -> (r: Self)
        ensures
            is_peer(r, "virtuals"@, "Virtuals Protocol"@, "https://acpx.virtuals.io/discovery/resources"@),
    {
        peer("virtuals", "Virtuals Protocol", "https://acpx.virtuals.io/discovery/resources")
    }

    /// All known peers, in a fixed order.
    pub fn all() -> (r: Vec<Self>)
        ensures
            known_peers(r@),
    {
        let mut v: Vec<Self> = Vec::new();
        v.push(Self::coinbase());
        v.push(Self::payai());
        v.push(Self::thirdweb());
        v.push(Self::questflow());
        v.push(Self::aurracloud());
        v.push(Self::anyspend());
        v.push(Self::openx402());
        v.push(Self::x402rs());
        v.push(Self::heurist());
        v.push(Self::polymer());
        v.push(Self::meridian());
        v.push(Self::virtuals());
        v
    }
}


// ---------------------------------------------------------------------------
// Peer response types
// ---------------------------------------------------------------------------

/// A peer's payment requirement (v1 names, free-form strings).
#[derive(Debug, Clone)]
pub struct CoinbasePaymentRequirement {
    pub scheme: Option<String>,
    pub network: Option<String>,
    pub asset: Option<String>,
    pub amount: Option<String>,
    pub pay_to: Option<String>,
    pub max_timeout_seconds: Option<u64>,
}

/// A peer's resource metadata.
#[derive(Debug, Clone)]
pub struct CoinbaseMetadata {
    pub category: Option<String>,
    pub provider: Option<String>,
    pub tags: Vec<String>,
}

/// A peer's discovery resource.
#[derive(Debug, Clone)]
pub struct CoinbaseResource {
    pub url: String,
    pub resource_type: Option<String>,
    pub description: Option<String>,
    pub accepts: Vec<CoinbasePaymentRequirement>,
    pub last_updated: Option<u64>,
    pub metadata: Option<CoinbaseMetadata>,
}

/// Pagination data of a peer response.
#[derive(Debug, Clone, Copy, PartialEq, Eq)]
pub struct CoinbasePagination {
    pub limit: Option<u32>,
    pub offset: Option<u32>,
    pub total: Option<u32>,
}

/// `{ items, pagination }`.
#[derive(Debug, Clone)]
pub struct CoinbaseDiscoveryResponse {
    pub items: Vec<CoinbaseResource>,
    pub pagination: Option<CoinbasePagination>,
}

/// `{ data: { items, pagination } }`.
#[derive(Debug, Clone)]
pub struct WrappedDiscoveryResponse {
    pub data: CoinbaseDiscoveryResponse,
}

/// `{ resources, pagination }`.
#[derive(Debug, Clone)]
pub struct AlternativeDiscoveryResponse {
    pub resources: Vec<CoinbaseResource>,
    pub pagination: Option<CoinbasePagination>,
}

/// The outcome of decoding one response body as each known shape, in the
/// order in which they are tried.
pub struct DiscoveryShapes {
    pub standard: Option<CoinbaseDiscoveryResponse>,
    pub wrapped: Option<WrappedDiscoveryResponse>,
    pub alternative: Option<AlternativeDiscoveryResponse>,
    pub array: Option<Vec<CoinbaseResource>>,
}

// ---------------------------------------------------------------------------
// Canonical v2 records
// ---------------------------------------------------------------------------

/// A CAIP-2 identifier of an EVM chain, `eip155:<chainId>`.
#[derive(Debug, Clone, Copy, PartialEq, Eq, Structural)]
pub struct Caip2NetworkId {
    pub chain_id: u64,
}

impl Caip2NetworkId {
    /// The identifier of EVM chain `chain_id`.
    pub fn eip155(chain_id: u64) -> (r: Self)
        ensures
            r.chain_id == chain_id,
    {
        Caip2NetworkId { chain_id }
    }

    /// The text form, `eip155:<chainId>`.
    pub fn to_text(&self) -> (r: String)
        ensures
            r@ == "eip155:"@ + decimal(self.chain_id as nat),
    {
        let mut out: Vec<char> = Vec::new();
        push_str(&mut out, "eip155:");
        push_decimal(&mut out, self.chain_id);
        string_of(&out)
    }
}

/// A v2 payment requirement.
#[derive(Debug, Clone)]
pub struct PaymentRequirementsV2 {
    pub scheme: Scheme,
    pub network: Caip2NetworkId,
    pub asset: MixedAddress,
    pub amount: TokenAmount,
    pub pay_to: MixedAddress,
    pub max_timeout_seconds: u64,
    pub extra: Option<String>,
}

/// Category, provider and tags of a resource.
#[derive(Debug, Clone)]
pub struct DiscoveryMetadata {
    pub category: Option<String>,
    pub provider: Option<String>,
    pub tags: Vec<String>,
}

/// A canonical v2 discovery resource.
#[derive(Debug, Clone)]
pub struct DiscoveryResource {
    /// Canonical URL.
    pub url: String,
    /// Resource kind (`http`, `mcp`, ...).
    pub resource_type: String,
    pub description: String,
    pub accepts: Vec<PaymentRequirementsV2>,
    /// Unix seconds.
    pub last_updated: u64,
    /// Provenance, `aggregation:<peer-id>`.
    pub source: String,
    pub metadata: Option<DiscoveryMetadata>,
}

// ---------------------------------------------------------------------------
// Field conversion
// ---------------------------------------------------------------------------

/// A name for what `str::to_lowercase` returns.
pub uninterp spec fn lower_of(s: Seq<char>) -> Seq<char>;

/// Relies on `str::to_lowercase`: the result depends on the characters alone.
#[verifier::external_body]
fn lowercase(s: &str) -> (r: String)
    ensures
        r@ == lower_of(s@),
{
    s.to_lowercase()
}

/// The EVM chain id of a legacy (v1) network name, already lowercased.
pub open spec fn legacy_chain_id(n: Seq<char>) -> Option<u64> {
    if n == "base"@ || n == "base-mainnet"@ {
        Some(8453)
    } else if n == "base-sepolia"@ {
        Some(84532)
    } else if n == "ethereum"@ || n == "mainnet"@ || n == "ethereum-mainnet"@ {
        Some(1)
    } else if n == "sepolia"@ || n == "ethereum-sepolia"@ {
        Some(11155111)
    } else if n == "polygon"@ || n == "polygon-mainnet"@ || n == "matic"@ {
        Some(137)
    } else if n == "polygon-amoy"@ || n == "amoy"@ {
        Some(80002)
    } else if n == "optimism"@ || n == "optimism-mainnet"@ {
        Some(10)
    } else if n == "optimism-sepolia"@ {
        Some(11155420)
    } else if n == "arbitrum"@ || n == "arbitrum-mainnet"@ || n == "arbitrum-one"@ {
        Some(42161)
    } else if n == "arbitrum-sepolia"@ {
        Some(421614)
    } else if n == "avalanche"@ || n == "avalanche-mainnet"@ || n == "avalanche-c-chain"@ {
        Some(43114)
    } else if n == "avalanche-fuji"@ || n == "fuji"@ {
        Some(43113)
    } else if n == "celo"@ || n == "celo-mainnet"@ {
        Some(42220)
    } else if n == "celo-alfajores"@ || n == "alfajores"@ {
        Some(44787)
    } else {
        None
    }
}

/// The EVM chain id of a legacy (v1) network name, already lowercased.
pub fn legacy_network_chain_id(n: &str) -> (r: Option<u64>)
    ensures
        r == legacy_chain_id(n@),
{
    if text_eq(n, "base") || text_eq(n, "base-mainnet") {
        Some(8453)
    } else if text_eq(n, "base-sepolia") {
        Some(84532)
    } else if text_eq(n, "ethereum") || text_eq(n, "mainnet") || text_eq(n, "ethereum-mainnet") {
        Some(1)
    } else if text_eq(n, "sepolia") || text_eq(n, "ethereum-sepolia") {
        Some(11155111)
    } else if text_eq(n, "polygon") || text_eq(n, "polygon-mainnet") || text_eq(n, "matic") {
        Some(137)
    } else if text_eq(n, "polygon-amoy") || text_eq(n, "amoy") {
        Some(80002)
    } else if text_eq(n, "optimism") || text_eq(n, "optimism-mainnet") {
        Some(10)
    } else if text_eq(n, "optimism-sepolia") {
        Some(11155420)
    } else if text_eq(n, "arbitrum") || text_eq(n, "arbitrum-mainnet") || text_eq(n, "arbitrum-one") {
        Some(42161)
    } else if text_eq(n, "arbitrum-sepolia") {
        Some(421614)
    } else if text_eq(n, "avalanche") || text_eq(n, "avalanche-mainnet") || text_eq(n, "avalanche-c-chain") {
        Some(43114)
    } else if text_eq(n, "avalanche-fuji") || text_eq(n, "fuji") {
        Some(43113)
    } else if text_eq(n, "celo") || text_eq(n, "celo-mainnet") {
        Some(42220)
    } else if text_eq(n, "celo-alfajores") || text_eq(n, "alfajores") {
        Some(44787)
    } else {
        None
    }
}


/// Whether `s` starts with `eip155:`.
pub open spec fn has_eip155_prefix(s: Seq<char>) -> bool {
    s.len() >= 7 && s.subrange(0, 7) == "eip155:"@
}

/// The chain id named by `network`, given its lowercased form `lowered`: a
/// legacy name, else an `eip155:<id>` identifier, else a bare integer.
pub open spec fn network_chain_id(network: Seq<char>, lowered: Seq<char>) -> Option<u64> {
    match legacy_chain_id(lowered) {
        Some(id) => Some(id),
        None => if has_eip155_prefix(network) {
            parse_u64_spec(network.subrange(7, network.len() as int))
        } else {
            parse_u64_spec(network)
        },
    }
}

/// The chain id named by `network`, given its lowercased form `lowered`.
pub fn network_chain_id_with(network: &str, lowered: &str) -> (r: Option<u64>)
    ensures
        r == network_chain_id(network@, lowered@),
{
    if let Some(id) = legacy_network_chain_id(lowered) {
        return Some(id);
    }
    let mut cs = chars_of(network);
    proof {
        reveal_strlit("eip155:");
    }
    if cs.len() >= 7 && cs[0] == 'e' && cs[1] == 'i' && cs[2] == 'p' && cs[3] == '1' && cs[4] == '5'
        && cs[5] == '5' && cs[6] == ':' {
        assert(cs@.subrange(0, 7) =~= "eip155:"@);
        let tail = cs.split_off(7);
        parse_unsigned(tail.as_slice(), 18446744073709551615u64)
    } else {
        assert(!has_eip155_prefix(network@)) by {
            if network@.len() >= 7 && network@.subrange(0, 7) == "eip155:"@ {
                assert(network@.subrange(0, 7)[0] == 'e');
                assert(network@.subrange(0, 7)[1] == 'i');
                assert(network@.subrange(0, 7)[2] == 'p');
                assert(network@.subrange(0, 7)[3] == '1');
                assert(network@.subrange(0, 7)[4] == '5');
                assert(network@.subrange(0, 7)[5] == '5');
                assert(network@.subrange(0, 7)[6] == ':');
            }
        }
        parse_unsigned(cs.as_slice(), 18446744073709551615u64)
    }
}

/// The value of a hexadecimal digit of either case.
pub open spec fn hex_value(c: char) -> Option<u8> {
    if '0' <= c && c <= '9' {
        Some((c as u32 - 48) as u8)
    } else if 'a' <= c && c <= 'f' {
        Some((c as u32 - 87) as u8)
    } else if 'A' <= c && c <= 'F' {
        Some((c as u32 - 55) as u8)
    } else {
        None
    }
}

/// The bytes of a run of hexadecimal digit pairs, high nibble first.
pub open spec fn hex_decode(t: Seq<char>) -> Option<Seq<u8>>
    decreases t.len(),
{
    if t.len() == 0 {
        Some(Seq::empty())
    } else if t.len() == 1 {
        None
    } else {
        match (hex_decode(t.subrange(0, t.len() - 2)), hex_value(t[t.len() - 2]), hex_value(t.last())) {
            (Some(p), Some(h), Some(l)) => Some(p.push((h * 16 + l) as u8)),
            _ => None,
        }
    }
}

/// The 20 bytes of an EVM address written `0x` followed by 40 hex digits.
pub open spec fn evm_address_of(s: Seq<char>) -> Option<Seq<u8>> {
    if s.len() == 42 && s[0] == '0' && s[1] == 'x' {
        hex_decode(s.subrange(2, 42))
    } else {
        None
    }
}

/// Relies on alloy's `Address: FromStr` (const-hex `decode_to_array`): an
/// optional `0x`/`0X` prefix and exactly 40 hexadecimal digits of either case
/// decode to the 20 bytes they spell; anything else is refused.
#[verifier::external_body]
pub(crate) fn evm_address_from_text(s: &str) -> (r: Option<Vec<u8>>)
    ensures
        match r {
            Some(v) => crate::erc8004::evm_address_text(s@) == Some(v@),
            None => crate::erc8004::evm_address_text(s@) is None,
        },
{
    s.parse::<alloy::primitives::Address>().ok().map(|a| a.to_vec())
}

/// A name for what alloy's `U256: FromStr` returns, as 32 big-endian bytes.
pub uninterp spec fn u256_parsed(s: Seq<char>) -> Option<Seq<u8>>;

/// Relies on alloy's `U256: FromStr` (decimal, or `0x`/`0o`/`0b` prefixed)
/// and `to_be_bytes::<32>`.
#[verifier::external_body]
fn parse_u256(s: &str) -> (r: Option<Vec<u8>>)
    ensures
        match r {
            Some(v) => u256_parsed(s@) == Some(v@) && v@.len() == 32,
            None => u256_parsed(s@) is None,
        },
{
    s.parse::<alloy::primitives::U256>().ok().map(|v| v.to_be_bytes::<32>().to_vec())
}

/// The amount of a requirement: its text parsed as a 256-bit integer,
/// absent meaning `0`, unparsable meaning zero.
pub open spec fn amount_bytes(amount: Option<String>) -> Seq<u8> {
    let text = match amount {
        Some(s) => s@,
        None => "0"@,
    };
    match u256_parsed(text) {
        Some(b) => b,
        None => Seq::new(32, |i: int| 0u8),
    }
}

/// A name for the canonical serialisation of a URL that `url::Url::parse` accepts.
pub uninterp spec fn url_parsed(s: Seq<char>) -> Option<Seq<char>>;

/// Relies on `url::Url::parse` and the parsed URL's serialisation.
#[verifier::external_body]
fn parse_url(s: &str) -> (r: Option<String>)
    ensures
        match r {
            Some(u) => url_parsed(s@) == Some(u@),
            None => url_parsed(s@) is None,
        },
{
    url::Url::parse(s).ok().map(|u| u.to_string())
}

/// The EVM address bytes of an address (empty for other chains).
pub open spec fn evm_bytes(a: MixedAddress) -> Seq<u8> {
    match a {
        MixedAddress::Evm(e) => e.bytes@,
        _ => Seq::empty(),
    }
}

/// The chain id, asset, amount, pay-to and timeout that a peer requirement
/// converts to, or `None` when it is dropped.
pub open spec fn converted_requirement(req: CoinbasePaymentRequirement) -> Option<
    (u64, Seq<u8>, Seq<u8>, Seq<u8>, u64),
> {
    match (req.network, req.asset, req.pay_to) {
        (Some(n), Some(a), Some(p)) => match (
            network_chain_id(n@, lower_of(n@)),
            evm_address_of(a@),
            evm_address_of(p@),
        ) {
            (Some(id), Some(asset), Some(pay_to)) => Some(
                (
                    id,
                    asset,
                    amount_bytes(req.amount),
                    pay_to,
                    match req.max_timeout_seconds {
                        Some(t) => t,
                        None => 300,
                    },
                ),
            ),
            _ => None,
        },
        _ => None,
    }
}

/// The same five fields of a v2 requirement.
pub open spec fn requirement_fields(p: PaymentRequirementsV2) -> (u64, Seq<u8>, Seq<u8>, Seq<u8>, u64) {
    (p.network.chain_id, evm_bytes(p.asset), p.amount.be_bytes@, evm_bytes(p.pay_to), p.max_timeout_seconds)
}

/// Whether `p` is the conversion `fields` of a peer requirement.
pub open spec fn is_converted_requirement(p: PaymentRequirementsV2, fields: (u64, Seq<u8>, Seq<u8>, Seq<u8>, u64)) -> bool {
    &&& requirement_fields(p) == fields
    &&& p.asset is Evm
    &&& p.pay_to is Evm
    &&& p.asset.wf()
    &&& p.pay_to.wf()
    &&& p.amount.wf()
    &&& p.scheme == Scheme::Exact
    &&& p.extra is None
}

/// The conversions of those requirements of `reqs` that are kept, in order.
pub open spec fn converted_requirements(reqs: Seq<CoinbasePaymentRequirement>) -> Seq<
    (u64, Seq<u8>, Seq<u8>, Seq<u8>, u64),
>
    decreases reqs.len(),
{
    if reqs.len() == 0 {
        Seq::empty()
    } else {
        let p = converted_requirements(reqs.drop_last());
        match converted_requirement(reqs.last()) {
            Some(f) => p.push(f),
            None => p,
        }
    }
}

/// The text of an optional string.
pub open spec fn opt_text(o: Option<String>) -> Option<Seq<char>> {
    match o {
        Some(s) => Some(s@),
        None => None,
    }
}

/// Whether `out` is the conversion of peer resource `cb` from peer `peer_id`
/// at time `now`.
pub open spec fn converts_to(cb: CoinbaseResource, peer_id: Seq<char>, now: u64, out: DiscoveryResource) -> bool {
    &&& url_parsed(cb.url@) == Some(out.url@)
    &&& out.resource_type@ == match cb.resource_type {
        Some(t) => t@,
        None => "http"@,
    }
    &&& out.description@ == match cb.description {
        Some(d) => d@,
        None => Seq::<char>::empty(),
    }
    &&& out.accepts@.len() == converted_requirements(cb.accepts@).len()
    &&& forall|i: int|
        0 <= i < out.accepts@.len() ==> is_converted_requirement(
            #[trigger] out.accepts@[i],
            converted_requirements(cb.accepts@)[i],
        )
    &&& out.last_updated == match cb.last_updated {
        Some(t) => t,
        None => now,
    }
    &&& out.source@ == "aggregation:"@ + peer_id
    &&& match cb.metadata {
        Some(m) => out.metadata matches Some(dm) && opt_text(dm.category) == opt_text(m.category)
            && opt_text(dm.provider) == opt_text(m.provider) && dm.tags@ == m.tags@,
        None => out.metadata is None,
    }
}

/// Whether `outs` are the conversions of the resources of `ins` whose URL
/// parses, in order; the others are skipped.
pub open spec fn converted_all(ins: Seq<CoinbaseResource>, peer_id: Seq<char>, now: u64, outs: Seq<DiscoveryResource>) -> bool
    decreases ins.len(),
{
    if ins.len() == 0 {
        outs.len() == 0
    } else if url_parsed(ins.last().url@) is None {
        converted_all(ins.drop_last(), peer_id, now, outs)
    } else {
        outs.len() > 0 && converts_to(ins.last(), peer_id, now, outs.last())
            && converted_all(ins.drop_last(), peer_id, now, outs.drop_last())
    }
}

/// The offset of the next page, or `None` when the peer is exhausted: a
/// short batch, or an offset that reaches the announced total (absent total
/// counting as zero).
pub open spec fn next_offset(offset: u32, batch_count: usize, total: Option<u32>) -> Option<u32> {
    let next = offset + batch_count;
    let t = match total {
        Some(t) => t,
        None => 0,
    };
    if batch_count < 100 || next >= t {
        None
    } else {
        Some(next as u32)
    }
}

/// Page size of a catalog request.
pub const PAGE_LIMIT: u32 = 100;

/// Decides whether another page is fetched after a batch of `batch_count`
/// items at `offset`, given the announced pagination.
pub fn next_page_offset(offset: u32, batch_count: usize, pagination: Option<CoinbasePagination>) -> (r: Option<u32>)
    ensures
        r == next_offset(
            offset,
            batch_count,
            match pagination {
                Some(p) => p.total,
                None => None,
            },
        ),
{
    let total: u32 = match pagination {
        Some(p) => match p.total {
            Some(t) => t,
            None => 0,
        },
        None => 0,
    };
    let next: u128 = offset as u128 + batch_count as u128;
    if batch_count < 100 || next >= total as u128 {
        None
    } else {
        Some(next as u32)
    }
}

/// The URL of one catalog page: `{discovery_url}?limit=100&offset={offset}`.
pub fn page_url(config: &FacilitatorConfig, offset: u32) -> (r: String)
    ensures
        r@ == config.discovery_url@ + "?limit=100&offset="@ + decimal(offset as nat),
{
    let mut out: Vec<char> = Vec::new();
    push_str(&mut out, config.discovery_url.as_str());
    push_str(&mut out, "?limit=100&offset=");
    push_decimal(&mut out, offset as u64);
    string_of(&out)
}

fn copy_text(o: &Option<String>) -> (r: Option<String>)
    ensures
        r == *o,
{
    match o {
        Some(s) => Some(s.clone()),
        None => None,
    }
}

/// The aggregator's peer list; the HTTP client that polls them is held by
/// the caller.
#[derive(Debug, Clone)]
pub struct DiscoveryAggregator {
    pub facilitators: Vec<FacilitatorConfig>,
}

impl Default for DiscoveryAggregator {
    fn default() -> (r: Self)
        ensures
            known_peers(r.facilitators@),
    {
        DiscoveryAggregator::new()
    }
}

impl DiscoveryAggregator {
    /// An aggregator over all known peers.
    pub fn new() -> (r: Self)
        ensures
            known_peers(r.facilitators@),
    {
        DiscoveryAggregator { facilitators: FacilitatorConfig::all() }
    }

    /// An aggregator over the given peers.
    pub fn with_facilitators(facilitators: Vec<FacilitatorConfig>) -> (r: Self)
        ensures
            r.facilitators == facilitators,
    {
        DiscoveryAggregator { facilitators }
    }

    /// The peers that are polled, in order.
    pub fn enabled_facilitators(&self) -> (r: Vec<FacilitatorConfig>)
        ensures
            r@ == self.facilitators@.filter(|c: FacilitatorConfig| c.enabled),
    {
        let mut out: Vec<FacilitatorConfig> = Vec::new();
        let mut i: usize = 0;
        while i < self.facilitators.len()
            invariant
                0 <= i <= self.facilitators@.len(),
                out@ == self.facilitators@.subrange(0, i as int).filter(|c: FacilitatorConfig| c.enabled),
            decreases self.facilitators@.len() - i,
        {
            proof {
                let s = self.facilitators@.subrange(0, i + 1);
                assert(s.drop_last() =~= self.facilitators@.subrange(0, i as int));
                reveal(Seq::filter);
            }
            if self.facilitators[i].enabled {
                out.push(self.facilitators[i].copy());
            }
            i = i + 1;
        }
        assert(self.facilitators@.subrange(0, self.facilitators@.len() as int) =~= self.facilitators@);
        out
    }

    /// The CAIP-2 identifier of a network name: a legacy name (any case), an
    /// `eip155:<id>` identifier, or a bare integer chain id; `None` otherwise.
    pub fn parse_network_to_caip2(&self, network: &str) -> (r: Option<Caip2NetworkId>)
        ensures
            match network_chain_id(network@, lower_of(network@)) {
                Some(id) => r == Some(Caip2NetworkId { chain_id: id }),
                None => r is None,
            },
    {
        let lowered = lowercase(network);
        match network_chain_id_with(network, lowered.as_str()) {
            Some(id) => Some(Caip2NetworkId::eip155(id)),
            None => None,
        }
    }

    /// An EVM address written `0x` and 40 hex digits; `None` for anything else.
    pub fn parse_address(&self, addr: &str) -> (r: Option<MixedAddress>)
        ensures
            match evm_address_of(addr@) {
                Some(b) => r matches Some(MixedAddress::Evm(e)) && e.bytes@ == b && b.len() == 20,
                None => r is None,
            },
    {
        let cs = chars_of(addr);
        if cs.len() == 42 && cs[0] == '0' && cs[1] == 'x' {
            proof {
                assert(crate::erc8004::strip_0x(addr@) =~= addr@.subrange(2, 42));
            }
            match evm_address_from_text(addr) {
                Some(bytes) => {
                    proof {
                        lemma_hex_decode_len(addr@.subrange(2, 42));
                    }
                    Some(MixedAddress::Evm(EvmAddress { bytes }))
                },
                None => None,
            }
        } else {
            None
        }
    }

    /// Converts a peer requirement; it is dropped when the network, asset or
    /// pay-to is missing or unrecognised.
    pub fn convert_payment_requirement(&self, req: &CoinbasePaymentRequirement) -> (r: Option<PaymentRequirementsV2>)
        ensures
            match converted_requirement(*req) {
                Some(f) => r matches Some(p) && is_converted_requirement(p, f),
                None => r is None,
            },
    {
        let network_str = match &req.network {
            Some(n) => n,
            None => {
                return None;
            },
        };
        let network = match self.parse_network_to_caip2(network_str.as_str()) {
            Some(n) => n,
            None => {
                return None;
            },
        };
        let asset_str = match &req.asset {
            Some(a) => a,
            None => {
                return None;
            },
        };
        let asset = match self.parse_address(asset_str.as_str()) {
            Some(a) => a,
            None => {
                return None;
            },
        };
        let pay_to_str = match &req.pay_to {
            Some(p) => p,
            None => {
                return None;
            },
        };
        let pay_to = match self.parse_address(pay_to_str.as_str()) {
            Some(p) => p,
            None => {
                return None;
            },
        };
        let parsed = match &req.amount {
            Some(s) => parse_u256(s.as_str()),
            None => parse_u256("0"),
        };
        let amount = match parsed {
            Some(b) => TokenAmount { be_bytes: b },
            None => TokenAmount::zero(),
        };
        let max_timeout_seconds: u64 = match req.max_timeout_seconds {
            Some(t) => t,
            None => 300,
        };
        Some(PaymentRequirementsV2 {
            scheme: Scheme::Exact,
            network,
            asset,
            amount,
            pay_to,
            max_timeout_seconds,
            extra: None,
        })
    }
}

proof fn lemma_hex_decode_len(t: Seq<char>)
    ensures
        hex_decode(t) matches Some(b) ==> 2 * b.len() == t.len(),
    decreases t.len(),
{
    if t.len() >= 2 {
        lemma_hex_decode_len(t.subrange(0, t.len() - 2));
    }
}

} // verus!

verus! {

/// `aggregation:<peer_id>`.
pub open spec fn aggregation_source(peer_id: Seq<char>) -> Seq<char> {
    "aggregation:"@ + peer_id
}

/// The first of the decoded shapes that succeeded, as its items and
/// pagination (a bare array has none); `None` when no shape matched.
pub open spec fn selected_shape(shapes: DiscoveryShapes) -> Option<(Vec<CoinbaseResource>, Option<CoinbasePagination>)> {
    match shapes.standard {
        Some(r) => Some((r.items, r.pagination)),
        None => match shapes.wrapped {
            Some(w) => Some((w.data.items, w.data.pagination)),
            None => match shapes.alternative {
                Some(a) => Some((a.resources, a.pagination)),
                None => match shapes.array {
                    Some(v) => Some((v, None)),
                    None => None,
                },
            },
        },
    }
}

impl DiscoveryAggregator {
    fn convert_requirements(&self, reqs: &Vec<CoinbasePaymentRequirement>) -> (r: Vec<PaymentRequirementsV2>)
        ensures
            r@.len() == converted_requirements(reqs@).len(),
            forall|i: int|
                0 <= i < r@.len() ==> is_converted_requirement(
                    #[trigger] r@[i],
                    converted_requirements(reqs@)[i],
                ),
    {
        let mut out: Vec<PaymentRequirementsV2> = Vec::new();
        let mut i: usize = 0;
        while i < reqs.len()
            invariant
                0 <= i <= reqs@.len(),
                out@.len() == converted_requirements(reqs@.subrange(0, i as int)).len(),
                forall|j: int|
                    0 <= j < out@.len() ==> is_converted_requirement(
                        #[trigger] out@[j],
                        converted_requirements(reqs@.subrange(0, i as int))[j],
                    ),
            decreases reqs@.len() - i,
        {
            assert(reqs@.subrange(0, i + 1).drop_last() =~= reqs@.subrange(0, i as int));
            if let Some(p) = self.convert_payment_requirement(&reqs[i]) {
                out.push(p);
            }
            i = i + 1;
        }
        assert(reqs@.subrange(0, reqs@.len() as int) =~= reqs@);
        out
    }

    /// Converts one peer resource into a canonical record whose source is
    /// `aggregation:<peer_id>`; `now` stands in for a missing `last_updated`.
    /// Fails only when the URL does not parse; requirements that do not
    /// convert are dropped.
    pub fn convert_single_resource(&self, cb: &CoinbaseResource, facilitator_id: &str, now: u64) -> (r: Result<
        DiscoveryResource,
        AggregatorError,
    >)
        ensures
            match url_parsed(cb.url@) {
                Some(_) => r matches Ok(out) && converts_to(*cb, facilitator_id@, now, out),
                None => r matches Err(AggregatorError::InvalidUrl(_)),
            },
    {
        let url = match parse_url(cb.url.as_str()) {
            Some(u) => u,
            None => {
                let mut msg: Vec<char> = Vec::new();
                push_str(&mut msg, "invalid URL: ");
                push_str(&mut msg, cb.url.as_str());
                return Err(AggregatorError::InvalidUrl(string_of(&msg)));
            },
        };
        let accepts = self.convert_requirements(&cb.accepts);
        let last_updated: u64 = match cb.last_updated {
            Some(t) => t,
            None => now,
        };
        let resource_type = match &cb.resource_type {
            Some(t) => t.clone(),
            None => String::from_str("http"),
        };
        let description = match &cb.description {
            Some(d) => d.clone(),
            None => String::new(),
        };
        let mut source: Vec<char> = Vec::new();
        push_str(&mut source, "aggregation:");
        push_str(&mut source, facilitator_id);
        let metadata = match &cb.metadata {
            Some(m) => {
                let tags = m.tags.clone();
                assert(tags@ =~= m.tags@);
                Some(DiscoveryMetadata { category: copy_text(&m.category), provider: copy_text(&m.provider), tags })
            },
            None => None,
        };
        proof {
            reveal_strlit("http");
            reveal_strlit("aggregation:");
        }
        Ok(DiscoveryResource {
            url,
            resource_type,
            description,
            accepts,
            last_updated,
            source: string_of(&source),
            metadata,
        })
    }

    /// Converts a batch of peer resources, skipping those whose URL does not
    /// parse and keeping the order of the others.
    pub fn convert_coinbase_resources(&self, resources: &Vec<CoinbaseResource>, facilitator_id: &str, now: u64) -> (r: Vec<
        DiscoveryResource,
    >)
        ensures
            converted_all(resources@, facilitator_id@, now, r@),
    {
        let mut out: Vec<DiscoveryResource> = Vec::new();
        let mut i: usize = 0;
        while i < resources.len()
            invariant
                0 <= i <= resources@.len(),
                converted_all(resources@.subrange(0, i as int), facilitator_id@, now, out@),
            decreases resources@.len() - i,
        {
            let ghost before = out@;
            assert(resources@.subrange(0, i + 1).drop_last() =~= resources@.subrange(0, i as int));
            match self.convert_single_resource(&resources[i], facilitator_id, now) {
                Ok(res) => {
                    out.push(res);
                    assert(out@.drop_last() =~= before);
                },
                Err(_) => {},
            }
            i = i + 1;
        }
        assert(resources@.subrange(0, resources@.len() as int) =~= resources@);
        out
    }

    /// Picks the first response shape that decoded from `body` (standard,
    /// wrapped, alternative, bare array); a body that matched none is a parse
    /// error naming the peer and quoting at most 500 bytes of the body.
    pub fn parse_discovery_response(&self, body: &str, shapes: DiscoveryShapes, facilitator_id: &str) -> (r: Result<
        (Vec<CoinbaseResource>, Option<CoinbasePagination>),
        AggregatorError,
    >)
        ensures
            match selected_shape(shapes) {
                Some(sel) => r == Ok::<_, AggregatorError>(sel),
                None => r matches Err(AggregatorError::ParseError(m)) && m@ == parse_error_message(facilitator_id@, body@),
            },
    {
        if let Some(parsed) = shapes.standard {
            return Ok((parsed.items, parsed.pagination));
        }
        if let Some(parsed) = shapes.wrapped {
            return Ok((parsed.data.items, parsed.data.pagination));
        }
        if let Some(parsed) = shapes.alternative {
            return Ok((parsed.resources, parsed.pagination));
        }
        if let Some(resources) = shapes.array {
            return Ok((resources, None));
        }
        let cs = chars_of(body);
        let n = preview_len(&cs, 500);
        let mut msg: Vec<char> = Vec::new();
        push_str(&mut msg, "Unknown response format from ");
        push_str(&mut msg, facilitator_id);
        push_str(&mut msg, ": ");
        let mut i: usize = 0;
        while i < n
            invariant
                n <= cs@.len(),
                i <= n,
                msg@ == "Unknown response format from "@ + facilitator_id@ + ": "@ + cs@.take(i as int),
            decreases n - i,
        {
            msg.push(cs[i]);
            i = i + 1;
            assert(msg@ =~= "Unknown response format from "@ + facilitator_id@ + ": "@ + cs@.take(i as int));
        }
        proof {
            reveal_strlit("Unknown response format from ");
            reveal_strlit(": ");
        }
        Err(AggregatorError::ParseError(string_of(&msg)))
    }
}

/// The number of bytes of `c` in UTF-8.
pub open spec fn utf8_width(c: char) -> int {
    if (c as u32) < 0x80 {
        1
    } else if (c as u32) < 0x800 {
        2
    } else if (c as u32) < 0x10000 {
        3
    } else {
        4
    }
}

/// How many leading characters of `s` fit in `budget` bytes of UTF-8: the
/// longest prefix that does not split a character.
pub open spec fn fitting_prefix(s: Seq<char>, budget: int) -> int
    decreases s.len(),
{
    if s.len() == 0 || utf8_width(s[0]) > budget {
        0
    } else {
        1 + fitting_prefix(s.drop_first(), budget - utf8_width(s[0]))
    }
}

/// The message of a body that matched no shape: the peer and the longest
/// prefix of the body within 500 bytes.
pub open spec fn parse_error_message(peer_id: Seq<char>, body: Seq<char>) -> Seq<char> {
    "Unknown response format from "@ + peer_id + ": "@ + body.take(fitting_prefix(body, 500))
}

proof fn lemma_fitting_prefix_bounds(s: Seq<char>, budget: int)
    ensures
        0 <= fitting_prefix(s, budget) <= s.len(),
    decreases s.len(),
{
    if s.len() > 0 {
        lemma_fitting_prefix_bounds(s.drop_first(), budget - utf8_width(s[0]));
    }
}

fn preview_len(cs: &Vec<char>, budget: u64) -> (n: usize)
    ensures
        n as int == fitting_prefix(cs@, budget as int),
        n <= cs@.len(),
{
    let mut i: usize = 0;
    let mut left: u64 = budget;
    proof {
        lemma_fitting_prefix_bounds(cs@, budget as int);
        assert(cs@.skip(0) =~= cs@);
    }
    while i < cs.len()
        invariant
            i <= cs@.len(),
            left <= budget,
            fitting_prefix(cs@, budget as int) == i + fitting_prefix(cs@.skip(i as int), left as int),
        decreases cs@.len() - i,
    {
        let c = cs[i];
        let w: u64 = if (c as u32) < 0x80 {
            1
        } else if (c as u32) < 0x800 {
            2
        } else if (c as u32) < 0x10000 {
            3
        } else {
            4
        };
        assert(cs@.skip(i as int)[0] == c);
        if w > left {
            return i;
        }
        assert(cs@.skip(i as int).drop_first() =~= cs@.skip(i + 1));
        left = left - w;
        i = i + 1;
    }
    assert(cs@.skip(i as int).len() == 0);
    i
}

/// Every decodable body yields a batch: whichever of the four shapes decoded,
/// shape selection succeeds with that shape's items.
pub proof fn lemma_shape_selection_total(shapes: DiscoveryShapes)
    requires
        shapes.standard is Some || shapes.wrapped is Some || shapes.alternative is Some
            || shapes.array is Some,
    ensures
        selected_shape(shapes) is Some,
        shapes.standard matches Some(s) ==> selected_shape(shapes) == Some((s.items, s.pagination)),
{
}

} // verus!

verus! {

/// Fractional seconds are discarded, not rounded: a timestamp with a
/// fraction reads as the same whole second without it.
pub proof fn lemma_fraction_discarded(base: Seq<char>, frac: Seq<char>)
    requires
        forall|i: int| 0 <= i < base.len() ==> base[i] != '.',
        base.len() == 0 || base.last() != 'Z',
        crate::text::all_digits(frac),
    ensures
        iso8601_to_unix(base + seq!['.'] + frac + seq!['Z']) == iso8601_to_unix(base + seq!['Z']),
{
    let with_frac = base + seq!['.'] + frac;
    assert((with_frac + seq!['Z']).drop_last() =~= with_frac);
    assert((base + seq!['Z']).drop_last() =~= base);
    if frac.len() > 0 {
        assert(with_frac.last() == frac.last());
        assert(crate::text::is_digit(frac[frac.len() - 1]));
    }
    assert(trim_end_z(with_frac) == with_frac);
    assert(trim_end_z(with_frac + seq!['Z']) == trim_end_z(with_frac));
    assert(trim_end_z(base) == base);
    assert(trim_end_z(base + seq!['Z']) == trim_end_z(base));
    crate::text::lemma_split_no_sep(base, '.');
    let s = base + seq!['.'];
    assert(s.drop_last() =~= base);
    assert(split(s, '.') == split(base, '.').push(Seq::<char>::empty()));
    crate::text::lemma_split_first_fixed(s, frac, '.');
    assert(s + frac =~= with_frac);
}

} // verus!

verus! {

/// Whether every resource of `ins` has a URL that parses.
pub open spec fn all_urls_parse(ins: Seq<CoinbaseResource>) -> bool {
    forall|i: int| 0 <= i < ins.len() ==> url_parsed(#[trigger] ins[i].url@) is Some
}

proof fn lemma_converted_all_len(ins: Seq<CoinbaseResource>, peer_id: Seq<char>, now: u64, outs: Seq<DiscoveryResource>)
    requires
        converted_all(ins, peer_id, now, outs),
        all_urls_parse(ins),
    ensures
        outs.len() == ins.len(),
    decreases ins.len(),
{
    if ins.len() > 0 {
        assert(url_parsed(ins[ins.len() - 1].url@) is Some);
        lemma_converted_all_len(ins.drop_last(), peer_id, now, outs.drop_last());
    }
}

proof fn lemma_converted_all_concat(
    a: Seq<CoinbaseResource>,
    b: Seq<CoinbaseResource>,
    peer_id: Seq<char>,
    now: u64,
    oa: Seq<DiscoveryResource>,
    ob: Seq<DiscoveryResource>,
)
    requires
        converted_all(a, peer_id, now, oa),
        converted_all(b, peer_id, now, ob),
    ensures
        converted_all(a + b, peer_id, now, oa + ob),
    decreases b.len(),
{
    if b.len() == 0 {
        assert(a + b =~= a);
        assert(oa + ob =~= oa);
    } else {
        assert((a + b).drop_last() =~= a + b.drop_last());
        assert((a + b).last() == b.last());
        if url_parsed(b.last().url@) is None {
            lemma_converted_all_concat(a, b.drop_last(), peer_id, now, oa, ob);
        } else {
            lemma_converted_all_concat(a, b.drop_last(), peer_id, now, oa, ob.drop_last());
            assert((oa + ob).drop_last() =~= oa + ob.drop_last());
            assert((oa + ob).last() == ob.last());
        }
    }
}

/// Pagination over a peer announcing 150 resources: a full first page of
/// 100 leads to a second request at offset 100, a second page of 50 ends the
/// peer, and the two converted pages together are the 150 resources of both
/// batches in order.
pub proof fn lemma_two_page_catalog(
    page1: Seq<CoinbaseResource>,
    page2: Seq<CoinbaseResource>,
    peer_id: Seq<char>,
    now: u64,
    out1: Seq<DiscoveryResource>,
    out2: Seq<DiscoveryResource>,
)
    requires
        page1.len() == 100,
        page2.len() == 50,
        all_urls_parse(page1),
        all_urls_parse(page2),
        converted_all(page1, peer_id, now, out1),
        converted_all(page2, peer_id, now, out2),
    ensures
        next_offset(0, 100, Some(150u32)) == Some(100u32),
        next_offset(100, 50, Some(150u32)) is None,
        converted_all(page1 + page2, peer_id, now, out1 + out2),
        (out1 + out2).len() == 150,
{
    lemma_converted_all_len(page1, peer_id, now, out1);
    lemma_converted_all_len(page2, peer_id, now, out2);
    lemma_converted_all_concat(page1, page2, peer_id, now, out1, out2);
}

} // verus!

verus! {

/// A run of decimal digits whose value fits in `u32`.
pub open spec fn u32_field(s: Seq<char>) -> bool {
    s.len() > 0 && crate::text::all_digits(s) && crate::text::digits_value(s) <= u32::MAX
}

proof fn lemma_no_char_in_digits(s: Seq<char>, c: char)
    requires
        crate::text::all_digits(s),
        !crate::text::is_digit(c),
    ensures
        forall|i: int| 0 <= i < s.len() ==> s[i] != c,
{
    assert forall|i: int| 0 <= i < s.len() implies s[i] != c by {
        assert(crate::text::is_digit(s[i]));
    }
}

proof fn lemma_three_fields(a: Seq<char>, b: Seq<char>, c: Seq<char>, sep: char)
    requires
        u32_field(a),
        u32_field(b),
        u32_field(c),
        !crate::text::is_digit(sep),
        sep != '.',
        sep != 'T',
    ensures
        parsed_parts(split(a + seq![sep] + b + seq![sep] + c, sep)) == seq![
            crate::text::digits_value(a) as u32,
            crate::text::digits_value(b) as u32,
            crate::text::digits_value(c) as u32,
        ],
        forall|i: int|
            0 <= i < (a + seq![sep] + b + seq![sep] + c).len() ==> (a + seq![sep] + b + seq![sep] + c)[i] != '.'
                && (a + seq![sep] + b + seq![sep] + c)[i] != 'T',
{
    lemma_no_char_in_digits(a, sep);
    lemma_no_char_in_digits(b, sep);
    lemma_no_char_in_digits(c, sep);
    crate::text::lemma_split_no_sep(a, sep);
    crate::text::lemma_split_no_sep(b, sep);
    crate::text::lemma_split_no_sep(c, sep);
    crate::text::lemma_split_concat(a, b, sep);
    crate::text::lemma_split_concat(a + seq![sep] + b, c, sep);
    let pieces = split(a + seq![sep] + b + seq![sep] + c, sep);
    assert(pieces =~= seq![a, b, c]);
    assert(a[0] != '+' && b[0] != '+' && c[0] != '+') by {
        assert(crate::text::is_digit(a[0]));
        assert(crate::text::is_digit(b[0]));
        assert(crate::text::is_digit(c[0]));
    }
    assert(crate::text::unsigned_digits(a) == a);
    assert(crate::text::unsigned_digits(b) == b);
    assert(crate::text::unsigned_digits(c) == c);
    let va = crate::text::digits_value(a) as u32;
    let vb = crate::text::digits_value(b) as u32;
    let vc = crate::text::digits_value(c) as u32;
    assert(crate::text::parse_u32_spec(a) == Some(va));
    assert(crate::text::parse_u32_spec(b) == Some(vb));
    assert(crate::text::parse_u32_spec(c) == Some(vc));
    let p0 = Seq::<Seq<char>>::empty();
    let p1 = seq![a];
    let p2 = seq![a, b];
    assert(p1.drop_last() =~= p0);
    assert(p2.drop_last() =~= p1);
    assert(pieces.drop_last() =~= p2);
    assert(parsed_parts(p0) == Seq::<u32>::empty());
    assert(parsed_parts(p1) == seq![va]);
    assert(parsed_parts(p2) =~= seq![va, vb]);
    assert(parsed_parts(pieces) =~= seq![va, vb, vc]);
    let s = a + seq![sep] + b + seq![sep] + c;
    assert forall|i: int| 0 <= i < s.len() implies s[i] != '.' && s[i] != 'T' by {
        if i < a.len() {
            assert(s[i] == a[i]);
            assert(crate::text::is_digit(a[i]));
        } else if i == a.len() {
            assert(s[i] == sep);
        } else if i < a.len() + 1 + b.len() {
            assert(s[i] == b[i - a.len() - 1]);
            assert(crate::text::is_digit(b[i - a.len() - 1]));
        } else if i == a.len() + 1 + b.len() {
            assert(s[i] == sep);
        } else {
            assert(s[i] == c[i - a.len() - 2 - b.len()]);
            assert(crate::text::is_digit(c[i - a.len() - 2 - b.len()]));
        }
    }
}

proof fn lemma_days_nonnegative(year: int, month: int, day: int)
    requires
        year >= 1970,
        1 <= month <= 12,
        1 <= day,
    ensures
        days_from_civil(year, month, day) >= 0,
{
    let y = year - (if month <= 2 { 1int } else { 0int });
    let era = y / 400;
    let yoe = y - era * 400;
    assert(era >= 4);
    assert(0 <= yoe < 400);
    assert(yoe / 4 >= yoe / 100);
    if era == 4 {
        assert(yoe >= 369);
        if yoe == 369 {
            assert(month <= 2);
        }
    }
}

/// Any timestamp `Y-MO-DDTHH:MM:SS` (fields of decimal digits, any padding)
/// with an optional fraction and a closing `Z` reads as the Unix seconds of
/// that date and time, from 1970 on; the fraction is dropped, so the result is
/// the floor of the instant.
pub proof fn lemma_iso8601_value(
    y: Seq<char>,
    mo: Seq<char>,
    d: Seq<char>,
    h: Seq<char>,
    mi: Seq<char>,
    se: Seq<char>,
    frac: Seq<char>,
)
    requires
        u32_field(y),
        u32_field(mo),
        u32_field(d),
        u32_field(h),
        u32_field(mi),
        u32_field(se),
        crate::text::digits_value(y) >= 1970,
        1 <= crate::text::digits_value(mo) <= 12,
        1 <= crate::text::digits_value(d) <= 31,
        crate::text::all_digits(frac),
    ensures
        ({
            let base = y + seq!['-'] + mo + seq!['-'] + d + seq!['T'] + h + seq![':'] + mi + seq![':'] + se;
            let secs = (days_from_civil(
                crate::text::digits_value(y) as int,
                crate::text::digits_value(mo) as int,
                crate::text::digits_value(d) as int,
            ) * 86400 + crate::text::digits_value(h) * 3600 + crate::text::digits_value(mi) * 60
                + crate::text::digits_value(se)) as u64;
            &&& iso8601_to_unix(base + seq!['Z']) == Some(secs)
            &&& iso8601_to_unix(base + seq!['.'] + frac + seq!['Z']) == Some(secs)
        }),
{
    let date = y + seq!['-'] + mo + seq!['-'] + d;
    let time = h + seq![':'] + mi + seq![':'] + se;
    let base = y + seq!['-'] + mo + seq!['-'] + d + seq!['T'] + h + seq![':'] + mi + seq![':'] + se;
    assert(base =~= date + seq!['T'] + time);
    lemma_three_fields(y, mo, d, '-');
    lemma_three_fields(h, mi, se, ':');
    crate::text::lemma_split_no_sep(date, 'T');
    crate::text::lemma_split_no_sep(time, 'T');
    crate::text::lemma_split_concat(date, time, 'T');
    assert(split(base, 'T') =~= seq![date, time]);
    assert forall|i: int| 0 <= i < base.len() implies base[i] != '.' by {
        if i < date.len() {
        } else if i == date.len() {
        } else {
            assert(base[i] == time[i - date.len() - 1]);
        }
    }
    assert(base.last() == se.last());
    assert(crate::text::is_digit(se[se.len() - 1]));
    assert((base + seq!['Z']).drop_last() =~= base);
    assert(trim_end_z(base) == base);
    assert(trim_end_z(base + seq!['Z']) == trim_end_z(base));
    crate::text::lemma_split_no_sep(base, '.');
    lemma_days_nonnegative(
        crate::text::digits_value(y) as int,
        crate::text::digits_value(mo) as int,
        crate::text::digits_value(d) as int,
    );
    lemma_fraction_discarded(base, frac);
}

} // verus!
