use x402_rs::discovery_aggregator::{
    decode_flexible_timestamp, next_page_offset, page_url, parse_iso8601_to_unix,
    AggregatorError, AlternativeDiscoveryResponse, Caip2NetworkId, CoinbaseDiscoveryResponse,
    CoinbaseMetadata, CoinbasePagination, CoinbasePaymentRequirement, CoinbaseResource,
    DiscoveryAggregator, DiscoveryShapes, FacilitatorConfig, TimestampToken,
    WrappedDiscoveryResponse,
};
use x402_rs::types::MixedAddress;

const USDC_BASE: &str = "0x833589fCD6eDb6E08f4c7C32D4f71b54bdA02913";
const PAY_TO: &str = "0x209693Bc6afc0C5328bA36FaF03C514EF312287C";

#[test]
fn test_parse_network_to_caip2() {
    let aggregator = DiscoveryAggregator::new();
    assert_eq!(aggregator.parse_network_to_caip2("base").unwrap().to_text(), "eip155:8453");
    assert_eq!(aggregator.parse_network_to_caip2("base-mainnet").unwrap().to_text(), "eip155:8453");
    assert_eq!(aggregator.parse_network_to_caip2("ethereum").unwrap().to_text(), "eip155:1");
    assert_eq!(aggregator.parse_network_to_caip2("polygon").unwrap().to_text(), "eip155:137");
    assert_eq!(aggregator.parse_network_to_caip2("eip155:8453").unwrap().to_text(), "eip155:8453");
}

#[test]
fn network_name_normalization() {
    let aggregator = DiscoveryAggregator::new();
    assert_eq!(aggregator.parse_network_to_caip2("polygon-amoy"), Some(Caip2NetworkId::eip155(80002)));
    assert_eq!(aggregator.parse_network_to_caip2("BASE"), Some(Caip2NetworkId::eip155(8453)));
    assert_eq!(aggregator.parse_network_to_caip2("Avalanche-Fuji"), Some(Caip2NetworkId::eip155(43113)));
    assert_eq!(aggregator.parse_network_to_caip2("42161"), Some(Caip2NetworkId::eip155(42161)));
    assert_eq!(aggregator.parse_network_to_caip2("not-a-chain"), None);
    assert_eq!(aggregator.parse_network_to_caip2("eip155:abc"), None);
}

#[test]
fn test_parse_address() {
    let aggregator = DiscoveryAggregator::new();
    let addr = aggregator.parse_address("0x833589fCD6eDb6E08f4c7C32D4f71b54bdA02913");
    assert!(addr.is_some());
    assert!(matches!(addr.unwrap(), MixedAddress::Evm(_)));
    assert!(aggregator.parse_address("invalid").is_none());
    assert!(aggregator.parse_address("0x123").is_none());
}

#[test]
fn parsed_address_bytes() {
    let aggregator = DiscoveryAggregator::new();
    match aggregator.parse_address(USDC_BASE) {
        Some(MixedAddress::Evm(e)) => {
            assert_eq!(e.bytes.len(), 20);
            assert_eq!(e.bytes[0], 0x83);
            assert_eq!(e.bytes[19], 0x13);
        }
        _ => panic!("not parsed"),
    }
    assert!(aggregator.parse_address("0xZZ3589fCD6eDb6E08f4c7C32D4f71b54bdA02913").is_none());
}

#[test]
fn test_facilitator_config() {
    let config = FacilitatorConfig::coinbase();
    assert_eq!(config.id, "coinbase");
    assert!(config.enabled);
    assert!(config.discovery_url.contains("coinbase"));
}

#[test]
fn test_all_facilitators() {
    let all = FacilitatorConfig::all();
    assert_eq!(all.len(), 12);
    let ids: Vec<&str> = all.iter().map(|f| f.id.as_str()).collect();
    assert!(ids.contains(&"coinbase"));
    assert!(ids.contains(&"payai"));
    assert!(ids.contains(&"thirdweb"));
    assert!(ids.contains(&"questflow"));
    assert!(ids.contains(&"aurracloud"));
    assert!(ids.contains(&"anyspend"));
    assert!(ids.contains(&"openx402"));
    assert!(ids.contains(&"x402rs"));
    assert!(ids.contains(&"heurist"));
    assert!(ids.contains(&"polymer"));
    assert!(ids.contains(&"meridian"));
    assert!(ids.contains(&"virtuals"));
}

#[test]
fn test_parse_iso8601_to_unix() {
    let epoch = parse_iso8601_to_unix("1970-01-01T00:00:00Z").unwrap();
    assert_eq!(epoch, 0);
    let y2k = parse_iso8601_to_unix("2000-01-01T00:00:00Z").unwrap();
    assert_eq!(y2k, 946684800);
    let ts = parse_iso8601_to_unix("2026-01-06T20:22:59.724Z").unwrap();
    assert!(ts > 1700000000);
    assert!(ts < 1800000000);
    let ts2 = parse_iso8601_to_unix("2026-01-06T20:22:59Z").unwrap();
    assert_eq!(ts, ts2);
}

#[test]
fn iso8601_exact_values_and_errors() {
    assert_eq!(parse_iso8601_to_unix("2026-01-06T20:22:59Z"), Ok(1767730979));
    assert_eq!(parse_iso8601_to_unix("2024-02-29T12:00:00Z"), Ok(1709208000));
    assert_eq!(parse_iso8601_to_unix("2026-01-06T20:22:59"), Ok(1767730979));
    assert!(parse_iso8601_to_unix("2026-01-06 20:22:59Z").is_err());
    assert!(parse_iso8601_to_unix("2026-13-06T20:22:59Z").is_err());
    assert!(parse_iso8601_to_unix("1969-12-31T23:59:59Z").is_err());
    assert!(parse_iso8601_to_unix("2026-01-06T20:22Z").is_err());
}

#[test]
fn test_deserialize_flexible_timestamp_u64() {
    assert_eq!(decode_flexible_timestamp(&TimestampToken::Unsigned(1767730979)), Ok(Some(1767730979)));
}

#[test]
fn test_deserialize_flexible_timestamp_string() {
    let parsed = decode_flexible_timestamp(&TimestampToken::Text("2026-01-06T20:22:59.724Z".to_string())).unwrap();
    assert!(parsed.is_some());
    let ts = parsed.unwrap();
    assert!(ts > 1700000000);
    assert!(ts < 1800000000);
}

#[test]
fn test_deserialize_flexible_timestamp_null() {
    assert_eq!(decode_flexible_timestamp(&TimestampToken::Null), Ok(None));
}

#[test]
fn test_deserialize_flexible_timestamp_missing() {
    let aggregator = DiscoveryAggregator::new();
    let res = aggregator.convert_single_resource(&resource("https://api.example.com/x", vec![], None), "peer", 42).unwrap();
    assert_eq!(res.last_updated, 42);
}

#[test]
fn flexible_timestamp_signed_and_bad_text() {
    assert_eq!(decode_flexible_timestamp(&TimestampToken::Signed(1767730979)), Ok(Some(1767730979)));
    assert!(decode_flexible_timestamp(&TimestampToken::Text("yesterday".to_string())).is_err());
}

fn requirement(network: &str, asset: &str, pay_to: &str, amount: Option<&str>) -> CoinbasePaymentRequirement {
    CoinbasePaymentRequirement {
        scheme: Some("exact".to_string()),
        network: Some(network.to_string()),
        asset: Some(asset.to_string()),
        amount: amount.map(|a| a.to_string()),
        pay_to: Some(pay_to.to_string()),
        max_timeout_seconds: None,
    }
}

fn resource(url: &str, accepts: Vec<CoinbasePaymentRequirement>, last_updated: Option<u64>) -> CoinbaseResource {
    CoinbaseResource {
        url: url.to_string(),
        resource_type: None,
        description: None,
        accepts,
        last_updated,
        metadata: None,
    }
}

#[test]
fn payment_requirement_conversion() {
    let aggregator = DiscoveryAggregator::new();
    let p = aggregator.convert_payment_requirement(&requirement("base", USDC_BASE, PAY_TO, Some("1000000"))).unwrap();
    assert_eq!(p.network, Caip2NetworkId::eip155(8453));
    assert_eq!(p.max_timeout_seconds, 300);
    assert_eq!(p.amount.be_bytes.len(), 32);
    assert_eq!(&p.amount.be_bytes[29..], &[0x0f, 0x42, 0x40]);
    assert!(p.extra.is_none());
    let bad_amount = aggregator.convert_payment_requirement(&requirement("base", USDC_BASE, PAY_TO, Some("lots"))).unwrap();
    assert_eq!(bad_amount.amount.be_bytes, vec![0u8; 32]);
    assert!(aggregator.convert_payment_requirement(&requirement("not-a-chain", USDC_BASE, PAY_TO, None)).is_none());
    assert!(aggregator.convert_payment_requirement(&requirement("base", "So1anaMint", PAY_TO, None)).is_none());
}

#[test]
fn resource_conversion_fields() {
    let aggregator = DiscoveryAggregator::new();
    let mut cb = resource(
        "https://api.example.com/weather",
        vec![
            requirement("base", USDC_BASE, PAY_TO, Some("5")),
            requirement("solana", "So1anaMint", "Wallet", Some("5")),
        ],
        Some(1767730979),
    );
    cb.metadata = Some(CoinbaseMetadata { category: Some("data".to_string()), provider: None, tags: vec!["w".to_string()] });
    let r = aggregator.convert_single_resource(&cb, "coinbase", 0).unwrap();
    assert_eq!(r.url, "https://api.example.com/weather");
    assert_eq!(r.resource_type, "http");
    assert_eq!(r.description, "");
    assert_eq!(r.accepts.len(), 1);
    assert_eq!(r.last_updated, 1767730979);
    assert_eq!(r.source, "aggregation:coinbase");
    assert_eq!(r.metadata.unwrap().tags, vec!["w".to_string()]);
    let bad = aggregator.convert_single_resource(&resource("not a url", vec![], None), "coinbase", 0);
    assert!(matches!(bad, Err(AggregatorError::InvalidUrl(_))));
}

#[test]
fn batch_conversion_skips_bad_urls() {
    let aggregator = DiscoveryAggregator::new();
    let batch = vec![
        resource("https://a.example/1", vec![], None),
        resource("::bad::", vec![], None),
        resource("https://a.example/2", vec![], None),
    ];
    let out = aggregator.convert_coinbase_resources(&batch, "payai", 7);
    assert_eq!(out.len(), 2);
    assert_eq!(out[0].url, "https://a.example/1");
    assert_eq!(out[1].url, "https://a.example/2");
}

fn batch(n: usize) -> Vec<CoinbaseResource> {
    (0..n).map(|i| resource(&format!("https://peer.example/r/{}", i), vec![], Some(1))).collect()
}

fn no_shapes() -> DiscoveryShapes {
    DiscoveryShapes { standard: None, wrapped: None, alternative: None, array: None }
}

#[test]
fn pagination_scenario() {
    let aggregator = DiscoveryAggregator::new();
    let config = FacilitatorConfig::coinbase();
    let pages = vec![(batch(100), 150u32), (batch(50), 150u32)];
    let mut offset: u32 = 0;
    let mut emitted = Vec::new();
    let mut requests = Vec::new();
    loop {
        requests.push(page_url(&config, offset));
        let (items, total) = pages[requests.len() - 1].clone();
        let mut shapes = no_shapes();
        let pagination = CoinbasePagination { limit: None, offset: None, total: Some(total) };
        shapes.standard = Some(CoinbaseDiscoveryResponse { items, pagination: Some(pagination) });
        let (items, pagination) = aggregator.parse_discovery_response("{}", shapes, "coinbase").unwrap();
        let count = items.len();
        emitted.extend(aggregator.convert_coinbase_resources(&items, "coinbase", 0));
        match next_page_offset(offset, count, pagination) {
            Some(next) => offset = next,
            None => break,
        }
    }
    assert_eq!(emitted.len(), 150);
    assert_eq!(requests.len(), 2);
    assert_eq!(requests[1], format!("{}?limit=100&offset=100", config.discovery_url));
}

#[test]
fn pagination_stops() {
    let total = Some(CoinbasePagination { limit: None, offset: None, total: Some(300) });
    assert_eq!(next_page_offset(0, 100, total), Some(100));
    assert_eq!(next_page_offset(200, 100, total), None);
    assert_eq!(next_page_offset(0, 99, total), None);
    assert_eq!(next_page_offset(0, 100, None), None);
}

#[test]
fn response_shapes_in_order() {
    let aggregator = DiscoveryAggregator::new();
    let mut shapes = no_shapes();
    shapes.wrapped = Some(WrappedDiscoveryResponse { data: CoinbaseDiscoveryResponse { items: batch(2), pagination: None } });
    shapes.array = Some(batch(5));
    assert_eq!(aggregator.parse_discovery_response("[]", shapes, "p").unwrap().0.len(), 2);

    let mut shapes = no_shapes();
    shapes.alternative = Some(AlternativeDiscoveryResponse { resources: batch(3), pagination: None });
    assert_eq!(aggregator.parse_discovery_response("[]", shapes, "p").unwrap().0.len(), 3);

    let mut shapes = no_shapes();
    shapes.array = Some(batch(4));
    let (items, pagination) = aggregator.parse_discovery_response("[]", shapes, "p").unwrap();
    assert_eq!(items.len(), 4);
    assert!(pagination.is_none());

    assert!(matches!(aggregator.parse_discovery_response("<html>", no_shapes(), "p"), Err(AggregatorError::ParseError(_))));
}

#[test]
fn enabled_peers_only() {
    let mut peers = FacilitatorConfig::all();
    peers[1].enabled = false;
    let aggregator = DiscoveryAggregator::with_facilitators(peers);
    let enabled = aggregator.enabled_facilitators();
    assert_eq!(enabled.len(), 11);
    assert!(enabled.iter().all(|c| c.id != "payai"));
}

#[test]
fn resource_url_is_canonicalised() {
    let aggregator = DiscoveryAggregator::new();
    let r = aggregator.convert_single_resource(&resource("HTTPS://Example.COM/a", vec![], Some(1)), "p", 0).unwrap();
    assert_eq!(r.url, "https://example.com/a");
}

#[test]
fn parse_error_names_peer_and_quotes_body() {
    let aggregator = DiscoveryAggregator::new();
    match aggregator.parse_discovery_response("<html>oops</html>", no_shapes(), "payai") {
        Err(AggregatorError::ParseError(m)) => assert_eq!(m, "Unknown response format from payai: <html>oops</html>"),
        _ => panic!("expected a parse error"),
    }
    let body = format!("{}{}", "a".repeat(499), "é".repeat(10));
    match aggregator.parse_discovery_response(&body, no_shapes(), "p") {
        Err(AggregatorError::ParseError(m)) => {
            assert_eq!(m, format!("Unknown response format from p: {}", "a".repeat(499)));
        }
        _ => panic!("expected a parse error"),
    }
}
