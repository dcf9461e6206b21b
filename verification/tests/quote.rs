use jupiter_swap_api_client::address::Pubkey;
use jupiter_swap_api_client::quote::{encode_query, join_query, QuoteRequest, SwapMode};

const WRAPPED_SOL: &str = "So11111111111111111111111111111111111111112";
const USDC: &str = "EPjFWdd5AufqSSqeM2qN1xzybapC8G4wEGGkZwyTDt1v";

fn plain_request() -> QuoteRequest {
    QuoteRequest::new(
        Pubkey::parse(WRAPPED_SOL).unwrap(),
        Pubkey::parse(USDC).unwrap(),
        1_000_000,
        50,
    )
}

fn pair(key: &str, value: &str) -> (String, String) {
    (key.to_string(), value.to_string())
}

#[test]
fn swap_modes_have_their_wire_names() {
    assert_eq!(SwapMode::ExactIn.name(), "ExactIn");
    assert_eq!(SwapMode::ExactOut.name(), "ExactOut");
}

#[test]
fn a_new_request_has_no_option() {
    let request = plain_request();
    assert_eq!(request.amount, 1_000_000);
    assert_eq!(request.slippage_bps, 50);
    assert_eq!(request.swap_mode, None);
    assert_eq!(request.platform_fee_bps, None);
    assert_eq!(request.dexes, None);
    assert_eq!(request.excluded_dexes, None);
    assert_eq!(request.only_direct_routes, None);
    assert_eq!(request.as_legacy_transaction, None);
    assert_eq!(request.max_accounts, None);
}

#[test]
fn a_request_without_options_has_the_four_required_entries() {
    assert_eq!(
        plain_request().query_entries(),
        vec![
            pair("inputMint", WRAPPED_SOL),
            pair("outputMint", USDC),
            pair("amount", "1000000"),
            pair("slippageBps", "50"),
        ]
    );
}

#[test]
fn a_request_without_options_has_no_trace_of_them_in_its_query() {
    let query = plain_request().to_query().unwrap();
    assert_eq!(
        query,
        format!("inputMint={}&outputMint={}&amount=1000000&slippageBps=50", WRAPPED_SOL, USDC)
    );
    for part in query.split('&') {
        let (key, value) = part.split_once('=').unwrap();
        assert!(!key.is_empty());
        assert!(!value.is_empty());
    }
    assert_eq!(query.split('&').count(), 4);
}

#[test]
fn every_option_goes_into_the_query_in_the_order_of_the_fields() {
    let mut request = plain_request();
    request.swap_mode = Some(SwapMode::ExactOut);
    request.platform_fee_bps = Some(20);
    request.dexes = Some("Orca,Raydium CLMM".to_string());
    request.excluded_dexes = Some("Meteora DLMM".to_string());
    request.only_direct_routes = Some(true);
    request.as_legacy_transaction = Some(false);
    request.max_accounts = Some(64);
    assert_eq!(
        request.query_entries(),
        vec![
            pair("inputMint", WRAPPED_SOL),
            pair("outputMint", USDC),
            pair("amount", "1000000"),
            pair("swapMode", "ExactOut"),
            pair("slippageBps", "50"),
            pair("platformFeeBps", "20"),
            pair("dexes", "Orca,Raydium CLMM"),
            pair("excludedDexes", "Meteora DLMM"),
            pair("onlyDirectRoutes", "true"),
            pair("asLegacyTransaction", "false"),
            pair("maxAccounts", "64"),
        ]
    );
    assert_eq!(
        request.to_query().unwrap(),
        format!(
            "inputMint={}&outputMint={}&amount=1000000&swapMode=ExactOut&slippageBps=50\
             &platformFeeBps=20&dexes=Orca,Raydium+CLMM&excludedDexes=Meteora+DLMM\
             &onlyDirectRoutes=true&asLegacyTransaction=false&maxAccounts=64",
            WRAPPED_SOL, USDC
        )
    );
}

#[test]
fn one_option_adds_one_entry() {
    let mut request = plain_request();
    request.only_direct_routes = Some(false);
    assert_eq!(
        request.to_query().unwrap(),
        format!(
            "inputMint={}&outputMint={}&amount=1000000&slippageBps=50&onlyDirectRoutes=false",
            WRAPPED_SOL, USDC
        )
    );
}

#[test]
fn the_extremes_of_the_numbers_are_written_in_full() {
    let mut request = plain_request();
    request.amount = u64::MAX;
    request.slippage_bps = u16::MAX;
    request.platform_fee_bps = Some(u8::MAX);
    request.max_accounts = Some(0);
    let entries = request.query_entries();
    assert_eq!(entries[2], pair("amount", "18446744073709551615"));
    assert_eq!(entries[3], pair("slippageBps", "65535"));
    assert_eq!(entries[4], pair("platformFeeBps", "255"));
    assert_eq!(entries[5], pair("maxAccounts", "0"));
}

#[test]
fn an_empty_list_of_venues_is_present_and_empty() {
    let mut request = plain_request();
    request.dexes = Some(String::new());
    assert_eq!(
        request.to_query().unwrap(),
        format!(
            "inputMint={}&outputMint={}&amount=1000000&slippageBps=50&dexes=",
            WRAPPED_SOL, USDC
        )
    );
}

#[test]
fn encode_query_of_no_entries_is_empty() {
    assert_eq!(encode_query(&Vec::new()), Ok(String::new()));
}

#[test]
fn encode_query_escapes_what_would_break_the_query() {
    assert_eq!(encode_query(&vec![pair("k", "x&y=z")]), Ok("k=x%26y%3Dz".to_string()));
    assert_eq!(encode_query(&vec![pair("k", "100%")]), Ok("k=100%25".to_string()));
    assert_eq!(encode_query(&vec![pair("k", "a+b")]), Ok("k=a%2Bb".to_string()));
    assert_eq!(encode_query(&vec![pair("k", "a b")]), Ok("k=a+b".to_string()));
    assert_eq!(encode_query(&vec![pair("k", "a#b")]), Ok("k=a%23b".to_string()));
}

#[test]
fn encode_query_escapes_keys_too() {
    assert_eq!(encode_query(&vec![pair("a b", "1")]), Ok("a+b=1".to_string()));
    assert_eq!(encode_query(&vec![pair("k[0]", "1")]), Ok("k%5B0%5D=1".to_string()));
}

#[test]
fn encode_query_writes_other_scripts_as_utf8_bytes() {
    assert_eq!(encode_query(&vec![pair("k", "\u{e9}")]), Ok("k=%C3%A9".to_string()));
}

#[test]
fn encode_query_keeps_the_order_of_the_entries() {
    let entries = vec![pair("z", "1"), pair("a", "2"), pair("m", "3")];
    assert_eq!(encode_query(&entries), Ok("z=1&a=2&m=3".to_string()));
}

#[test]
fn join_query_joins_with_ampersands() {
    assert_eq!(join_query(&vec!["a=1".to_string(), "b=2".to_string()]), "a=1&b=2");
    assert_eq!(join_query(&vec!["a=1".to_string()]), "a=1");
    assert_eq!(join_query(&Vec::new()), "");
}

#[test]
fn from_name_reads_the_two_wire_names() {
    assert_eq!(SwapMode::from_name("ExactIn"), Some(SwapMode::ExactIn));
    assert_eq!(SwapMode::from_name("ExactOut"), Some(SwapMode::ExactOut));
}

#[test]
fn from_name_refuses_every_other_text() {
    assert_eq!(SwapMode::from_name(""), None);
    assert_eq!(SwapMode::from_name("exactIn"), None);
    assert_eq!(SwapMode::from_name("ExactIn "), None);
    assert_eq!(SwapMode::from_name("Exact"), None);
}

#[test]
fn from_name_reads_back_what_name_wrote() {
    assert_eq!(SwapMode::from_name(SwapMode::ExactIn.name()), Some(SwapMode::ExactIn));
    assert_eq!(SwapMode::from_name(SwapMode::ExactOut.name()), Some(SwapMode::ExactOut));
}
