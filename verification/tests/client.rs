use jupiter_swap_api_client::address::Pubkey;
use jupiter_swap_api_client::quote::QuoteRequest;
use jupiter_swap_api_client::transport::{HttpRequest, Method};
use jupiter_swap_api_client::JupiterSwapApiClient;

const SOL_MINT: &str = "So11111111111111111111111111111111111111112";
const USDC_MINT: &str = "EPjFWdd5AufqSSqeM2qN1xzybapC8G4wEGGkZwyTDt1v";

#[test]
fn new_keeps_the_base_path_as_given() {
    let client = JupiterSwapApiClient::new("https://quote-api.jup.ag/v6".to_string());
    assert_eq!(client.base_path, "https://quote-api.jup.ag/v6");
    let odd = JupiterSwapApiClient::new(" http://x/ ".to_string());
    assert_eq!(odd.base_path, " http://x/ ");
}

#[test]
fn a_clone_has_the_same_base_path() {
    let client = JupiterSwapApiClient::new("http://localhost:8080".to_string());
    assert_eq!(client.clone().base_path, client.base_path);
}

#[test]
fn quote_is_a_get_of_the_quote_path_with_the_query() {
    let client = JupiterSwapApiClient::new("https://quote-api.jup.ag/v6".to_string());
    let request = QuoteRequest::new(
        Pubkey::parse(SOL_MINT).unwrap(),
        Pubkey::parse(USDC_MINT).unwrap(),
        1_000_000,
        50,
    );
    let expected = HttpRequest {
        method: Method::Get,
        url: format!(
            "https://quote-api.jup.ag/v6/quote?inputMint={}&outputMint={}&amount=1000000&slippageBps=50",
            SOL_MINT, USDC_MINT
        ),
        json_body: None,
    };
    assert_eq!(client.quote(&request), Ok(expected));
}

#[test]
fn quote_with_query_puts_the_query_after_the_question_mark() {
    let client = JupiterSwapApiClient::new("http://localhost:8080".to_string());
    let request = client.quote_with_query("a=1&b=2");
    assert_eq!(request.method, Method::Get);
    assert_eq!(request.url, "http://localhost:8080/quote?a=1&b=2");
    assert_eq!(request.json_body, None);
    assert_eq!(client.quote_with_query("").url, "http://localhost:8080/quote?");
}

#[test]
fn swap_is_a_post_of_the_body_to_the_swap_path() {
    let client = JupiterSwapApiClient::new("http://localhost:8080".to_string());
    let body = b"{\"userPublicKey\":\"x\"}".to_vec();
    let request = client.swap(body.clone());
    assert_eq!(
        request,
        HttpRequest {
            method: Method::Post,
            url: "http://localhost:8080/swap".to_string(),
            json_body: Some(body),
        }
    );
}

#[test]
fn swap_instructions_is_a_post_of_the_body_to_its_own_path() {
    let client = JupiterSwapApiClient::new("http://localhost:8080".to_string());
    let body = b"{}".to_vec();
    let request = client.swap_instructions(body.clone());
    assert_eq!(
        request,
        HttpRequest {
            method: Method::Post,
            url: "http://localhost:8080/swap-instructions".to_string(),
            json_body: Some(body),
        }
    );
}

#[test]
fn the_base_path_is_not_tidied() {
    let client = JupiterSwapApiClient::new("http://x/".to_string());
    assert_eq!(client.swap(Vec::new()).url, "http://x//swap");
    assert_eq!(client.swap_instructions(Vec::new()).url, "http://x//swap-instructions");
    assert_eq!(client.quote_with_query("q").url, "http://x//quote?q");
}

#[test]
fn two_clients_do_not_share_a_base_path() {
    let one = JupiterSwapApiClient::new("http://one".to_string());
    let two = JupiterSwapApiClient::new("http://two".to_string());
    assert_eq!(one.swap(Vec::new()).url, "http://one/swap");
    assert_eq!(two.swap(Vec::new()).url, "http://two/swap");
    assert_eq!(one.swap(Vec::new()).url, "http://one/swap");
}
