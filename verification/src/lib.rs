//! A minimal client for the Jupiter swap API: the requests it sends, and what
//! it makes of the responses.
//!
//! The library holds everything that is decided or computed around one HTTP
//! exchange. Sending the request and reading the response is left to the
//! caller, who hands back the status and the body as plain values.

use vstd::prelude::*;

pub mod address;
pub mod encoding;
pub mod error;
pub mod quote;
pub mod swap;
pub mod text;
pub mod transport;

use crate::error::RequestError;
use crate::quote::QuoteRequest;
use crate::transport::{HttpRequest, HttpRequestView, Method};

verus! {

/// The entry point of the library: the service's base path, set once.
#[derive(Clone, Debug)]
pub struct JupiterSwapApiClient {
    pub base_path: String,
}

impl JupiterSwapApiClient {
    /// Where a quote with the query string `query` is asked for.
    pub open spec fn quote_url(self, query: Seq<char>) -> Seq<char> {
        self.base_path@ + "/quote?"@ + query
    }

    /// Where a swap is asked for.
    pub open spec fn swap_url(self) -> Seq<char> {
        self.base_path@ + "/swap"@
    }

    /// Where swap instructions are asked for.
    pub open spec fn swap_instructions_url(self) -> Seq<char> {
        self.base_path@ + "/swap-instructions"@
    }

    /// A client for the service at `base_path`, which is kept as given.
    pub fn new(base_path: String) -> (client: Self)
        ensures
            client.base_path == base_path,
    {
        Self { base_path }
    }

    /// The request for a quote whose query string is `query`: a GET of
    /// `{base_path}/quote?{query}`.
    pub fn quote_with_query(&self, query: &str) -> (request: HttpRequest)
        ensures
            request@ == (HttpRequestView {
                method: Method::Get,
                url: self.quote_url(query@),
                json_body: None,
            }),
    {
        let url = self.base_path.clone().concat("/quote?").concat(query);
        HttpRequest { method: Method::Get, url, json_body: None }
    }

    /// The request that asks for the quote that `quote_request` describes: a
    /// GET of `{base_path}/quote?{query}`, the query string being that of the
    /// request. Where the request cannot be written as a query string, the
    /// call fails with a transport error and there is nothing to send.
    pub fn quote(&self, quote_request: &QuoteRequest) -> (request: Result<
        HttpRequest,
        RequestError,
    >)
        ensures
            match request {
                Ok(r) => quote_request.query() matches Some(query) && r@ == (HttpRequestView {
                    method: Method::Get,
                    url: self.quote_url(query),
                    json_body: None,
                }),
                Err(e) => quote_request.query() is None && e@ is Transport,
            },
    {
        match quote_request.to_query() {
            Ok(query) => Ok(self.quote_with_query(query.as_str())),
            Err(e) => Err(e),
        }
    }

    /// The request that asks for the swap whose JSON encoding is `body`: a
    /// POST of the body to `{base_path}/swap`.
    pub fn swap(&self, body: Vec<u8>) -> (request: HttpRequest)
        ensures
            request@ == (HttpRequestView {
                method: Method::Post,
                url: self.swap_url(),
                json_body: Some(body@),
            }),
    {
        let url = self.base_path.clone().concat("/swap");
        HttpRequest { method: Method::Post, url, json_body: Some(body) }
    }

    /// The request that asks for the instructions of the swap whose JSON
    /// encoding is `body`: a POST of the body to
    /// `{base_path}/swap-instructions`.
    pub fn swap_instructions(&self, body: Vec<u8>) -> (request: HttpRequest)
        ensures
            request@ == (HttpRequestView {
                method: Method::Post,
                url: self.swap_instructions_url(),
                json_body: Some(body@),
            }),
    {
        let url = self.base_path.clone().concat("/swap-instructions");
        HttpRequest { method: Method::Post, url, json_body: Some(body) }
    }
}

} // verus!
