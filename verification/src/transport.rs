//! One HTTP exchange as plain values: the request to send, the response that
//! came back, the client that will carry it, and the check of a response.

use vstd::prelude::*;
use crate::error::{RequestError, RequestErrorView};
use crate::text::{debug_quoted, debug_text, decimal_digits, lossy_utf8, text_of_bytes};

verus! {

/// `reqwest::Client`, which carries the requests. Nothing of it is visible
/// here.
#[verifier::external_type_specification]
#[verifier::external_body]
pub struct ExClient(reqwest::Client);

/// `reqwest::Proxy`, as `reqwest` holds a proxy once it has accepted its URL.
#[verifier::external_type_specification]
#[verifier::external_body]
pub struct ExProxy(reqwest::Proxy);

/// `reqwest::Error`, the failure of anything that `reqwest` does.
#[verifier::external_type_specification]
#[verifier::external_body]
pub struct ExTransportError(reqwest::Error);

/// How a request is made.
#[derive(Clone, Copy, Debug, PartialEq, Eq, Structural)]
pub enum Method {
    Get,
    Post,
}

/// A request, ready to be sent. Where it has a body, the body is JSON and is
/// sent with the content type `application/json`.
#[derive(Clone, Debug, PartialEq, Eq)]
pub struct HttpRequest {
    pub method: Method,
    pub url: String,
    pub json_body: Option<Vec<u8>>,
}

/// What an [`HttpRequest`] holds, as plain values.
pub struct HttpRequestView {
    pub method: Method,
    pub url: Seq<char>,
    pub json_body: Option<Seq<u8>>,
}

impl View for HttpRequest {
    type V = HttpRequestView;

    open spec fn view(&self) -> HttpRequestView {
        HttpRequestView {
            method: self.method,
            url: self.url@,
            json_body: match self.json_body {
                Some(body) => Some(body@),
                None => None,
            },
        }
    }
}

/// The status of a response: a number from 100 to 999.
#[derive(Clone, Copy, Debug, PartialEq, Eq)]
pub struct StatusCode {
    code: u16,
}

impl View for StatusCode {
    type V = u16;

    closed spec fn view(&self) -> u16 {
        self.code
    }
}

impl StatusCode {
    #[verifier::type_invariant]
    spec fn in_range(self) -> bool {
        100 <= self.code <= 999
    }

    /// The status with the number `code`, where there is one.
    pub fn from_u16(code: u16) -> (status: Option<StatusCode>)
        ensures
            status is Some <==> 100 <= code <= 999,
            status matches Some(s) ==> s@ == code,
    {
        if 100 <= code && code <= 999 {
            Some(StatusCode { code })
        } else {
            None
        }
    }

    /// The number of the status.
    pub fn as_u16(&self) -> (code: u16)
        ensures
            code == self@,
            100 <= code <= 999,
    {
        proof {
            use_type_invariant(self);
        }
        self.code
    }

    /// Whether the status is in the success range, 200 to 299.
    pub fn is_success(&self) -> (yes: bool)
        ensures
            yes == succeeded(self@),
    {
        200 <= self.code && self.code < 300
    }
}

/// Whether a status number is in the success range.
pub open spec fn succeeded(code: u16) -> bool {
    200 <= code < 300
}

/// A response, read to its end: the status, and the bytes of the body or, if
/// the body could not be read, a description of that failure.
#[derive(Debug, PartialEq, Eq)]
pub struct HttpResponse {
    pub status: StatusCode,
    pub body: Result<Vec<u8>, String>,
}

/// The body of a response, as plain values.
pub open spec fn body_view(body: Result<Vec<u8>, String>) -> Result<Seq<u8>, Seq<char>> {
    match body {
        Ok(bytes) => Ok(bytes@),
        Err(cause) => Err(cause@),
    }
}

/// The proxy through which a call is routed: its URL, which may carry
/// credentials.
#[derive(Clone, Debug, PartialEq, Eq)]
pub struct ProxyConfig {
    pub url: String,
}

/// A status as a message shows it: the number, a space, and the reason
/// phrase that goes with the number.
pub uninterp spec fn status_line(code: u16) -> Seq<char>;

/// Whether a text is accepted as the URL of a proxy.
pub uninterp spec fn proxy_url_accepted(url: Seq<char>) -> bool;

/// Whether `text` begins with `prefix`.
pub open spec fn starts_with(text: Seq<char>, prefix: Seq<char>) -> bool {
    prefix.len() <= text.len() && text.subrange(0, prefix.len() as int) == prefix
}

/// How the text of a status begins: its number in decimal, then a space.
pub open spec fn status_number(code: u16) -> Seq<char> {
    decimal_digits(code as nat).push(' ')
}

/// How the message for a failed status begins.
pub open spec fn status_heading(code: u16) -> Seq<char> {
    "Request status not ok: "@ + status_number(code)
}

/// The body as a message shows it: the text of the bytes, quoted, or the
/// description of the failure to read them.
pub open spec fn body_report(body: Result<Seq<u8>, Seq<char>>) -> Seq<char> {
    match body {
        Ok(bytes) => "Ok("@ + debug_quoted(lossy_utf8(bytes)) + ")"@,
        Err(cause) => "Err("@ + cause + ")"@,
    }
}

/// The message of the error for a response that did not succeed.
pub open spec fn status_message(code: u16, body: Result<Seq<u8>, Seq<char>>) -> Seq<char> {
    "Request status not ok: "@ + status_line(code) + ", body: "@ + body_report(body)
}

/// The error for a response that did not succeed.
pub open spec fn status_error(code: u16, body: Result<Seq<u8>, Seq<char>>) -> RequestErrorView {
    RequestErrorView::Status { code, message: status_message(code, body) }
}

/// Whether `error` is the error for the failed status of `response`: a
/// status error with the number of the status, whose message is the one for
/// this status and body, and names the number right after its opening words.
pub open spec fn reports_status(error: RequestErrorView, response: HttpResponse) -> bool {
    &&& error == status_error(response.status@, body_view(response.body))
    &&& starts_with(error.message(), status_heading(response.status@))
}

/// `Display` of the `reqwest::StatusCode` with the number `code`, which
/// writes the number, a space, and the canonical reason or, where the number
/// has none, `<unknown status code>`. The result is the one named by
/// [`status_line`], and begins with the number in decimal and a space.
#[verifier::external_body]
fn status_display(code: u16) -> (line: String)
    requires
        100 <= code <= 999,
    ensures
        line@ == status_line(code),
        starts_with(line@, status_number(code)),
{
    match reqwest::StatusCode::from_u16(code) {
        Ok(status) => status.to_string(),
        Err(_) => String::new(),
    }
}

/// `reqwest::Proxy::all` on `url`: a proxy for all traffic, or the crate's
/// error. Whether the URL is accepted depends on the text alone, and is named
/// by [`proxy_url_accepted`].
#[verifier::external_body]
fn proxy_for_all(url: &str) -> (proxy: Result<reqwest::Proxy, reqwest::Error>)
    ensures
        proxy is Ok <==> proxy_url_accepted(url@),
{
    reqwest::Proxy::all(url)
}

/// `reqwest::ClientBuilder::build` with `proxy` as the only proxy. Whether a
/// client can be built depends on the machine: nothing is claimed.
#[verifier::external_body]
fn client_through(proxy: reqwest::Proxy) -> (client: Result<reqwest::Client, reqwest::Error>)
{
    reqwest::ClientBuilder::new().proxy(proxy).build()
}

/// `reqwest::ClientBuilder::build` with nothing configured. Whether a client
/// can be built depends on the machine: nothing is claimed.
#[verifier::external_body]
fn plain_client() -> (client: Result<reqwest::Client, reqwest::Error>)
{
    reqwest::ClientBuilder::new().build()
}

/// `Display` of a `reqwest::Error`. Nothing is claimed of the text.
#[verifier::external_body]
fn transport_cause(error: &reqwest::Error) -> (cause: String)
{
    error.to_string()
}

/// The text of a status as a message shows it, such as `404 Not Found`.
pub fn status_text(status: StatusCode) -> (line: String)
    ensures
        line@ == status_line(status@),
        starts_with(line@, status_number(status@)),
{
    status_display(status.as_u16())
}

/// The error for a response whose status is `status` and whose body was read
/// as `body`. The message is
/// `Request status not ok: {status}, body: {body}`, with the status as its
/// number and reason phrase, and the body as `Ok("..")` around its text or
/// `Err(..)` around the description of the failure to read it.
pub fn status_failure(status: StatusCode, body: &Result<Vec<u8>, String>) -> (error: RequestError)
    ensures
        error@ == status_error(status@, body_view(*body)),
        starts_with(error@.message(), status_heading(status@)),
{
    let report = match body {
        Ok(bytes) => {
            let text = text_of_bytes(bytes.as_slice());
            let quoted = debug_text(text.as_str());
            String::from_str("Ok(").concat(quoted.as_str()).concat(")")
        },
        Err(cause) => String::from_str("Err(").concat(cause.as_str()).concat(")"),
    };
    let line = status_text(status);
    let message = String::from_str("Request status not ok: ").concat(line.as_str()).concat(
        ", body: ",
    ).concat(report.as_str());
    proof {
        let heading = "Request status not ok: "@;
        let number = status_number(status@);
        assert(message@.subrange(0, (heading + number).len() as int) =~= heading + number);
    }
    RequestError::Status { code: status.as_u16(), message }
}

/// Lets a response through if its status is in the success range, and fails
/// with the status error otherwise. A body that could not be read does not
/// hide the status: the error then reports that failure in place of the text.
pub fn check_is_success(response: HttpResponse) -> (checked: Result<HttpResponse, RequestError>)
    ensures
        match checked {
            Ok(same) => succeeded(response.status@) && same == response,
            Err(e) => !succeeded(response.status@) && reports_status(e@, response),
        },
{
    if response.status.is_success() {
        Ok(response)
    } else {
        Err(status_failure(response.status, &response.body))
    }
}

/// What becomes of the outcome of decoding a body: the value as it is, or a
/// decode error with the cause.
pub open spec fn deserialized<T>(outcome: Result<T, String>, result: Result<T, RequestError>) -> bool {
    match outcome {
        Ok(value) => result == Ok::<T, RequestError>(value),
        Err(cause) => result matches Err(e) && e@ == RequestErrorView::Decode(cause@),
    }
}

/// Checks the status, then decodes the body with `decode`.
///
/// A status outside the success range gives the status error, whatever the
/// body holds. Otherwise a body that could not be read gives a transport
/// error with the description of that failure, and a body that was read gives
/// what `decode` makes of it: the value, or a decode error with its cause.
pub fn check_status_code_and_deserialize<T, F>(response: HttpResponse, decode: F) -> (result:
    Result<T, RequestError>) where F: FnOnce(&Vec<u8>) -> Result<T, String>
    requires
        forall|bytes: &Vec<u8>| decode.requires((bytes,)),
    ensures
        if !succeeded(response.status@) {
            result matches Err(e) && reports_status(e@, response)
        } else {
            match response.body {
                Err(cause) => result matches Err(e) && e@ == RequestErrorView::Transport(cause@),
                Ok(bytes) => exists|outcome: Result<T, String>|
                    decode.ensures((&bytes,), outcome) && deserialized(outcome, result),
            }
        },
{
    match check_is_success(response) {
        Err(e) => Err(e),
        Ok(checked) => match checked.body {
            Err(cause) => Err(RequestError::Transport(cause)),
            Ok(bytes) => {
                let outcome = decode(&bytes);
                let ghost seen = outcome;
                let result = match outcome {
                    Ok(value) => Ok(value),
                    Err(cause) => Err(RequestError::Decode(cause)),
                };
                assert(decode.ensures((&bytes,), seen) && deserialized(seen, result));
                result
            },
        },
    }
}

/// What a client was built from, or the transport error that stands for the
/// failure to build one.
pub fn built(client: Result<reqwest::Client, reqwest::Error>) -> (result: Result<
    reqwest::Client,
    RequestError,
>)
    ensures
        match client {
            Ok(c) => result == Ok::<reqwest::Client, RequestError>(c),
            Err(_) => result matches Err(e) && e@ is Transport,
        },
{
    match client {
        Ok(c) => Ok(c),
        Err(error) => Err(RequestError::Transport(transport_cause(&error))),
    }
}

/// A client for one call: through `proxy` where one is given, direct
/// otherwise.
///
/// A proxy whose URL is not accepted fails here, before any client exists.
/// Every failure is a transport error. Whether a client can be built for an
/// accepted proxy, or for none, is for the machine to say.
pub fn build_client(proxy: Option<&ProxyConfig>) -> (client: Result<reqwest::Client, RequestError>)
    ensures
        client matches Err(e) ==> e@ is Transport,
        (proxy matches Some(p) && !proxy_url_accepted(p.url@)) ==> client is Err,
{
    match proxy {
        Some(p) => match proxy_for_all(p.url.as_str()) {
            Ok(accepted) => built(client_through(accepted)),
            Err(error) => Err(RequestError::Transport(transport_cause(&error))),
        },
        None => built(plain_client()),
    }
}

} // verus!
