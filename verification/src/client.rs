//! The API client: what it asks of the service, and what it makes of the
//! reply.
//!
//! The exchange itself is performed by the caller. The client says which
//! request to send, and turns what came back into articles or an error.

use vstd::prelude::*;
use vstd::string::StringExecFns;
use crate::address::{compose_url, composed_url};
use crate::article::NewsAPIResponse;
use crate::error::NewsApiError;

verus! {

/// The collection of the service that is asked for.
#[derive(Clone, Copy, Debug, PartialEq, Eq, Structural)]
pub enum Endpoint {
    TopHeadlines,
}

impl Endpoint {
    /// The path segment that stands for this endpoint.
    pub open spec fn segment(self) -> Seq<char> {
        "top-headlines"@
    }

    pub fn to_string(&self) -> (segment: String)
        ensures
            segment@ == self.segment(),
    {
        match self {
            Endpoint::TopHeadlines => String::from_str("top-headlines"),
        }
    }
}

/// The region whose headlines are asked for.
#[derive(Clone, Copy, Debug, PartialEq, Eq, Structural)]
pub enum Country {
    Us,
}

impl Country {
    /// The region code that stands for this country.
    pub open spec fn code(self) -> Seq<char> {
        "us"@
    }

    pub fn to_string(&self) -> (code: String)
        ensures
            code@ == self.code(),
    {
        match self {
            Country::Us => String::from_str("us"),
        }
    }
}

/// The address below which every endpoint of the service lies.
pub open spec fn base_address() -> Seq<char> {
    "https://newsapi.org/v2"@
}

/// The query that selects `country`.
pub open spec fn country_query(country: Country) -> Seq<char> {
    "country="@ + country.code()
}

/// The address to ask for `endpoint` and `country`, or `None` where it
/// cannot be composed.
pub open spec fn request_address(endpoint: Endpoint, country: Country) -> Option<Seq<char>> {
    composed_url(base_address(), endpoint.segment(), country_query(country))
}

/// A client of the service: the key it presents, and what it asks for.
pub struct NewsAPI {
    api_key: String,
    endpoint: Endpoint,
    country: Country,
}

/// What a client holds.
pub ghost struct ClientView {
    pub api_key: Seq<char>,
    pub endpoint: Endpoint,
    pub country: Country,
}

/// One request, ready to be sent: a `GET` of `url` with the header
/// `Authorization` set to `authorization`.
#[derive(Clone, Debug, PartialEq, Eq)]
pub struct FetchRequest {
    pub url: String,
    pub authorization: String,
}

/// What came back for a request, as the transport and the decoder found it.
/// A blocking and a non-blocking transport report the same replies, so that
/// what the client makes of an exchange does not depend on how it was
/// carried out.
#[derive(Clone, Debug, PartialEq, Eq)]
pub enum Reply {
    /// The transport failed: no connection, no name, no answer in time.
    Unreachable,
    /// An answer came, but its body could not be read as text.
    Unreadable,
    /// The body was read, but it is not a well-formed envelope.
    Malformed,
    /// The body was decoded into this envelope.
    Envelope(NewsAPIResponse),
}

/// The error that stands for the error code of an envelope.
pub open spec fn response_error(code: Option<Seq<char>>) -> NewsApiError {
    if code == Some("apiKeyDisabled"@) {
        NewsApiError::BadRequest("Your API key has been disabled")
    } else {
        NewsApiError::BadRequest("Unknown Error")
    }
}

/// What the client returns for a reply.
pub open spec fn reply_outcome(reply: Reply) -> Result<NewsAPIResponse, NewsApiError> {
    match reply {
        Reply::Unreachable => Err(NewsApiError::RequestFailed),
        Reply::Unreadable => Err(NewsApiError::FailedResponseToString),
        Reply::Malformed => Err(NewsApiError::ArticleParseFailed),
        Reply::Envelope(envelope) => if envelope@.status == "ok"@ {
            Ok(envelope)
        } else {
            Err(response_error(envelope@.code))
        },
    }
}

impl View for NewsAPI {
    type V = ClientView;

    closed spec fn view(&self) -> ClientView {
        ClientView { api_key: self.api_key@, endpoint: self.endpoint, country: self.country }
    }
}

impl NewsAPI {
    /// A client that presents `api_key` and asks for the top headlines of
    /// the United States.
    pub fn new(api_key: &str) -> (client: NewsAPI)
        ensures
            client@ == (ClientView {
                api_key: api_key@,
                endpoint: Endpoint::TopHeadlines,
                country: Country::Us,
            }),
    {
        NewsAPI {
            api_key: String::from_str(api_key),
            endpoint: Endpoint::TopHeadlines,
            country: Country::Us,
        }
    }

    /// Sets the endpoint and hands the client back for further settings.
    pub fn endpoint(&mut self, endpoint: Endpoint) -> (client: &mut NewsAPI)
        ensures
            client@ == (ClientView { endpoint, ..old(self)@ }),
            *final(self) == *final(client),
    {
        self.endpoint = endpoint;
        self
    }

    /// Sets the country and hands the client back for further settings.
    pub fn country(&mut self, country: Country) -> (client: &mut NewsAPI)
        ensures
            client@ == (ClientView { country, ..old(self)@ }),
            *final(self) == *final(client),
    {
        self.country = country;
        self
    }

    /// The key that this client presents, as given.
    pub fn api_key(&self) -> (key: &str)
        ensures
            key@ == self@.api_key,
    {
        self.api_key.as_str()
    }

    /// The address of the request: the base address, one more path segment
    /// for the endpoint, and the country as the query. Fails with
    /// `UrlParsing`, and with no other error, exactly where the address cannot
    /// be composed.
    pub fn prepare_url(&self) -> (address: Result<String, NewsApiError>)
        ensures
            match address {
                Ok(text) => request_address(self@.endpoint, self@.country) == Some(text@),
                Err(error) => error == NewsApiError::UrlParsing && request_address(
                    self@.endpoint,
                    self@.country,
                ) is None,
            },
    {
        let segment = self.endpoint.to_string();
        let query = String::from_str("country=").concat(self.country.to_string().as_str());
        match compose_url("https://newsapi.org/v2", segment.as_str(), query.as_str()) {
            Some(text) => Ok(text),
            None => Err(NewsApiError::UrlParsing),
        }
    }

    /// The request to send: the prepared address, and the raw key as the
    /// authorization. Fails as `prepare_url` does, before anything is sent.
    pub fn request(&self) -> (request: Result<FetchRequest, NewsApiError>)
        ensures
            match request {
                Ok(request) => request_address(self@.endpoint, self@.country) == Some(
                    request.url@,
                ) && request.authorization@ == self@.api_key,
                Err(error) => error == NewsApiError::UrlParsing && request_address(
                    self@.endpoint,
                    self@.country,
                ) is None,
            },
    {
        match self.prepare_url() {
            Ok(url) => Ok(FetchRequest { url, authorization: self.api_key.clone() }),
            Err(error) => Err(error),
        }
    }

    /// What the client makes of a reply. An envelope whose status is `ok` is
    /// returned as it came: the same articles in the same order, each
    /// description present or absent as decoded. Any other status becomes the
    /// `BadRequest` of the envelope's code; a reply without an envelope
    /// becomes the error of its kind.
    pub fn receive(reply: Reply) -> (outcome: Result<NewsAPIResponse, NewsApiError>)
        ensures
            outcome == reply_outcome(reply),
    {
        match reply {
            Reply::Unreachable => Err(NewsApiError::RequestFailed),
            Reply::Unreadable => Err(NewsApiError::FailedResponseToString),
            Reply::Malformed => Err(NewsApiError::ArticleParseFailed),
            Reply::Envelope(envelope) => {
                if envelope.status == String::from_str("ok") {
                    Ok(envelope)
                } else {
                    Err(map_response_error(envelope.code))
                }
            },
        }
    }
}

/// The error for an envelope whose status is not `ok`: the disabled-key
/// message for the code `apiKeyDisabled`, the unknown-error message for any
/// other code and for none.
pub fn map_response_error(code: Option<String>) -> (error: NewsApiError)
    ensures
        error == response_error(crate::article::optional_text(code)),
{
    match code {
        Some(code) => {
            if code == String::from_str("apiKeyDisabled") {
                NewsApiError::BadRequest("Your API key has been disabled")
            } else {
                NewsApiError::BadRequest("Unknown Error")
            }
        },
        None => NewsApiError::BadRequest("Unknown Error"),
    }
}

} // verus!
