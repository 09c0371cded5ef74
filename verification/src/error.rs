//! The ways in which a fetch can fail.

use vstd::prelude::*;
use vstd::string::StringExecFns;

verus! {

/// Why a fetch produced no articles.
#[derive(Clone, Copy, Debug, PartialEq, Eq)]
pub enum NewsApiError {
    /// The request did not reach the service, or no reply came back.
    RequestFailed,
    /// The reply's body could not be read as text.
    FailedResponseToString,
    /// The reply's body is not a well-formed envelope.
    ArticleParseFailed,
    /// The request URL could not be composed.
    UrlParsing,
    /// The service answered with a status other than `ok`; the text says why.
    BadRequest(&'static str),
}

impl NewsApiError {
    /// The human-readable message of this error, as a sequence of characters.
    pub open spec fn message_text(self) -> Seq<char> {
        match self {
            NewsApiError::RequestFailed => "Failed fetching articles"@,
            NewsApiError::FailedResponseToString => "Failed converting response to string"@,
            NewsApiError::ArticleParseFailed => "Article Parsing Failed ... Ah Shit"@,
            NewsApiError::UrlParsing => "URL parsing failed"@,
            NewsApiError::BadRequest(reason) => "Request failed: "@ + reason@,
        }
    }

    /// The human-readable message of this error.
    pub fn message(&self) -> (text: String)
        ensures
            text@ == self.message_text(),
    {
        match self {
            NewsApiError::RequestFailed => String::from_str("Failed fetching articles"),
            NewsApiError::FailedResponseToString => String::from_str(
                "Failed converting response to string",
            ),
            NewsApiError::ArticleParseFailed => String::from_str(
                "Article Parsing Failed ... Ah Shit",
            ),
            NewsApiError::UrlParsing => String::from_str("URL parsing failed"),
            NewsApiError::BadRequest(reason) => String::from_str("Request failed: ").concat(reason),
        }
    }
}

} // verus!
