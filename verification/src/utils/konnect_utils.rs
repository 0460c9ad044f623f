//! The transport client: what request each verb sends, and what a reply
//! means.
//!
//! The client performs no network call itself. Each verb describes the one
//! request to send; the caller sends it and hands the reply to
//! [`read_reply`] or [`read_delete_reply`].

use crate::utils::json::JsonValue;
use crate::utils::text::{joined, joined3, same_text};
use vstd::prelude::*;

verus! {

/// Narrows a fetch to the resources whose field equals a value.
#[derive(Debug, PartialEq, Eq)]
pub enum FetchFilter {
    /// Only the resources whose field, named first, equals the value.
    FieldName(String, String),
    /// Every resource.
    Unfiltered,
}

/// The HTTP method of a request.
#[derive(Debug, Clone, Copy, PartialEq, Eq, Structural)]
pub enum Method {
    Get,
    Post,
    Patch,
    Delete,
}

/// One request, ready to be sent.
#[derive(Debug, PartialEq, Eq)]
pub struct HttpRequest {
    pub method: Method,
    pub url: String,
    /// The value of the `authorization` header.
    pub authorization: String,
    /// The one query parameter, as name and value, if there is one.
    pub query: Option<(String, String)>,
    /// The JSON body, if there is one.
    pub body: Option<JsonValue>,
}

/// What came back for a request that reached the service.
#[derive(Debug, PartialEq, Eq)]
pub struct HttpReply {
    pub status: u16,
    pub body: String,
}

/// Why a call gave no result.
#[derive(Debug, PartialEq, Eq)]
pub enum RequestError {
    /// The request did not reach the service, or its reply could not be
    /// read; the text says why.
    Network(String),
    /// The service answered with a status outside 200..=299; the text is the
    /// body of its answer.
    Rejected(String),
    /// A body was not the JSON that was expected; the text says why.
    Malformed(String),
}

impl RequestError {
    /// The diagnostic text of the error.
    pub open spec fn text(self) -> Seq<char> {
        match self {
            RequestError::Network(m) => m@,
            RequestError::Rejected(m) => m@,
            RequestError::Malformed(m) => m@,
        }
    }

    /// The diagnostic text of the error.
    pub fn message(&self) -> (r: String)
        ensures
            r@ == self.text(),
    {
        match self {
            RequestError::Network(m) => m.clone(),
            RequestError::Rejected(m) => m.clone(),
            RequestError::Malformed(m) => m.clone(),
        }
    }
}

/// Why no client could be made.
#[derive(Debug, PartialEq, Eq)]
pub enum ConfigError {
    /// No access token was given.
    MissingToken,
    /// No region was given.
    MissingRegion,
    /// The region is none of `us`, `au`, `eu`; the text is the region given.
    InvalidRegion(String),
}

/// Whether a region is one that the service has.
pub open spec fn valid_region(region: Seq<char>) -> bool {
    region == "us"@ || region == "au"@ || region == "eu"@
}

/// The address under which the service of a region answers.
pub open spec fn base_url(region: Seq<char>) -> Seq<char> {
    "https://"@ + region + ".api.konghq.com/v2"@
}

/// The value of the `authorization` header for a token.
pub open spec fn bearer(token: Seq<char>) -> Seq<char> {
    "Bearer "@ + token
}

/// The name of the query parameter that filters by a field.
pub open spec fn filter_name(field: Seq<char>) -> Seq<char> {
    "filter["@ + field + "]"@
}

/// The query parameter of a filter, if it has one.
pub open spec fn filter_query(filter: FetchFilter) -> Option<(Seq<char>, Seq<char>)> {
    match filter {
        FetchFilter::FieldName(field, value) => Some((filter_name(field@), value@)),
        FetchFilter::Unfiltered => None,
    }
}

/// The name and value of an optional query parameter as texts.
pub open spec fn query_view(query: Option<(String, String)>) -> Option<(Seq<char>, Seq<char>)> {
    match query {
        Some((name, value)) => Some((name@, value@)),
        None => None,
    }
}

/// Whether a status is in 200..=299.
pub open spec fn is_success(status: u16) -> bool {
    200 <= status <= 299
}

/// The character of a decimal digit.
pub open spec fn digit_char(d: int) -> char {
    if d == 0 {
        '0'
    } else if d == 1 {
        '1'
    } else if d == 2 {
        '2'
    } else if d == 3 {
        '3'
    } else if d == 4 {
        '4'
    } else if d == 5 {
        '5'
    } else if d == 6 {
        '6'
    } else if d == 7 {
        '7'
    } else if d == 8 {
        '8'
    } else {
        '9'
    }
}

/// A three-digit status written in decimal.
pub open spec fn status_text(status: u16) -> Seq<char> {
    seq![
        digit_char(status as int / 100),
        digit_char((status as int / 10) % 10),
        digit_char(status as int % 10),
    ]
}

/// The text of one decimal digit.
fn digit_text(d: u16) -> (r: &'static str)
    requires
        d <= 9,
    ensures
        r@ == seq![digit_char(d as int)],
{
    proof {
        reveal_strlit("0");
        reveal_strlit("1");
        reveal_strlit("2");
        reveal_strlit("3");
        reveal_strlit("4");
        reveal_strlit("5");
        reveal_strlit("6");
        reveal_strlit("7");
        reveal_strlit("8");
        reveal_strlit("9");
    }
    let r = if d == 0 {
        "0"
    } else if d == 1 {
        "1"
    } else if d == 2 {
        "2"
    } else if d == 3 {
        "3"
    } else if d == 4 {
        "4"
    } else if d == 5 {
        "5"
    } else if d == 6 {
        "6"
    } else if d == 7 {
        "7"
    } else if d == 8 {
        "8"
    } else {
        "9"
    };
    assert(r@ =~= seq![digit_char(d as int)]);
    r
}

/// The client of one region, holding the access token.
#[derive(Debug)]
pub struct KonnectClient {
    url: String,
    auth_token: String,
}

impl KonnectClient {
    /// The address that every path is appended to.
    pub closed spec fn url(&self) -> Seq<char> {
        self.url@
    }

    /// The access token.
    pub closed spec fn auth_token(&self) -> Seq<char> {
        self.auth_token@
    }

    /// Makes the client for a region. The token is looked at first: without
    /// one the region is not examined.
    pub fn new(auth_token: Option<String>, region: Option<String>) -> (r: Result<
        KonnectClient,
        ConfigError,
    >)
        ensures
            match r {
                Ok(client) => auth_token is Some && region is Some && valid_region(region->0@)
                    && client.url() == base_url(region->0@) && client.auth_token()
                    == auth_token->0@,
                Err(ConfigError::MissingToken) => auth_token is None,
                Err(ConfigError::MissingRegion) => auth_token is Some && region is None,
                Err(ConfigError::InvalidRegion(given)) => auth_token is Some && region is Some
                    && !valid_region(region->0@) && given@ == region->0@,
            },
    {
        let token = match auth_token {
            Some(t) => t,
            None => {
                return Err(ConfigError::MissingToken);
            },
        };
        let region = match region {
            Some(r) => r,
            None => {
                return Err(ConfigError::MissingRegion);
            },
        };
        let name = region.as_str();
        if same_text(name, "us") || same_text(name, "au") || same_text(name, "eu") {
            let url = joined3("https://", name, ".api.konghq.com/v2");
            Ok(KonnectClient { url, auth_token: token })
        } else {
            Err(ConfigError::InvalidRegion(region))
        }
    }

    /// The address of a path.
    fn address(&self, path: &str) -> (r: String)
        ensures
            r@ == self.url() + path@,
    {
        joined(self.url.as_str(), path)
    }

    /// The value of the `authorization` header.
    fn authorization(&self) -> (r: String)
        ensures
            r@ == bearer(self.auth_token()),
    {
        joined("Bearer ", self.auth_token.as_str())
    }

    /// The request that deletes the resource at `path`: a DELETE without a
    /// body.
    pub fn delete(&self, path: &str) -> (req: HttpRequest)
        ensures
            req.method == Method::Delete,
            req.url@ == self.url() + path@,
            req.authorization@ == bearer(self.auth_token()),
            req.query is None,
            req.body is None,
    {
        HttpRequest {
            method: Method::Delete,
            url: self.address(path),
            authorization: self.authorization(),
            query: None,
            body: None,
        }
    }

    /// The request that reads the resource or the list at `path`: a GET,
    /// with the filter as its query parameter, if there is one.
    pub fn fetch(&self, path: &str, filter: FetchFilter) -> (req: HttpRequest)
        ensures
            req.method == Method::Get,
            req.url@ == self.url() + path@,
            req.authorization@ == bearer(self.auth_token()),
            query_view(req.query) == filter_query(filter),
            req.body is None,
    {
        let query = match filter {
            FetchFilter::FieldName(field, value) => Some(
                (joined3("filter[", field.as_str(), "]"), value),
            ),
            FetchFilter::Unfiltered => None,
        };
        HttpRequest {
            method: Method::Get,
            url: self.address(path),
            authorization: self.authorization(),
            query,
            body: None,
        }
    }

    /// The request that creates a resource under `path`: a POST with `body`
    /// as its JSON body.
    pub fn create(&self, path: &str, body: JsonValue) -> (req: HttpRequest)
        ensures
            req.method == Method::Post,
            req.url@ == self.url() + path@,
            req.authorization@ == bearer(self.auth_token()),
            req.query is None,
            req.body == Some(body),
    {
        HttpRequest {
            method: Method::Post,
            url: self.address(path),
            authorization: self.authorization(),
            query: None,
            body: Some(body),
        }
    }

    /// The request that updates the resource at `path`: a PATCH with `body`
    /// as its JSON body.
    pub fn patch(&self, path: &str, body: JsonValue) -> (req: HttpRequest)
        ensures
            req.method == Method::Patch,
            req.url@ == self.url() + path@,
            req.authorization@ == bearer(self.auth_token()),
            req.query is None,
            req.body == Some(body),
    {
        HttpRequest {
            method: Method::Patch,
            url: self.address(path),
            authorization: self.authorization(),
            query: None,
            body: Some(body),
        }
    }
}

/// What a fetch, a create or a patch yields: the body of a reply with a
/// status in 200..=299, and an error otherwise. `Err` as input is a request
/// that got no reply, with the reason.
pub fn read_reply(reply: Result<HttpReply, String>) -> (r: Result<String, RequestError>)
    ensures
        match reply {
            Ok(answer) => if is_success(answer.status) {
                r == Ok::<String, RequestError>(answer.body)
            } else {
                r == Err::<String, RequestError>(RequestError::Rejected(answer.body))
            },
            Err(reason) => r == Err::<String, RequestError>(RequestError::Network(reason)),
        },
{
    match reply {
        Ok(answer) => {
            if 200 <= answer.status && answer.status <= 299 {
                Ok(answer.body)
            } else {
                Err(RequestError::Rejected(answer.body))
            }
        },
        Err(reason) => Err(RequestError::Network(reason)),
    }
}

/// What a delete yields: the status of a reply in 200..=299, written in
/// decimal, and an error otherwise.
pub fn read_delete_reply(reply: Result<HttpReply, String>) -> (r: Result<String, RequestError>)
    ensures
        match reply {
            Ok(answer) => if is_success(answer.status) {
                r is Ok && r->Ok_0@ == status_text(answer.status)
            } else {
                r == Err::<String, RequestError>(RequestError::Rejected(answer.body))
            },
            Err(reason) => r == Err::<String, RequestError>(RequestError::Network(reason)),
        },
{
    match reply {
        Ok(answer) => {
            if 200 <= answer.status && answer.status <= 299 {
                let status = answer.status;
                let text = joined3(
                    digit_text(status / 100),
                    digit_text((status / 10) % 10),
                    digit_text(status % 10),
                );
                assert(text@ =~= status_text(status));
                Ok(text)
            } else {
                Err(RequestError::Rejected(answer.body))
            }
        },
        Err(reason) => Err(RequestError::Network(reason)),
    }
}

} // verus!
