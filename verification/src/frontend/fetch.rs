//! Building the JSON requests that the client sends, and the responses it
//! hands to its callbacks.

use vstd::prelude::*;

verus! {

#[verifier::external_type_specification]
#[verifier::external_body]
pub struct ExJsonValue(serde_json::Value);

/// The HTTP method of a request.
#[derive(Debug, Clone, Copy, PartialEq, Eq, Structural)]
pub enum RequestType {
    GET,
    POST,
}

/// A request under construction: its method, its URL once set, and its
/// JSON body once set.
pub struct Fetch {
    request_type: RequestType,
    url: Option<String>,
    data: Option<String>,
}

/// The text of an optional string.
pub open spec fn opt_text(o: Option<String>) -> Option<Seq<char>> {
    match o {
        Some(s) => Some(s@),
        None => None,
    }
}

/// What a request under construction holds.
pub struct FetchView {
    pub method: RequestType,
    pub url: Option<Seq<char>>,
    pub data: Option<Seq<char>>,
}

impl View for Fetch {
    type V = FetchView;

    closed spec fn view(&self) -> FetchView {
        FetchView { method: self.request_type, url: opt_text(self.url), data: opt_text(self.data) }
    }
}

/// A request ready to send: method, URL, the `Content-Type` header's value
/// and the body, if any.
pub struct PreparedRequest {
    pub method: RequestType,
    pub url: String,
    pub content_type: String,
    pub body: Option<String>,
}

/// How a request ended.
#[derive(Debug)]
pub enum Status {
    /// No outcome yet.
    NoStatus,
    Error(String),
    OK,
}

/// What a callback gets: the decoded answer, if any, and how the request
/// ended.
#[derive(Debug)]
pub struct FetchResponse<T> {
    pub data: Option<T>,
    pub status: Status,
}

impl<T> FetchResponse<T> {
    /// A response without data.
    pub fn empty(status: Status) -> (r: Self)
        ensures
            r.data is None,
            r.status == status,
    {
        FetchResponse { data: None, status }
    }

    /// A response without data for a failed request.
    pub fn error(err: &str) -> (r: Self)
        ensures
            r.data is None,
            r.status matches Status::Error(m) && m@ == err@,
    {
        FetchResponse { data: None, status: Status::Error(String::from_str(err)) }
    }
}

/// The compact JSON text of a JSON value, as its `Display` writes it.
pub uninterp spec fn json_text_of(value: serde_json::Value) -> Seq<char>;

/// `serde_json::Value`'s `to_string`. Claimed: the text is `json_text_of`
/// the value, a function of the value alone; what that text is for a given
/// value is left to serde_json.
#[verifier::external_body]
fn json_text(value: &serde_json::Value) -> (s: String)
    ensures
        s@ == json_text_of(*value),
{
    value.to_string()
}

impl Fetch {
    /// A GET request with no URL and no body.
    pub fn new() -> (f: Self)
        ensures
            f@ == (FetchView { method: RequestType::GET, url: None, data: None }),
    {
        Fetch { request_type: RequestType::GET, url: None, data: None }
    }

    /// Sets the body to the JSON text of `data`; the method and the URL stay.
    pub fn data(self, data: &serde_json::Value) -> (f: Self)
        ensures
            f@ == (FetchView { data: Some(json_text_of(*data)), ..self@ }),
    {
        let mut f = self;
        f.data = Some(json_text(data));
        f
    }

    /// Makes the request a POST; the URL and the body stay.
    pub fn post(self) -> (f: Self)
        ensures
            f@ == (FetchView { method: RequestType::POST, ..self@ }),
    {
        let mut f = self;
        f.request_type = RequestType::POST;
        f
    }

    /// Sets the URL; the method and the body stay.
    pub fn url(self, url: &str) -> (f: Self)
        ensures
            f@ == (FetchView { url: Some(url@), ..self@ }),
    {
        let mut f = self;
        f.url = Some(String::from_str(url));
        f
    }

    /// The request to send: refused with "method not set" while no URL is
    /// set; else the method, the URL, the JSON content type and the body.
    pub fn prepare(self) -> (r: Result<PreparedRequest, String>)
        ensures
            self@.url is None ==> (r matches Err(m) && m@ == "method not set"@),
            self@.url matches Some(u) ==> (r matches Ok(p) && p.method == self@.method && p.url@ == u
                && p.content_type@ == "application/json"@ && opt_text(p.body) == self@.data),
    {
        proof {
            reveal_strlit("method not set");
            reveal_strlit("application/json");
        }
        match self.url {
            None => Err(String::from_str("method not set")),
            Some(url) => Ok(
                PreparedRequest {
                    method: self.request_type,
                    url,
                    content_type: String::from_str("application/json"),
                    body: self.data,
                },
            ),
        }
    }
}

} // verus!
