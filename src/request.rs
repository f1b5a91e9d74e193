use vstd::prelude::*;
use vstd::string::StringExecFns;

verus! {

/// The HTTP methods the API is called with.
#[derive(Debug, Clone, Copy, PartialEq, Eq, Structural)]
pub enum HttpMethod {
    Get,
    Post,
    Patch,
    Delete,
}

impl HttpMethod {
    pub open spec fn spec_name(self) -> Seq<char> {
        match self {
            HttpMethod::Get => "GET"@,
            HttpMethod::Post => "POST"@,
            HttpMethod::Patch => "PATCH"@,
            HttpMethod::Delete => "DELETE"@,
        }
    }

    /// The method's name in a request line.
    pub fn name(&self) -> (r: &'static str)
        ensures
            r@ == self.spec_name(),
    {
        match self {
            HttpMethod::Get => "GET",
            HttpMethod::Post => "POST",
            HttpMethod::Patch => "PATCH",
            HttpMethod::Delete => "DELETE",
        }
    }
}

/// Everything needed to send one call: method, absolute URL, headers in the
/// order they are set, and the body if there is one.
#[derive(Debug)]
pub struct ApiRequest {
    pub method: HttpMethod,
    pub url: String,
    pub headers: Vec<(String, String)>,
    pub body: Option<String>,
}

/// Header `k` of a request is `name: value`.
pub open spec fn header_is(headers: Seq<(String, String)>, k: int, name: Seq<char>, value: Seq<char>) -> bool {
    headers[k].0@ == name && headers[k].1@ == value
}

impl ApiRequest {
    /// The headers are exactly those of an authenticated call with `api_key`.
    pub open spec fn authenticated_with(self, api_key: Seq<char>) -> bool {
        let h = self.headers@;
        &&& h.len() == 3
        &&& header_is(h, 0, "Content-Type"@, "application/json"@)
        &&& header_is(h, 1, "Accept"@, "application/json"@)
        &&& header_is(h, 2, "X-API-KEY"@, api_key)
    }

    /// Attaches a body; nothing else changes.
    pub fn with_body(self, body: String) -> (r: ApiRequest)
        ensures
            r.method == self.method,
            r.url == self.url,
            r.headers == self.headers,
            r.body == Some(body),
    {
        ApiRequest { body: Some(body), ..self }
    }
}

fn header(name: &str, value: &str) -> (r: (String, String))
    ensures
        r.0@ == name@,
        r.1@ == value@,
{
    (name.to_owned(), value.to_owned())
}

/// A request with the header set of every authenticated call: JSON content,
/// JSON accepted, and the API key carried verbatim, whatever it holds.
pub fn authenticated_request_builder(method: HttpMethod, url: &str, api_key: &str) -> (r: ApiRequest)
    ensures
        r.method == method,
        r.url@ == url@,
        r.authenticated_with(api_key@),
        r.body is None,
{
    let mut headers: Vec<(String, String)> = Vec::new();
    headers.push(header("Content-Type", "application/json"));
    headers.push(header("Accept", "application/json"));
    headers.push(header("X-API-KEY", api_key));
    ApiRequest { method, url: url.to_owned(), headers, body: None }
}

/// A request that carries no credentials: only the JSON content type is set.
pub fn json_request_builder(method: HttpMethod, url: &str) -> (r: ApiRequest)
    ensures
        r.method == method,
        r.url@ == url@,
        r.headers@.len() == 1,
        header_is(r.headers@, 0, "Content-Type"@, "application/json"@),
        r.body is None,
{
    let mut headers: Vec<(String, String)> = Vec::new();
    headers.push(header("Content-Type", "application/json"));
    ApiRequest { method, url: url.to_owned(), headers, body: None }
}

/// The serialization of the URL that a text parses to, or `None` when the text
/// is not an absolute URL.
pub uninterp spec fn parsed_url(text: Seq<char>) -> Option<Seq<char>>;

/// The serialization of the URL that a text parses to, with one more query pair
/// appended in form encoding, or `None` when the text is not an absolute URL.
pub uninterp spec fn parsed_url_with_pair(text: Seq<char>, name: Seq<char>, value: Seq<char>) -> Option<
    Seq<char>,
>;

/// Relies on `url::Url::parse` and `Url::as_str`: the parsed URL's
/// serialization, or the parse error.
#[verifier::external_body]
pub(crate) fn parse_url(text: &str) -> (r: Option<String>)
    ensures
        match r {
            Some(s) => parsed_url(text@) == Some(s@),
            None => parsed_url(text@) is None,
        },
{
    match url::Url::parse(text) {
        Ok(u) => Some(u.as_str().to_owned()),
        Err(_) => None,
    }
}

/// Relies on `url::Url::parse`, then `Url::query_pairs_mut().append_pair`
/// (form_urlencoded): the URL with the pair added to its query. The length
/// bound keeps the serialization within the `u32` offsets the url crate uses.
#[verifier::external_body]
pub(crate) fn parse_url_with_pair(text: &str, name: &str, value: &str) -> (r: Option<String>)
    requires
        text@.len() + name@.len() + value@.len() < 0x0100_0000,
    ensures
        match r {
            Some(s) => parsed_url_with_pair(text@, name@, value@) == Some(s@),
            None => parsed_url_with_pair(text@, name@, value@) is None,
        },
{
    match url::Url::parse(text) {
        Ok(mut u) => {
            u.query_pairs_mut().append_pair(name, value);
            Some(u.as_str().to_owned())
        },
        Err(_) => None,
    }
}

} // verus!
