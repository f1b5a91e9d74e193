use vstd::prelude::*;
use vstd::string::StringExecFns;

use crate::auth::AuthRequest;
use crate::error::Error;
use crate::item::{CreateItemRequest, UpdateItemRequest};
use crate::json::{field_of, lookup, JsonDecode, JsonEncode, JsonValue};
use crate::request::{
    authenticated_request_builder, header_is, json_request_builder, parse_url, parse_url_with_pair,
    parsed_url, parsed_url_with_pair, ApiRequest, HttpMethod,
};
use crate::string_map::StringMap;
use crate::text::{decimal, json_text, to_json_text, write_decimal};
use crate::webhook::{CreateWebhookRequest, WebhookEvent};

verus! {

/// The address of the API's production service.
pub const DEFAULT_URL: &'static str = "https://api.pluggy.ai";


/// The credentials and base address of an API client. Fixed at construction
/// and only read afterwards.
#[derive(Debug)]
pub struct Client {
    pub client_id: String,
    pub client_secret: String,
    pub url: String,
}

/// `r` is an authenticated call with `method` to the URL that `text` parses
/// to, without a body; or, when `text` is not a URL, an invalid-URL error.
pub open spec fn call_to(r: Result<ApiRequest, Error>, method: HttpMethod, text: Seq<char>, api_key: Seq<char>) -> bool {
    match r {
        Ok(req) => {
            &&& parsed_url(text) == Some(req.url@)
            &&& req.method == method
            &&& req.authenticated_with(api_key)
            &&& req.body is None
        },
        Err(e) => e is InvalidUrl && parsed_url(text) is None,
    }
}

/// As `call_to`, but the request carries `body` as its body.
pub open spec fn call_with_body(
    r: Result<ApiRequest, Error>,
    method: HttpMethod,
    text: Seq<char>,
    api_key: Seq<char>,
    body: Seq<char>,
) -> bool {
    match r {
        Ok(req) => {
            &&& parsed_url(text) == Some(req.url@)
            &&& req.method == method
            &&& req.authenticated_with(api_key)
            &&& req.body matches Some(b) && b@ == body
        },
        Err(e) => e is InvalidUrl && parsed_url(text) is None,
    }
}

fn authenticated_call(method: HttpMethod, text: &String, api_key: &str) -> (r: Result<ApiRequest, Error>)
    ensures
        call_to(r, method, text@, api_key@),
{
    match parse_url(text.as_str()) {
        Some(u) => Ok(authenticated_request_builder(method, u.as_str(), api_key)),
        None => Err(Error::InvalidUrl(text.clone())),
    }
}

fn authenticated_call_with(method: HttpMethod, text: &String, api_key: &str, j: &JsonValue) -> (r: Result<
    ApiRequest,
    Error,
>)
    ensures
        call_with_body(r, method, text@, api_key@, json_text(*j)),
{
    match authenticated_call(method, text, api_key) {
        Ok(req) => Ok(req.with_body(to_json_text(j))),
        Err(e) => Err(e),
    }
}

impl Client {
    /// A client of the production service.
    pub fn new(client_id: String, client_secret: String) -> (r: Client)
        ensures
            r.client_id == client_id,
            r.client_secret == client_secret,
            r.url@ == DEFAULT_URL@,
    {
        Client { client_id, client_secret, url: DEFAULT_URL.to_owned() }
    }

    /// A client of the service at `url`.
    pub fn with_url(client_id: String, client_secret: String, url: String) -> (r: Client)
        ensures
            r.client_id == client_id,
            r.client_secret == client_secret,
            r.url == url,
    {
        Client { client_id, client_secret, url }
    }

    /// The base URL followed by `path`.
    fn endpoint(&self, path: &str) -> (r: String)
        ensures
            r@ == self.url@ + path@,
    {
        let mut t = self.url.clone();
        t.append(path);
        t
    }

    /// The base URL followed by `path` and `id`.
    fn resource(&self, path: &str, id: &str) -> (r: String)
        ensures
            r@ == self.url@ + path@ + id@,
    {
        let mut t = self.endpoint(path);
        t.append(id);
        t
    }

    /// The call that exchanges the client credentials for an API key: a POST of
    /// the credentials to `/auth`, with no API key header.
    pub fn create_api_key_request(&self) -> (r: Result<ApiRequest, Error>)
        ensures
            match r {
                Ok(req) => {
                    &&& parsed_url(self.url@ + "/auth"@) == Some(req.url@)
                    &&& req.method == HttpMethod::Post
                    &&& req.headers@.len() == 1
                    &&& header_is(req.headers@, 0, "Content-Type"@, "application/json"@)
                    &&& req.body matches Some(b) && exists|j: JsonValue|
                        #![trigger json_text(j)]
                        (AuthRequest {
                            client_id: self.client_id,
                            client_secret: self.client_secret,
                            non_expiring: None,
                        }).encoded_as(j) && b@ == json_text(j)
                },
                Err(e) => e is InvalidUrl && parsed_url(self.url@ + "/auth"@) is None,
            },
    {
        let text = self.endpoint("/auth");
        let payload = AuthRequest {
            client_id: self.client_id.clone(),
            client_secret: self.client_secret.clone(),
            non_expiring: None,
        };
        let j = payload.to_json();
        match parse_url(text.as_str()) {
            Some(u) => Ok(json_request_builder(HttpMethod::Post, u.as_str()).with_body(to_json_text(&j))),
            None => Err(Error::InvalidUrl(text)),
        }
    }

    /// The call that mints a connect token: a POST to `/connect_token` without a body.
    pub fn create_connect_token_request(&self, api_key: &str) -> (r: Result<ApiRequest, Error>)
        ensures
            call_to(r, HttpMethod::Post, self.url@ + "/connect_token"@, api_key@),
    {
        let text = self.endpoint("/connect_token");
        authenticated_call(HttpMethod::Post, &text, api_key)
    }

    /// The call that lists connectors: a GET of `/connectors` with the query
    /// pair `sandbox=true` or `sandbox=false`.
    pub fn get_connectors_request(&self, api_key: &str, with_sandbox: bool) -> (r: Result<ApiRequest, Error>)
        requires
            self.url@.len() < 0x00ff_0000,
        ensures
            ({
                let text = self.url@ + "/connectors"@;
                let flag = if with_sandbox { "true"@ } else { "false"@ };
                match r {
                    Ok(req) => {
                        &&& parsed_url_with_pair(text, "sandbox"@, flag) == Some(req.url@)
                        &&& req.method == HttpMethod::Get
                        &&& req.authenticated_with(api_key@)
                        &&& req.body is None
                    },
                    Err(e) => e is InvalidUrl && parsed_url_with_pair(text, "sandbox"@, flag) is None,
                }
            }),
    {
        let text = self.endpoint("/connectors");
        proof {
            reveal_strlit("/connectors");
            reveal_strlit("sandbox");
            reveal_strlit("true");
            reveal_strlit("false");
        }
        let flag = if with_sandbox { "true" } else { "false" };
        match parse_url_with_pair(text.as_str(), "sandbox", flag) {
            Some(u) => Ok(authenticated_request_builder(HttpMethod::Get, u.as_str(), api_key)),
            None => Err(Error::InvalidUrl(text)),
        }
    }

    /// The call that fetches one connector: a GET of `/connectors/{id}`.
    pub fn get_connector_request(&self, api_key: &str, connector_id: &str) -> (r: Result<ApiRequest, Error>)
        ensures
            call_to(r, HttpMethod::Get, self.url@ + "/connectors/"@ + connector_id@, api_key@),
    {
        let text = self.resource("/connectors/", connector_id);
        authenticated_call(HttpMethod::Get, &text, api_key)
    }

    /// The call that fetches one item: a GET of `/items/{id}`.
    pub fn get_item_request(&self, api_key: &str, item_id: &str) -> (r: Result<ApiRequest, Error>)
        ensures
            call_to(r, HttpMethod::Get, self.url@ + "/items/"@ + item_id@, api_key@),
    {
        let text = self.resource("/items/", item_id);
        authenticated_call(HttpMethod::Get, &text, api_key)
    }

    /// The call that checks parameters against a connector without creating an
    /// item: a POST of the parameters, as a JSON object, to
    /// `/connectors/{id}/validate`.
    pub fn validate_parameters_request(&self, api_key: &str, connector_id: i32, parameters: &StringMap) -> (r: Result<
        ApiRequest,
        Error,
    >)
        ensures
            exists|j: JsonValue|
                #![trigger json_text(j)]
                StringMap::decodes(j, *parameters) && call_with_body(
                    r,
                    HttpMethod::Post,
                    self.url@ + "/connectors/"@ + decimal(connector_id as int) + "/validate"@,
                    api_key@,
                    json_text(j),
                ),
    {
        let mut text = self.url.clone();
        text.append("/connectors/");
        write_decimal(&mut text, connector_id as i64);
        text.append("/validate");
        assert(text@ =~= self.url@ + "/connectors/"@ + decimal(connector_id as int) + "/validate"@);
        let j = parameters.to_json();
        authenticated_call_with(HttpMethod::Post, &text, api_key, &j)
    }

    /// The call that creates an item: a POST to `/items` of the connector id and
    /// the credential parameters.
    pub fn create_item_request(&self, api_key: &str, connector_id: i32, parameters: &StringMap) -> (r: Result<
        ApiRequest,
        Error,
    >)
        ensures
            exists|j: JsonValue, p: CreateItemRequest|
                #![trigger p.encoded_as(j)]
                p.connector_id == connector_id && p.parameters.entries@ == parameters.entries@
                    && p.encoded_as(j) && call_with_body(
                    r,
                    HttpMethod::Post,
                    self.url@ + "/items"@,
                    api_key@,
                    json_text(j),
                ),
    {
        let text = self.endpoint("/items");
        let payload = CreateItemRequest { connector_id, parameters: parameters.cloned() };
        let j = payload.to_json();
        authenticated_call_with(HttpMethod::Post, &text, api_key, &j)
    }

    /// The call that sends new credential parameters for an item: a PATCH of
    /// `/items/{id}` whose body holds the parameters only.
    pub fn update_item_request(&self, api_key: &str, item_id: &str, parameters: &StringMap) -> (r: Result<
        ApiRequest,
        Error,
    >)
        ensures
            exists|j: JsonValue, p: UpdateItemRequest|
                #![trigger p.encoded_as(j)]
                p.parameters.entries@ == parameters.entries@ && p.encoded_as(j) && call_with_body(
                    r,
                    HttpMethod::Patch,
                    self.url@ + "/items/"@ + item_id@,
                    api_key@,
                    json_text(j),
                ),
    {
        let text = self.resource("/items/", item_id);
        let payload = UpdateItemRequest { parameters: parameters.cloned() };
        let j = payload.to_json();
        authenticated_call_with(HttpMethod::Patch, &text, api_key, &j)
    }

    /// The call that answers an item's multi-factor challenge: a PATCH of
    /// `/items/{id}/mfa` whose body holds the parameters only.
    pub fn update_item_mfa_credentials_request(&self, api_key: &str, item_id: &str, parameters: &StringMap) -> (r: Result<
        ApiRequest,
        Error,
    >)
        ensures
            exists|j: JsonValue, p: UpdateItemRequest|
                #![trigger p.encoded_as(j)]
                p.parameters.entries@ == parameters.entries@ && p.encoded_as(j) && call_with_body(
                    r,
                    HttpMethod::Patch,
                    self.url@ + "/items/"@ + item_id@ + "/mfa"@,
                    api_key@,
                    json_text(j),
                ),
    {
        let mut text = self.resource("/items/", item_id);
        text.append("/mfa");
        assert(text@ =~= self.url@ + "/items/"@ + item_id@ + "/mfa"@);
        let payload = UpdateItemRequest { parameters: parameters.cloned() };
        let j = payload.to_json();
        authenticated_call_with(HttpMethod::Patch, &text, api_key, &j)
    }

    /// The call that deletes an item: a DELETE of `/items/{id}`.
    pub fn delete_item_request(&self, api_key: &str, item_id: &str) -> (r: Result<ApiRequest, Error>)
        ensures
            call_to(r, HttpMethod::Delete, self.url@ + "/items/"@ + item_id@, api_key@),
    {
        let text = self.resource("/items/", item_id);
        authenticated_call(HttpMethod::Delete, &text, api_key)
    }

    /// The call that lists categories: a GET of `/categories`.
    pub fn get_categories_request(&self, api_key: &str) -> (r: Result<ApiRequest, Error>)
        ensures
            call_to(r, HttpMethod::Get, self.url@ + "/categories"@, api_key@),
    {
        let text = self.endpoint("/categories");
        authenticated_call(HttpMethod::Get, &text, api_key)
    }

    /// The call that fetches one category: a GET of `/categories/{id}`.
    pub fn get_category_request(&self, api_key: &str, category_id: &str) -> (r: Result<ApiRequest, Error>)
        ensures
            call_to(r, HttpMethod::Get, self.url@ + "/categories/"@ + category_id@, api_key@),
    {
        let text = self.resource("/categories/", category_id);
        authenticated_call(HttpMethod::Get, &text, api_key)
    }

    /// The call that lists webhooks: a GET of `/webhooks`.
    pub fn get_webhooks_request(&self, api_key: &str) -> (r: Result<ApiRequest, Error>)
        ensures
            call_to(r, HttpMethod::Get, self.url@ + "/webhooks"@, api_key@),
    {
        let text = self.endpoint("/webhooks");
        authenticated_call(HttpMethod::Get, &text, api_key)
    }

    /// The call that fetches one webhook: a GET of `/webhooks/{id}`.
    pub fn get_webhook_request(&self, api_key: &str, webhook_id: &str) -> (r: Result<ApiRequest, Error>)
        ensures
            call_to(r, HttpMethod::Get, self.url@ + "/webhooks/"@ + webhook_id@, api_key@),
    {
        let text = self.resource("/webhooks/", webhook_id);
        authenticated_call(HttpMethod::Get, &text, api_key)
    }

    /// The call that registers a webhook: a POST to `/webhooks` of the target
    /// URL and the event, with no custom headers.
    pub fn create_webhook_request(&self, api_key: &str, url: &str, event: WebhookEvent) -> (r: Result<
        ApiRequest,
        Error,
    >)
        ensures
            exists|j: JsonValue, p: CreateWebhookRequest|
                #![trigger p.encoded_as(j)]
                p.url@ == url@ && p.event == event && p.headers is None && p.encoded_as(j)
                    && call_with_body(r, HttpMethod::Post, self.url@ + "/webhooks"@, api_key@, json_text(j)),
    {
        let text = self.endpoint("/webhooks");
        let payload = CreateWebhookRequest { event, url: url.to_owned(), headers: None };
        let j = payload.to_json();
        authenticated_call_with(HttpMethod::Post, &text, api_key, &j)
    }

    /// The call that deletes a webhook: a DELETE of `/webhooks/{id}`.
    pub fn delete_webhook_request(&self, api_key: &str, webhook_id: &str) -> (r: Result<ApiRequest, Error>)
        ensures
            call_to(r, HttpMethod::Delete, self.url@ + "/webhooks/"@ + webhook_id@, api_key@),
    {
        let text = self.resource("/webhooks/", webhook_id);
        authenticated_call(HttpMethod::Delete, &text, api_key)
    }
}

/// The text of member `key` of a response body, when the body is an object and
/// that member holds text.
pub open spec fn text_member(body: JsonValue, key: Seq<char>) -> Option<Seq<char>> {
    match body {
        JsonValue::Object(members) => match field_of(members@, key) {
            Some(JsonValue::Str(s)) => Some(s@),
            _ => None,
        },
        _ => None,
    }
}

/// Reads the text member `key` of a response body. Fails with a missing-field
/// error naming `key` when the body is not an object, or the member is absent
/// or not text.
pub fn string_member(body: &JsonValue, key: &str) -> (r: Result<String, Error>)
    ensures
        match r {
            Ok(s) => text_member(*body, key@) == Some(s@),
            Err(e) => text_member(*body, key@) is None && e is MissingField && e->MissingField_0@ == key@,
        },
{
    if let JsonValue::Object(members) = body {
        if let Some(JsonValue::Str(s)) = lookup(members, key) {
            return Ok(s.clone());
        }
    }
    Err(Error::MissingField(key.to_owned()))
}

/// The API key in the answer to the authentication call (member `apiKey`).
pub fn api_key_from(body: &JsonValue) -> (r: Result<String, Error>)
    ensures
        match r {
            Ok(s) => text_member(*body, "apiKey"@) == Some(s@),
            Err(e) => text_member(*body, "apiKey"@) is None && e is MissingField
                && e->MissingField_0@ == "apiKey"@,
        },
{
    string_member(body, "apiKey")
}

/// The connect token in the answer to the connect-token call (member
/// `accessToken`).
pub fn connect_token_from(body: &JsonValue) -> (r: Result<String, Error>)
    ensures
        match r {
            Ok(s) => text_member(*body, "accessToken"@) == Some(s@),
            Err(e) => text_member(*body, "accessToken"@) is None && e is MissingField
                && e->MissingField_0@ == "accessToken"@,
        },
{
    string_member(body, "accessToken")
}

/// The status code of a successful deletion.
pub const STATUS_OK: u16 = 200;

/// Whether a deletion was confirmed: only status 200 counts.
pub fn check_deleted(status: u16) -> (r: Result<(), Error>)
    ensures
        r is Ok <==> status == STATUS_OK,
        r matches Err(e) ==> e is OperationFailed,
{
    if status == STATUS_OK {
        Ok(())
    } else {
        Err(Error::OperationFailed("the deletion was not confirmed".to_owned()))
    }
}

} // verus!
