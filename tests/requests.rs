use pluggy::{
    api_key_from, authenticated_request_builder, check_deleted, connect_token_from, ApiRequest,
    Client, Error, HttpMethod, JsonValue, StringMap, WebhookEvent,
};

const ITEM_ID: &str = "e22c7308-7031-47f0-88a3-462f44d96f70";

fn client() -> Client {
    Client::new("client-id".to_string(), "client-secret".to_string())
}

fn header_pairs(r: &ApiRequest) -> Vec<(&str, &str)> {
    r.headers.iter().map(|(k, v)| (k.as_str(), v.as_str())).collect()
}

fn auth_headers(key: &str) -> Vec<(&str, &str)> {
    vec![("Content-Type", "application/json"), ("Accept", "application/json"), ("X-API-KEY", key)]
}

fn params() -> StringMap {
    let mut m = StringMap::new();
    m.insert("user".to_string(), "user-ok".to_string());
    m.insert("password".to_string(), "password-ok".to_string());
    m
}

#[test]
fn builder_sets_exactly_three_headers() {
    for method in [HttpMethod::Get, HttpMethod::Post, HttpMethod::Patch, HttpMethod::Delete] {
        let r = authenticated_request_builder(method, "https://api.pluggy.ai/items", "tok 123");
        assert_eq!(r.method, method);
        assert_eq!(r.url, "https://api.pluggy.ai/items");
        assert_eq!(header_pairs(&r), auth_headers("tok 123"));
        assert!(r.body.is_none());
    }
}

#[test]
fn builder_attaches_empty_token_verbatim() {
    let r = authenticated_request_builder(HttpMethod::Get, "https://api.pluggy.ai/", "");
    assert_eq!(header_pairs(&r), auth_headers(""));
}

#[test]
fn method_names() {
    assert_eq!(HttpMethod::Get.name(), "GET");
    assert_eq!(HttpMethod::Patch.name(), "PATCH");
}

#[test]
fn api_key_request_posts_credentials_without_key_header() {
    let r = client().create_api_key_request().unwrap();
    assert_eq!(r.method, HttpMethod::Post);
    assert_eq!(r.url, "https://api.pluggy.ai/auth");
    assert_eq!(header_pairs(&r), vec![("Content-Type", "application/json")]);
    assert_eq!(
        r.body.unwrap(),
        "{\"clientId\":\"client-id\",\"clientSecret\":\"client-secret\",\"nonExpiring\":null}"
    );
}

#[test]
fn connect_token_request() {
    let r = client().create_connect_token_request("key").unwrap();
    assert_eq!(r.method, HttpMethod::Post);
    assert_eq!(r.url, "https://api.pluggy.ai/connect_token");
    assert_eq!(header_pairs(&r), auth_headers("key"));
    assert!(r.body.is_none());
}

#[test]
fn connectors_request_carries_sandbox_flag() {
    let with = client().get_connectors_request("key", true).unwrap();
    assert_eq!(with.method, HttpMethod::Get);
    assert_eq!(with.url, "https://api.pluggy.ai/connectors?sandbox=true");
    let without = client().get_connectors_request("key", false).unwrap();
    assert_eq!(without.url, "https://api.pluggy.ai/connectors?sandbox=false");
    assert_eq!(header_pairs(&without), auth_headers("key"));
}

#[test]
fn get_paths() {
    let c = client();
    assert_eq!(c.get_connector_request("k", "201").unwrap().url, "https://api.pluggy.ai/connectors/201");
    assert_eq!(c.get_item_request("k", ITEM_ID).unwrap().url, format!("https://api.pluggy.ai/items/{}", ITEM_ID));
    assert_eq!(c.get_categories_request("k").unwrap().url, "https://api.pluggy.ai/categories");
    assert_eq!(c.get_category_request("k", "01000000").unwrap().url, "https://api.pluggy.ai/categories/01000000");
    assert_eq!(c.get_webhooks_request("k").unwrap().url, "https://api.pluggy.ai/webhooks");
    let w = c.get_webhook_request("k", "6903e8ab").unwrap();
    assert_eq!(w.url, "https://api.pluggy.ai/webhooks/6903e8ab");
    assert_eq!(w.method, HttpMethod::Get);
}

#[test]
fn url_is_normalised_by_the_parser() {
    let c = Client::with_url("a".to_string(), "b".to_string(), "HTTPS://API.Example.COM".to_string());
    assert_eq!(c.get_categories_request("k").unwrap().url, "https://api.example.com/categories");
    let r = client().get_item_request("k", "a b").unwrap();
    assert_eq!(r.url, "https://api.pluggy.ai/items/a%20b");
}

#[test]
fn invalid_base_url_is_reported() {
    let c = Client::with_url("a".to_string(), "b".to_string(), "not a url".to_string());
    assert!(matches!(c.get_categories_request("k"), Err(Error::InvalidUrl(_))));
    assert!(matches!(c.get_connectors_request("k", true), Err(Error::InvalidUrl(_))));
    assert!(matches!(c.create_api_key_request(), Err(Error::InvalidUrl(_))));
}

#[test]
fn validate_request_posts_parameters() {
    let r = client().validate_parameters_request("key", 2, &params()).unwrap();
    assert_eq!(r.method, HttpMethod::Post);
    assert_eq!(r.url, "https://api.pluggy.ai/connectors/2/validate");
    assert_eq!(header_pairs(&r), auth_headers("key"));
    assert_eq!(r.body.unwrap(), "{\"user\":\"user-ok\",\"password\":\"password-ok\"}");
    let neg = client().validate_parameters_request("key", -7, &StringMap::new()).unwrap();
    assert_eq!(neg.url, "https://api.pluggy.ai/connectors/-7/validate");
    assert_eq!(neg.body.unwrap(), "{}");
}

#[test]
fn create_item_request_body() {
    let r = client().create_item_request("key", 2, &params()).unwrap();
    assert_eq!(r.method, HttpMethod::Post);
    assert_eq!(r.url, "https://api.pluggy.ai/items");
    assert_eq!(
        r.body.unwrap(),
        "{\"connectorId\":2,\"parameters\":{\"user\":\"user-ok\",\"password\":\"password-ok\"}}"
    );
}

#[test]
fn update_item_requests_send_parameters_only() {
    let r = client().update_item_request("key", ITEM_ID, &params()).unwrap();
    assert_eq!(r.method, HttpMethod::Patch);
    assert_eq!(r.url, format!("https://api.pluggy.ai/items/{}", ITEM_ID));
    assert_eq!(r.body.unwrap(), "{\"parameters\":{\"user\":\"user-ok\",\"password\":\"password-ok\"}}");
    let mfa = client().update_item_mfa_credentials_request("key", ITEM_ID, &params()).unwrap();
    assert_eq!(mfa.method, HttpMethod::Patch);
    assert_eq!(mfa.url, format!("https://api.pluggy.ai/items/{}/mfa", ITEM_ID));
}

#[test]
fn delete_requests() {
    let r = client().delete_item_request("key", ITEM_ID).unwrap();
    assert_eq!(r.method, HttpMethod::Delete);
    assert!(r.body.is_none());
    let w = client().delete_webhook_request("key", "abc").unwrap();
    assert_eq!(w.method, HttpMethod::Delete);
    assert_eq!(w.url, "https://api.pluggy.ai/webhooks/abc");
}

#[test]
fn create_webhook_request_body() {
    let r = client()
        .create_webhook_request("key", "https://somesite.com/pluggy-notifications", WebhookEvent::ItemUpdated)
        .unwrap();
    assert_eq!(r.method, HttpMethod::Post);
    assert_eq!(r.url, "https://api.pluggy.ai/webhooks");
    assert_eq!(
        r.body.unwrap(),
        "{\"event\":\"item/updated\",\"url\":\"https://somesite.com/pluggy-notifications\",\"headers\":null}"
    );
}

#[test]
fn api_key_is_read_from_answer() {
    let answer = JsonValue::Object(vec![("apiKey".to_string(), JsonValue::Str("tok123".to_string()))]);
    assert_eq!(api_key_from(&answer).unwrap(), "tok123");
}

#[test]
fn missing_api_key_is_missing_field() {
    let empty = JsonValue::Object(vec![]);
    match api_key_from(&empty) {
        Err(Error::MissingField(name)) => assert_eq!(name, "apiKey"),
        other => panic!("unexpected {:?}", other),
    }
    let not_text = JsonValue::Object(vec![("apiKey".to_string(), JsonValue::Int(5))]);
    assert!(matches!(api_key_from(&not_text), Err(Error::MissingField(_))));
    assert!(matches!(api_key_from(&JsonValue::Null), Err(Error::MissingField(_))));
}

#[test]
fn connect_token_is_read_from_answer() {
    let answer = JsonValue::Object(vec![("accessToken".to_string(), JsonValue::Str("ct".to_string()))]);
    assert_eq!(connect_token_from(&answer).unwrap(), "ct");
    match connect_token_from(&JsonValue::Object(vec![])) {
        Err(Error::MissingField(name)) => assert_eq!(name, "accessToken"),
        other => panic!("unexpected {:?}", other),
    }
}

#[test]
fn delete_confirmation_needs_status_200() {
    assert!(check_deleted(200).is_ok());
    assert!(matches!(check_deleted(404), Err(Error::OperationFailed(_))));
    assert!(matches!(check_deleted(204), Err(Error::OperationFailed(_))));
}
