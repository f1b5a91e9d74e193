use pluggy::{
    page_results, to_json_text, Category, Connector, ConnectorStatus, ConnectorType, Country,
    CreateItemRequest, CreateWebhookRequest, CredentialType, Error, ExecutionErrorCodes,
    ExecutionErrorResult, ExecutionStatus, Item, ItemStatus, JsonDecode, JsonEncode, JsonValue,
    PageResponse, ProductType, StringMap, UpdateItemRequest, UpdateWebhookRequest,
    ValidationResult, Webhook, WebhookEvent,
};

fn text(v: &str) -> JsonValue {
    JsonValue::Str(v.to_string())
}

fn obj(members: Vec<(&str, JsonValue)>) -> JsonValue {
    JsonValue::Object(members.into_iter().map(|(k, v)| (k.to_string(), v)).collect())
}

fn connector_doc(id: i64, name: &str, kind: &str, country: &str) -> JsonValue {
    obj(vec![
        ("id", JsonValue::Int(id)),
        ("name", text(name)),
        ("institutionUrl", text("https://bank.example")),
        ("imageUrl", text("https://bank.example/logo.png")),
        ("primaryColor", text("ef7d00")),
        ("type", text(kind)),
        ("country", text(country)),
        (
            "credentials",
            JsonValue::Array(vec![obj(vec![
                ("label", text("User")),
                ("name", text("user")),
                ("type", text("text")),
                ("optional", JsonValue::Bool(false)),
            ])]),
        ),
        ("hasMFA", JsonValue::Bool(false)),
        ("health", obj(vec![("status", text("ONLINE")), ("stage", JsonValue::Null)])),
        ("products", JsonValue::Array(vec![text("ACCOUNTS"), text("CREDIT_CARDS")])),
        ("createdAt", text("2020-09-07T00:08:06.588Z")),
    ])
}

fn item_doc(with_user_action: bool) -> JsonValue {
    let mut members = vec![
        ("id", text("e22c7308-7031-47f0-88a3-462f44d96f70")),
        ("connector", connector_doc(201, "Itaú", "PERSONAL_BANK", "BR")),
        ("status", text("LOGIN_ERROR")),
        ("executionStatus", text("SUCCESS")),
        ("createdAt", text("2022-01-01T00:00:00.000Z")),
        ("updatedAt", text("2022-01-02T00:00:00.000Z")),
        ("consecutiveFailedLoginAttempts", JsonValue::Int(0)),
    ];
    if with_user_action {
        members.push((
            "userAction",
            obj(vec![("instructions", text("Open the bank app")), ("expiresAt", JsonValue::Null)]),
        ));
    }
    obj(members)
}

fn params() -> StringMap {
    let mut m = StringMap::new();
    m.insert("user".to_string(), "user-ok".to_string());
    m.insert("password".to_string(), "password-ok".to_string());
    m
}

#[test]
fn decodes_full_connector() {
    let c = Connector::decode(&connector_doc(201, "Itaú", "PERSONAL_BANK", "BR")).unwrap();
    assert_eq!(c.id, 201);
    assert_eq!(c.name, "Itaú");
    assert_eq!(c.connector_type, ConnectorType::PersonalBank);
    assert_eq!(c.country, Country::BR);
    assert_eq!(c.credentials.len(), 1);
    assert_eq!(c.credentials[0].credential_type, Some(CredentialType::Text));
    assert_eq!(c.credentials[0].optional, Some(false));
    assert_eq!(c.credentials[0].mfa, None);
    assert!(!c.has_mfa);
    assert_eq!(c.oauth, None);
    assert_eq!(c.oauth_url, None);
    let health = c.health.unwrap();
    assert_eq!(health.status, ConnectorStatus::Online);
    assert_eq!(health.stage, None);
    assert_eq!(c.products, vec![ProductType::Accounts, ProductType::CreditCards]);
}

#[test]
fn unknown_connector_type_is_a_decode_error() {
    let r = Connector::decode(&connector_doc(1, "X", "BANK", "BR"));
    assert!(matches!(r, Err(Error::Decode(_))));
}

#[test]
fn unknown_country_is_a_decode_error() {
    let r = Connector::decode(&connector_doc(1, "X", "PERSONAL_BANK", "US"));
    assert!(matches!(r, Err(Error::Decode(_))));
}

#[test]
fn missing_required_member_names_it() {
    let doc = obj(vec![("id", text("01000000"))]);
    match Category::decode(&doc) {
        Err(Error::Decode(what)) => assert_eq!(what, "description"),
        other => panic!("unexpected {:?}", other),
    }
}

#[test]
fn integer_outside_i32_is_rejected() {
    assert!(matches!(i32::decode(&JsonValue::Int(2_147_483_648)), Err(Error::Decode(_))));
    assert_eq!(i32::decode(&JsonValue::Int(-2_147_483_648)).unwrap(), i32::MIN);
    assert!(matches!(i32::decode(&JsonValue::OtherNumber("1.5".to_string())), Err(Error::Decode(_))));
}

#[test]
fn enum_wire_names() {
    assert_eq!(CredentialType::decode(&text("ethaddress")).unwrap(), CredentialType::EthAddress);
    assert!(CredentialType::decode(&text("ETHADDRESS")).is_err());
    assert_eq!(
        ExecutionStatus::decode(&text("CREDITCARDS_IN_PROGRESS")).unwrap(),
        ExecutionStatus::CreditcardsInProgress
    );
    assert_eq!(
        ExecutionErrorCodes::decode(&text("INVALID_CREDENTIALS_MFA")).unwrap(),
        ExecutionErrorCodes::InvalidCredentialsMfa
    );
    assert_eq!(ItemStatus::decode(&text("WAITING_USER_INPUT")).unwrap(), ItemStatus::WaitingUserInput);
    assert_eq!(
        WebhookEvent::decode(&text("connector/status_updated")).unwrap(),
        WebhookEvent::ConnectorStatusUpdated
    );
    assert!(WebhookEvent::decode(&text("item_updated")).is_err());
    assert!(ItemStatus::decode(&JsonValue::Int(1)).is_err());
}

#[test]
fn item_without_user_action_keeps_it_absent() {
    let item = Item::decode(&item_doc(false)).unwrap();
    assert!(item.user_action.is_none());
    assert_eq!(item.id, "e22c7308-7031-47f0-88a3-462f44d96f70");
    assert!(matches!(item.status, ItemStatus::LoginError));
    assert!(matches!(item.execution_status, ExecutionStatus::Success));
    assert_eq!(item.consecutive_failed_login_attempts, 0);
    assert_eq!(item.connector.id, 201);
    assert_eq!(item.connector.name, "Itaú");
    assert!(item.error.is_none());
    assert!(item.status_detail.is_none());
}

#[test]
fn item_with_user_action() {
    let item = Item::decode(&item_doc(true)).unwrap();
    let action = item.user_action.unwrap();
    assert_eq!(action.instructions, "Open the bank app");
    assert!(action.expires_at.is_none());
    assert!(action.attributes.is_none());
}

#[test]
fn execution_error_with_attributes() {
    let doc = obj(vec![
        ("code", text("SITE_NOT_AVAILABLE")),
        ("message", text("down")),
        ("attributes", obj(vec![("retry", text("later"))])),
    ]);
    let e = ExecutionErrorResult::decode(&doc).unwrap();
    assert_eq!(e.code, ExecutionErrorCodes::SiteNotAvailable);
    assert_eq!(e.provider_message, None);
    let attrs = e.attributes.unwrap();
    assert_eq!(attrs.get("retry").unwrap(), "later");
    let bad = obj(vec![("code", text("SITE_NOT_AVAILABLE")), ("message", text("down")), ("attributes", obj(vec![("n", JsonValue::Int(1))]))]);
    assert!(matches!(ExecutionErrorResult::decode(&bad), Err(Error::Decode(_))));
}

#[test]
fn page_of_two_connectors_keeps_order() {
    let doc = obj(vec![
        (
            "results",
            JsonValue::Array(vec![
                connector_doc(2, "Pluggy Bank", "PERSONAL_BANK", "BR"),
                connector_doc(201, "Itaú", "PERSONAL_BANK", "BR"),
            ]),
        ),
        ("page", JsonValue::Int(1)),
        ("totalPages", JsonValue::Int(3)),
        ("total", JsonValue::Int(42)),
    ]);
    let connectors: Vec<Connector> = page_results(&doc).unwrap();
    assert_eq!(connectors.len(), 2);
    assert_eq!(connectors[0].id, 2);
    assert_eq!(connectors[0].name, "Pluggy Bank");
    assert_eq!(connectors[1].id, 201);
    let page = PageResponse::<Connector>::decode(&doc).unwrap();
    assert_eq!((page.page, page.total_pages, page.total), (1, 3, 42));
}

#[test]
fn page_with_a_bad_result_fails() {
    let doc = obj(vec![
        ("results", JsonValue::Array(vec![connector_doc(2, "Pluggy Bank", "NOPE", "BR")])),
        ("page", JsonValue::Int(1)),
        ("totalPages", JsonValue::Int(1)),
        ("total", JsonValue::Int(1)),
    ]);
    assert!(matches!(page_results::<Connector>(&doc), Err(Error::Decode(_))));
}

#[test]
fn validation_result_echoes_parameters() {
    let doc = obj(vec![
        ("parameters", obj(vec![("user", text("user-ok")), ("password", text("password-ok"))])),
        ("errors", JsonValue::Array(vec![])),
    ]);
    let result = ValidationResult::decode(&doc).unwrap();
    assert_eq!(result.parameters.len(), 2);
    assert_eq!(result.parameters.get("user").unwrap(), "user-ok");
    assert_eq!(result.parameters.get("password").unwrap(), "password-ok");
    assert_eq!(result.errors.len(), 0);
}

#[test]
fn validation_result_with_errors() {
    let doc = obj(vec![
        ("parameters", obj(vec![("user", text("user-bad"))])),
        (
            "errors",
            JsonValue::Array(vec![obj(vec![
                ("code", text("001")),
                ("message", text("invalid user")),
                ("parameter", text("user")),
            ])]),
        ),
    ]);
    let result = ValidationResult::decode(&doc).unwrap();
    assert_eq!(result.errors.len(), 1);
    assert_eq!(result.errors[0].parameter, "user");
}

#[test]
fn webhook_and_category() {
    let doc = obj(vec![
        ("id", text("6903e8ab-5858-460c-9c6b-2e367ac0d3e9")),
        ("url", text("https://some.site/pluggy-notifications")),
        ("event", text("item/updated")),
        ("createdAt", text("2022-01-01")),
        ("updatedAt", text("2022-01-01")),
    ]);
    let w = Webhook::decode(&doc).unwrap();
    assert_eq!(w.url, "https://some.site/pluggy-notifications");
    assert!(matches!(w.event, WebhookEvent::ItemUpdated));
    assert!(w.disabled_at.is_none());
    let c = Category::decode(&obj(vec![
        ("id", text("01000000")),
        ("description", text("Income")),
        ("parentId", JsonValue::Null),
    ]))
    .unwrap();
    assert_eq!(c.description, "Income");
    assert!(c.parent_id.is_none());
}

#[test]
fn json_text_is_compact_and_escaped() {
    let doc = obj(vec![
        ("a", text("say \"hi\"\n")),
        ("n", JsonValue::Int(-120)),
        ("b", JsonValue::Bool(true)),
        ("z", JsonValue::Null),
        ("arr", JsonValue::Array(vec![JsonValue::Int(0), JsonValue::OtherNumber("1.5".to_string())])),
        ("o", obj(vec![])),
    ]);
    assert_eq!(
        to_json_text(&doc),
        "{\"a\":\"say \\\"hi\\\"\\n\",\"n\":-120,\"b\":true,\"z\":null,\"arr\":[0,1.5],\"o\":{}}"
    );
    assert_eq!(to_json_text(&JsonValue::Int(i64::MIN)), "-9223372036854775808");
    assert_eq!(to_json_text(&JsonValue::Int(i64::MAX)), "9223372036854775807");
    assert_eq!(to_json_text(&JsonValue::Array(vec![])), "[]");
}

#[test]
fn update_item_request_round_trips() {
    let supplied = obj(vec![(
        "parameters",
        obj(vec![("user", text("user-ok")), ("password", text("password-ok"))]),
    )]);
    let r = UpdateItemRequest::decode(&supplied).unwrap();
    let again = r.to_json();
    assert_eq!(to_json_text(&again), to_json_text(&supplied));
    assert_eq!(to_json_text(&again), "{\"parameters\":{\"user\":\"user-ok\",\"password\":\"password-ok\"}}");
}

#[test]
fn create_requests_round_trip() {
    let r = CreateItemRequest { connector_id: 2, parameters: params() };
    let j = r.to_json();
    assert_eq!(
        to_json_text(&j),
        "{\"connectorId\":2,\"parameters\":{\"user\":\"user-ok\",\"password\":\"password-ok\"}}"
    );
    let back = CreateItemRequest::decode(&j).unwrap();
    assert_eq!(back.connector_id, 2);
    assert_eq!(back.parameters.entries, params().entries);

    let w = CreateWebhookRequest {
        event: WebhookEvent::ItemUpdated,
        url: "https://somesite.com/pluggy-notifications".to_string(),
        headers: None,
    };
    let wj = w.to_json();
    assert_eq!(
        to_json_text(&wj),
        "{\"event\":\"item/updated\",\"url\":\"https://somesite.com/pluggy-notifications\",\"headers\":null}"
    );
    let wb = CreateWebhookRequest::decode(&wj).unwrap();
    assert_eq!(wb.event, WebhookEvent::ItemUpdated);
    assert!(wb.headers.is_none());
}

#[test]
fn update_webhook_request_round_trips() {
    let supplied = obj(vec![("enabled", JsonValue::Bool(false)), ("url", text("https://a.example/hook"))]);
    let r = UpdateWebhookRequest::decode(&supplied).unwrap();
    assert_eq!(r.enabled, Some(false));
    assert!(r.event.is_none());
    assert_eq!(
        to_json_text(&r.to_json()),
        "{\"event\":null,\"url\":\"https://a.example/hook\",\"headers\":null,\"enabled\":false}"
    );
}

#[test]
fn string_map_insert_replaces() {
    let mut m = params();
    m.insert("user".to_string(), "other".to_string());
    assert_eq!(m.len(), 2);
    assert_eq!(m.get("user").unwrap(), "other");
    assert!(m.get("missing").is_none());
    assert_eq!(m.cloned().entries, m.entries);
}

#[test]
fn last_duplicate_member_wins() {
    let doc = obj(vec![("id", text("first")), ("description", text("d")), ("id", text("second"))]);
    assert_eq!(Category::decode(&doc).unwrap().id, "second");
}

#[test]
fn execution_error_result_code_must_be_known() {
    let doc = obj(vec![("code", text("SOMETHING_NEW")), ("message", text("m"))]);
    assert!(matches!(ExecutionErrorResult::decode(&doc), Err(Error::Decode(_))));
}

#[test]
fn select_credential_and_beta_stage() {
    let cred = pluggy::ConnectorCredential::decode(&obj(vec![
        ("label", text("Account type")),
        ("name", text("kind")),
        ("type", text("select")),
        (
            "options",
            JsonValue::Array(vec![
                obj(vec![("label", text("Personal")), ("value", text("p"))]),
                obj(vec![("label", text("Business")), ("value", text("b"))]),
            ]),
        ),
    ]))
    .unwrap();
    assert_eq!(cred.credential_type, Some(CredentialType::Select));
    let options = cred.options.unwrap();
    assert_eq!(options.len(), 2);
    assert_eq!(options[1].value, "b");
    let health = pluggy::ConnectorHealth::decode(&obj(vec![("status", text("UNSTABLE")), ("stage", text("BETA"))])).unwrap();
    assert_eq!(health.status, ConnectorStatus::Unstable);
    assert_eq!(health.stage, Some(pluggy::ConnectorStage::Beta));
    assert_eq!(Country::decode(&text("AR")).unwrap(), Country::AR);
    assert!(Country::decode(&text("ar")).is_err());
}
