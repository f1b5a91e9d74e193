use vstd::prelude::*;
use vstd::string::StringExecFns;

use crate::error::Error;
use crate::json::{
    decode_error, has_field, has_opt_field, member_is, members_of, opt_to_json, read_optional,
    read_required, str_eq, JsonDecode, JsonEncode, JsonValue,
};
use crate::string_map::StringMap;

verus! {

/// The event a webhook is notified of.
#[derive(Debug, Clone, Copy, PartialEq, Eq, Structural)]
pub enum WebhookEvent {
    ItemCreated,
    ItemUpdated,
    ItemError,
    ItemDeleted,
    ItemWaitingUserInput,
    ItemLoginSucceeded,
    ConnectorStatusUpdated,
    TransactionsDeleted,
    All,
}

impl WebhookEvent {
    /// The value that stands for this variant in the API's documents.
    pub open spec fn wire_name(self) -> Seq<char> {
        match self {
            WebhookEvent::ItemCreated => "item/created"@,
            WebhookEvent::ItemUpdated => "item/updated"@,
            WebhookEvent::ItemError => "item/error"@,
            WebhookEvent::ItemDeleted => "item/deleted"@,
            WebhookEvent::ItemWaitingUserInput => "item/waiting_user_input"@,
            WebhookEvent::ItemLoginSucceeded => "item/login_succeeded"@,
            WebhookEvent::ConnectorStatusUpdated => "connector/status_updated"@,
            WebhookEvent::TransactionsDeleted => "transactions/deleted"@,
            WebhookEvent::All => "all"@,
        }
    }
}

impl JsonDecode for WebhookEvent {
    open spec fn decodes(j: JsonValue, v: WebhookEvent) -> bool {
        j is Str && j->Str_0@ == v.wire_name()
    }

    fn decode(j: &JsonValue) -> (r: Result<WebhookEvent, Error>) {
        if let JsonValue::Str(s) = j {
            let s = s.as_str();
            if str_eq(s, "item/created") {
                return Ok(WebhookEvent::ItemCreated);
            } else if str_eq(s, "item/updated") {
                return Ok(WebhookEvent::ItemUpdated);
            } else if str_eq(s, "item/error") {
                return Ok(WebhookEvent::ItemError);
            } else if str_eq(s, "item/deleted") {
                return Ok(WebhookEvent::ItemDeleted);
            } else if str_eq(s, "item/waiting_user_input") {
                return Ok(WebhookEvent::ItemWaitingUserInput);
            } else if str_eq(s, "item/login_succeeded") {
                return Ok(WebhookEvent::ItemLoginSucceeded);
            } else if str_eq(s, "connector/status_updated") {
                return Ok(WebhookEvent::ConnectorStatusUpdated);
            } else if str_eq(s, "transactions/deleted") {
                return Ok(WebhookEvent::TransactionsDeleted);
            } else if str_eq(s, "all") {
                return Ok(WebhookEvent::All);
            }
        }
        Err(decode_error("a webhook event"))
    }
}

/// A registered notification target.
#[derive(Debug)]
pub struct Webhook {
    pub id: String,
    pub url: String,
    pub event: WebhookEvent,
    pub created_at: String,
    pub updated_at: String,
    pub disabled_at: Option<String>,
}

impl JsonDecode for Webhook {
    open spec fn decodes(j: JsonValue, v: Webhook) -> bool {
        j is Object && {
            let m = j->Object_0@;
            &&& has_field(m, "id"@, v.id)
            &&& has_field(m, "url"@, v.url)
            &&& has_field(m, "event"@, v.event)
            &&& has_field(m, "createdAt"@, v.created_at)
            &&& has_field(m, "updatedAt"@, v.updated_at)
            &&& has_opt_field(m, "disabledAt"@, v.disabled_at)
        }
    }

    fn decode(j: &JsonValue) -> (r: Result<Webhook, Error>) {
        let m = match members_of(j) {
            Ok(m) => m,
            Err(e) => return Err(e),
        };
        let id = match read_required(m, "id") {
            Ok(x) => x,
            Err(e) => return Err(e),
        };
        let url = match read_required(m, "url") {
            Ok(x) => x,
            Err(e) => return Err(e),
        };
        let event = match read_required(m, "event") {
            Ok(x) => x,
            Err(e) => return Err(e),
        };
        let created_at = match read_required(m, "createdAt") {
            Ok(x) => x,
            Err(e) => return Err(e),
        };
        let updated_at = match read_required(m, "updatedAt") {
            Ok(x) => x,
            Err(e) => return Err(e),
        };
        let disabled_at = match read_optional(m, "disabledAt") {
            Ok(x) => x,
            Err(e) => return Err(e),
        };
        Ok(Webhook { id, url, event, created_at, updated_at, disabled_at })
    }
}

impl WebhookEvent {
    /// The value that stands for this event in the API's documents.
    pub fn wire_text(&self) -> (r: &'static str)
        ensures
            r@ == self.wire_name(),
    {
        match self {
            WebhookEvent::ItemCreated => "item/created",
            WebhookEvent::ItemUpdated => "item/updated",
            WebhookEvent::ItemError => "item/error",
            WebhookEvent::ItemDeleted => "item/deleted",
            WebhookEvent::ItemWaitingUserInput => "item/waiting_user_input",
            WebhookEvent::ItemLoginSucceeded => "item/login_succeeded",
            WebhookEvent::ConnectorStatusUpdated => "connector/status_updated",
            WebhookEvent::TransactionsDeleted => "transactions/deleted",
            WebhookEvent::All => "all",
        }
    }
}

impl JsonEncode for WebhookEvent {
    fn to_json(&self) -> (r: JsonValue) {
        JsonValue::Str(self.wire_text().to_owned())
    }

    proof fn lemma_same_text(a: JsonValue, b: JsonValue, v: WebhookEvent) {
    }
}


/// The payload that registers a webhook.
#[derive(Debug)]
pub struct CreateWebhookRequest {
    pub event: WebhookEvent,
    pub url: String,
    pub headers: Option<StringMap>,
}

impl JsonDecode for CreateWebhookRequest {
    open spec fn decodes(j: JsonValue, v: CreateWebhookRequest) -> bool {
        j is Object && {
            let m = j->Object_0@;
            &&& has_field(m, "event"@, v.event)
            &&& has_field(m, "url"@, v.url)
            &&& has_opt_field(m, "headers"@, v.headers)
        }
    }

    fn decode(j: &JsonValue) -> (r: Result<CreateWebhookRequest, Error>) {
        let m = match members_of(j) {
            Ok(m) => m,
            Err(e) => return Err(e),
        };
        let event = match read_required(m, "event") {
            Ok(x) => x,
            Err(e) => return Err(e),
        };
        let url = match read_required(m, "url") {
            Ok(x) => x,
            Err(e) => return Err(e),
        };
        let headers = match read_optional(m, "headers") {
            Ok(x) => x,
            Err(e) => return Err(e),
        };
        Ok(CreateWebhookRequest { event, url, headers })
    }
}

impl CreateWebhookRequest {
    /// `j` is the document sent for this request: an object with exactly these
    /// members, in this order.
    pub open spec fn encoded_as(self, j: JsonValue) -> bool {
        j is Object && {
            let m = j->Object_0@;
            &&& m.len() == 3
            &&& member_is(m, 0, "event"@, self.event)
            &&& member_is(m, 1, "url"@, self.url)
            &&& member_is(m, 2, "headers"@, self.headers)
        }
    }

    /// The document sent to register the webhook.
    pub fn to_json(&self) -> (r: JsonValue)
        ensures
            self.encoded_as(r),
    {
        let mut m: Vec<(String, JsonValue)> = Vec::new();
        m.push((String::from_str("event"), self.event.to_json()));
        m.push((String::from_str("url"), self.url.to_json()));
        m.push((String::from_str("headers"), opt_to_json(&self.headers)));
        JsonValue::Object(m)
    }
}

/// The payload that changes a webhook; absent members stay as they are.
#[derive(Debug)]
pub struct UpdateWebhookRequest {
    pub event: Option<WebhookEvent>,
    pub url: Option<String>,
    pub headers: Option<StringMap>,
    pub enabled: Option<bool>,
}

impl JsonDecode for UpdateWebhookRequest {
    open spec fn decodes(j: JsonValue, v: UpdateWebhookRequest) -> bool {
        j is Object && {
            let m = j->Object_0@;
            &&& has_opt_field(m, "event"@, v.event)
            &&& has_opt_field(m, "url"@, v.url)
            &&& has_opt_field(m, "headers"@, v.headers)
            &&& has_opt_field(m, "enabled"@, v.enabled)
        }
    }

    fn decode(j: &JsonValue) -> (r: Result<UpdateWebhookRequest, Error>) {
        let m = match members_of(j) {
            Ok(m) => m,
            Err(e) => return Err(e),
        };
        let event = match read_optional(m, "event") {
            Ok(x) => x,
            Err(e) => return Err(e),
        };
        let url = match read_optional(m, "url") {
            Ok(x) => x,
            Err(e) => return Err(e),
        };
        let headers = match read_optional(m, "headers") {
            Ok(x) => x,
            Err(e) => return Err(e),
        };
        let enabled = match read_optional(m, "enabled") {
            Ok(x) => x,
            Err(e) => return Err(e),
        };
        Ok(UpdateWebhookRequest { event, url, headers, enabled })
    }
}

impl UpdateWebhookRequest {
    /// `j` is the document sent for this request: an object with exactly these
    /// members, in this order.
    pub open spec fn encoded_as(self, j: JsonValue) -> bool {
        j is Object && {
            let m = j->Object_0@;
            &&& m.len() == 4
            &&& member_is(m, 0, "event"@, self.event)
            &&& member_is(m, 1, "url"@, self.url)
            &&& member_is(m, 2, "headers"@, self.headers)
            &&& member_is(m, 3, "enabled"@, self.enabled)
        }
    }

    /// The document sent to change the webhook.
    pub fn to_json(&self) -> (r: JsonValue)
        ensures
            self.encoded_as(r),
    {
        let mut m: Vec<(String, JsonValue)> = Vec::new();
        m.push((String::from_str("event"), opt_to_json(&self.event)));
        m.push((String::from_str("url"), opt_to_json(&self.url)));
        m.push((String::from_str("headers"), opt_to_json(&self.headers)));
        m.push((String::from_str("enabled"), opt_to_json(&self.enabled)));
        JsonValue::Object(m)
    }
}

} // verus!
