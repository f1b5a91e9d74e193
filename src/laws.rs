use vstd::prelude::*;

use crate::auth::AuthRequest;
use crate::connector::{Connector, ConnectorType, Country};
use crate::item::{CreateItemRequest, Item, UpdateItemRequest};
use crate::json::{
    field_of, has_field, has_opt_field, lemma_opt_same_text, member_is, JsonDecode, JsonEncode,
    JsonValue,
};
use crate::text::json_text;
use crate::webhook::{CreateWebhookRequest, UpdateWebhookRequest};

verus! {

/// The JSON text of member `key` as supplied in an object; an absent member
/// reads as `null`.
pub open spec fn supplied_text(members: Seq<(String, JsonValue)>, key: Seq<char>) -> Seq<char> {
    match field_of(members, key) {
        Some(x) => json_text(x),
        None => "null"@,
    }
}

/// In an object whose member `k` is the last one named `key`, member `key`
/// reads as member `k`.
pub proof fn lemma_field_at(m: Seq<(String, JsonValue)>, k: int, key: Seq<char>)
    requires
        0 <= k < m.len(),
        m[k].0@ == key,
        forall|i: int| k < i < m.len() ==> (#[trigger] m[i]).0@ != key,
    ensures
        field_of(m, key) == Some(m[k].1),
    decreases m.len(),
{
    if k < m.len() - 1 {
        assert(m.last().0@ != key);
        assert forall|i: int| k < i < m.drop_last().len() implies (#[trigger] m.drop_last()[i]).0@ != key by {
            assert(m.drop_last()[i] == m[i]);
        }
        lemma_field_at(m.drop_last(), k, key);
    }
}

proof fn lemma_required_member<T: JsonEncode>(
    supplied: Seq<(String, JsonValue)>,
    encoded: Seq<(String, JsonValue)>,
    k: int,
    key: Seq<char>,
    v: T,
)
    requires
        has_field(supplied, key, v),
        0 <= k < encoded.len(),
        member_is(encoded, k, key, v),
        field_of(encoded, key) == Some(encoded[k].1),
    ensures
        has_field(encoded, key, v),
        json_text(encoded[k].1) == supplied_text(supplied, key),
{
    T::lemma_same_text(encoded[k].1, field_of(supplied, key)->Some_0, v);
}

proof fn lemma_optional_member<T: JsonEncode>(
    supplied: Seq<(String, JsonValue)>,
    encoded: Seq<(String, JsonValue)>,
    k: int,
    key: Seq<char>,
    v: Option<T>,
)
    requires
        has_opt_field(supplied, key, v),
        0 <= k < encoded.len(),
        member_is(encoded, k, key, v),
        field_of(encoded, key) == Some(encoded[k].1),
    ensures
        has_opt_field(encoded, key, v),
        json_text(encoded[k].1) == supplied_text(supplied, key),
{
    match field_of(supplied, key) {
        Some(x) => lemma_opt_same_text(encoded[k].1, x, v),
        None => {
            assert(encoded[k].1 is Null);
        },
    }
}

/// Decoding an update-item request and encoding it again gives a document
/// that decodes to the same request and whose `parameters` member has exactly
/// the JSON text that was supplied.
pub proof fn lemma_update_item_request_round_trip(j: JsonValue, r: UpdateItemRequest, e: JsonValue)
    requires
        UpdateItemRequest::decodes(j, r),
        r.encoded_as(e),
    ensures
        UpdateItemRequest::decodes(e, r),
        json_text(e->Object_0@[0].1) == supplied_text(j->Object_0@, "parameters"@),
{
    let m = e->Object_0@;
    lemma_field_at(m, 0, "parameters"@);
    lemma_required_member(j->Object_0@, m, 0, "parameters"@, r.parameters);
}

/// Decoding a create-item request and encoding it again gives a document that
/// decodes to the same request, each member with exactly the JSON text that
/// was supplied.
pub proof fn lemma_create_item_request_round_trip(j: JsonValue, r: CreateItemRequest, e: JsonValue)
    requires
        CreateItemRequest::decodes(j, r),
        r.encoded_as(e),
    ensures
        CreateItemRequest::decodes(e, r),
        json_text(e->Object_0@[0].1) == supplied_text(j->Object_0@, "connectorId"@),
        json_text(e->Object_0@[1].1) == supplied_text(j->Object_0@, "parameters"@),
{
    reveal_strlit("connectorId");
    reveal_strlit("parameters");
    let m = e->Object_0@;
    lemma_field_at(m, 0, "connectorId"@);
    lemma_field_at(m, 1, "parameters"@);
    lemma_required_member(j->Object_0@, m, 0, "connectorId"@, r.connector_id);
    lemma_required_member(j->Object_0@, m, 1, "parameters"@, r.parameters);
}

/// Decoding a webhook registration and encoding it again gives a document
/// that decodes to the same request, each member with exactly the JSON text
/// that was supplied (`null` for absent headers).
pub proof fn lemma_create_webhook_request_round_trip(j: JsonValue, r: CreateWebhookRequest, e: JsonValue)
    requires
        CreateWebhookRequest::decodes(j, r),
        r.encoded_as(e),
    ensures
        CreateWebhookRequest::decodes(e, r),
        json_text(e->Object_0@[0].1) == supplied_text(j->Object_0@, "event"@),
        json_text(e->Object_0@[1].1) == supplied_text(j->Object_0@, "url"@),
        json_text(e->Object_0@[2].1) == supplied_text(j->Object_0@, "headers"@),
{
    reveal_strlit("event");
    reveal_strlit("url");
    reveal_strlit("headers");
    let m = e->Object_0@;
    assert(m[0].0@ == "event"@ && m[1].0@ == "url"@ && m[2].0@ == "headers"@);
    assert(m[1].0@.len() != 5 && m[2].0@.len() != 5 && m[2].0@.len() != 3);
    lemma_field_at(m, 0, "event"@);
    lemma_field_at(m, 1, "url"@);
    lemma_field_at(m, 2, "headers"@);
    lemma_required_member(j->Object_0@, m, 0, "event"@, r.event);
    lemma_required_member(j->Object_0@, m, 1, "url"@, r.url);
    lemma_optional_member(j->Object_0@, m, 2, "headers"@, r.headers);
}

/// Decoding a webhook change and encoding it again gives a document that
/// decodes to the same request, each member with exactly the JSON text that
/// was supplied (`null` for absent members).
pub proof fn lemma_update_webhook_request_round_trip(j: JsonValue, r: UpdateWebhookRequest, e: JsonValue)
    requires
        UpdateWebhookRequest::decodes(j, r),
        r.encoded_as(e),
    ensures
        UpdateWebhookRequest::decodes(e, r),
        json_text(e->Object_0@[0].1) == supplied_text(j->Object_0@, "event"@),
        json_text(e->Object_0@[1].1) == supplied_text(j->Object_0@, "url"@),
        json_text(e->Object_0@[2].1) == supplied_text(j->Object_0@, "headers"@),
        json_text(e->Object_0@[3].1) == supplied_text(j->Object_0@, "enabled"@),
{
    reveal_strlit("event");
    reveal_strlit("url");
    reveal_strlit("headers");
    reveal_strlit("enabled");
    let m = e->Object_0@;
    assert(m[0].0@ == "event"@ && m[1].0@ == "url"@ && m[2].0@ == "headers"@ && m[3].0@ == "enabled"@);
    assert(m[1].0@.len() != 5 && m[2].0@.len() != 5 && m[2].0@.len() != 3);
    assert(m[3].0@.len() != 5 && m[3].0@.len() != 3 && m[3].0@[0] != "headers"@[0]);
    lemma_field_at(m, 0, "event"@);
    lemma_field_at(m, 1, "url"@);
    lemma_field_at(m, 2, "headers"@);
    lemma_field_at(m, 3, "enabled"@);
    lemma_optional_member(j->Object_0@, m, 0, "event"@, r.event);
    lemma_optional_member(j->Object_0@, m, 1, "url"@, r.url);
    lemma_optional_member(j->Object_0@, m, 2, "headers"@, r.headers);
    lemma_optional_member(j->Object_0@, m, 3, "enabled"@, r.enabled);
}

/// Decoding an authentication request and encoding it again gives a document
/// that decodes to the same request, each member with exactly the JSON text
/// that was supplied (`null` for an absent `nonExpiring`).
pub proof fn lemma_auth_request_round_trip(j: JsonValue, r: AuthRequest, e: JsonValue)
    requires
        AuthRequest::decodes(j, r),
        r.encoded_as(e),
    ensures
        AuthRequest::decodes(e, r),
        json_text(e->Object_0@[0].1) == supplied_text(j->Object_0@, "clientId"@),
        json_text(e->Object_0@[1].1) == supplied_text(j->Object_0@, "clientSecret"@),
        json_text(e->Object_0@[2].1) == supplied_text(j->Object_0@, "nonExpiring"@),
{
    reveal_strlit("clientId");
    reveal_strlit("clientSecret");
    reveal_strlit("nonExpiring");
    let m = e->Object_0@;
    assert(m[0].0@ == "clientId"@ && m[1].0@ == "clientSecret"@ && m[2].0@ == "nonExpiring"@);
    assert(m[1].0@.len() != 8 && m[2].0@.len() != 8 && m[2].0@.len() != 12);
    lemma_field_at(m, 0, "clientId"@);
    lemma_field_at(m, 1, "clientSecret"@);
    lemma_field_at(m, 2, "nonExpiring"@);
    lemma_required_member(j->Object_0@, m, 0, "clientId"@, r.client_id);
    lemma_required_member(j->Object_0@, m, 1, "clientSecret"@, r.client_secret);
    lemma_optional_member(j->Object_0@, m, 2, "nonExpiring"@, r.non_expiring);
}

/// A connector document whose `type` member is present but stands for no
/// connector type stands for no connector, so `Connector::decode` fails with a
/// decoding error instead of picking a default type.
pub proof fn lemma_unknown_connector_type_rejected(j: JsonValue)
    requires
        j is Object,
        match field_of(j->Object_0@, "type"@) {
            Some(x) => forall|t: ConnectorType| !#[trigger] ConnectorType::decodes(x, t),
            None => false,
        },
    ensures
        forall|c: Connector| !#[trigger] Connector::decodes(j, c),
{
}

/// A connector document whose `country` member is present but stands for no
/// country stands for no connector, so `Connector::decode` fails with a
/// decoding error instead of picking a default country.
pub proof fn lemma_unknown_country_rejected(j: JsonValue)
    requires
        j is Object,
        match field_of(j->Object_0@, "country"@) {
            Some(x) => forall|t: Country| !#[trigger] Country::decodes(x, t),
            None => false,
        },
    ensures
        forall|c: Connector| !#[trigger] Connector::decodes(j, c),
{
}

/// An item read from a document without a `userAction` member has no user
/// action: the absence is kept, not filled with an empty one.
pub proof fn lemma_item_without_user_action(j: JsonValue, it: Item)
    requires
        Item::decodes(j, it),
        field_of(j->Object_0@, "userAction"@) is None,
    ensures
        it.user_action is None,
{
}

} // verus!
