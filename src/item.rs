use vstd::prelude::*;
use vstd::string::StringExecFns;

use crate::error::Error;
use crate::json::{
    decode_error, has_field, has_opt_field, member_is, members_of, opt_to_json, read_optional,
    read_required, str_eq, JsonDecode, JsonEncode, JsonValue,
};
use crate::connector::{Connector, ConnectorCredential};
use crate::execution::{ExecutionErrorResult, ExecutionStatus};
use crate::string_map::StringMap;

verus! {

/// The state of an item's link to its institution.
#[derive(Debug, Clone, Copy, PartialEq, Eq, Structural)]
pub enum ItemStatus {
    Updated,
    Updating,
    WaitingUserInput,
    LoginError,
    Outdated,
}

impl ItemStatus {
    /// The value that stands for this variant in the API's documents.
    pub open spec fn wire_name(self) -> Seq<char> {
        match self {
            ItemStatus::Updated => "UPDATED"@,
            ItemStatus::Updating => "UPDATING"@,
            ItemStatus::WaitingUserInput => "WAITING_USER_INPUT"@,
            ItemStatus::LoginError => "LOGIN_ERROR"@,
            ItemStatus::Outdated => "OUTDATED"@,
        }
    }
}

impl JsonDecode for ItemStatus {
    open spec fn decodes(j: JsonValue, v: ItemStatus) -> bool {
        j is Str && j->Str_0@ == v.wire_name()
    }

    fn decode(j: &JsonValue) -> (r: Result<ItemStatus, Error>) {
        if let JsonValue::Str(s) = j {
            let s = s.as_str();
            if str_eq(s, "UPDATED") {
                return Ok(ItemStatus::Updated);
            } else if str_eq(s, "UPDATING") {
                return Ok(ItemStatus::Updating);
            } else if str_eq(s, "WAITING_USER_INPUT") {
                return Ok(ItemStatus::WaitingUserInput);
            } else if str_eq(s, "LOGIN_ERROR") {
                return Ok(ItemStatus::LoginError);
            } else if str_eq(s, "OUTDATED") {
                return Ok(ItemStatus::Outdated);
            }
        }
        Err(decode_error("an item status"))
    }
}

/// Whether one product of an item is up to date.
#[derive(Debug)]
pub struct ItemProductState {
    pub is_updated: bool,
    pub last_updated_at: Option<String>,
}

impl JsonDecode for ItemProductState {
    open spec fn decodes(j: JsonValue, v: ItemProductState) -> bool {
        j is Object && {
            let m = j->Object_0@;
            &&& has_field(m, "isUpdated"@, v.is_updated)
            &&& has_opt_field(m, "lastUpdatedAt"@, v.last_updated_at)
        }
    }

    fn decode(j: &JsonValue) -> (r: Result<ItemProductState, Error>) {
        let m = match members_of(j) {
            Ok(m) => m,
            Err(e) => return Err(e),
        };
        let is_updated = match read_required(m, "isUpdated") {
            Ok(x) => x,
            Err(e) => return Err(e),
        };
        let last_updated_at = match read_optional(m, "lastUpdatedAt") {
            Ok(x) => x,
            Err(e) => return Err(e),
        };
        Ok(ItemProductState { is_updated, last_updated_at })
    }
}

/// The state of each product of an item.
#[derive(Debug)]
pub struct ItemProductsStatusDetail {
    pub accounts: ItemProductState,
    pub credit_cards: ItemProductState,
    pub transactions: ItemProductState,
    pub investments: ItemProductState,
    pub identity: ItemProductState,
    pub payment_data: ItemProductState,
}

impl JsonDecode for ItemProductsStatusDetail {
    open spec fn decodes(j: JsonValue, v: ItemProductsStatusDetail) -> bool {
        j is Object && {
            let m = j->Object_0@;
            &&& has_field(m, "accounts"@, v.accounts)
            &&& has_field(m, "creditCards"@, v.credit_cards)
            &&& has_field(m, "transactions"@, v.transactions)
            &&& has_field(m, "investments"@, v.investments)
            &&& has_field(m, "identity"@, v.identity)
            &&& has_field(m, "paymentData"@, v.payment_data)
        }
    }

    fn decode(j: &JsonValue) -> (r: Result<ItemProductsStatusDetail, Error>) {
        let m = match members_of(j) {
            Ok(m) => m,
            Err(e) => return Err(e),
        };
        let accounts = match read_required(m, "accounts") {
            Ok(x) => x,
            Err(e) => return Err(e),
        };
        let credit_cards = match read_required(m, "creditCards") {
            Ok(x) => x,
            Err(e) => return Err(e),
        };
        let transactions = match read_required(m, "transactions") {
            Ok(x) => x,
            Err(e) => return Err(e),
        };
        let investments = match read_required(m, "investments") {
            Ok(x) => x,
            Err(e) => return Err(e),
        };
        let identity = match read_required(m, "identity") {
            Ok(x) => x,
            Err(e) => return Err(e),
        };
        let payment_data = match read_required(m, "paymentData") {
            Ok(x) => x,
            Err(e) => return Err(e),
        };
        Ok(ItemProductsStatusDetail { accounts, credit_cards, transactions, investments, identity, payment_data })
    }
}

/// What the user must do before an item's execution can go on.
#[derive(Debug)]
pub struct UserAction {
    pub instructions: String,
    pub attributes: Option<StringMap>,
    pub expires_at: Option<String>,
}

impl JsonDecode for UserAction {
    open spec fn decodes(j: JsonValue, v: UserAction) -> bool {
        j is Object && {
            let m = j->Object_0@;
            &&& has_field(m, "instructions"@, v.instructions)
            &&& has_opt_field(m, "attributes"@, v.attributes)
            &&& has_opt_field(m, "expiresAt"@, v.expires_at)
        }
    }

    fn decode(j: &JsonValue) -> (r: Result<UserAction, Error>) {
        let m = match members_of(j) {
            Ok(m) => m,
            Err(e) => return Err(e),
        };
        let instructions = match read_required(m, "instructions") {
            Ok(x) => x,
            Err(e) => return Err(e),
        };
        let attributes = match read_optional(m, "attributes") {
            Ok(x) => x,
            Err(e) => return Err(e),
        };
        let expires_at = match read_optional(m, "expiresAt") {
            Ok(x) => x,
            Err(e) => return Err(e),
        };
        Ok(UserAction { instructions, attributes, expires_at })
    }
}

/// One user's linked account under a connector.
#[derive(Debug)]
pub struct Item {
    pub id: String,
    pub connector: Connector,
    pub status: ItemStatus,
    pub status_detail: Option<ItemProductsStatusDetail>,
    pub error: Option<ExecutionErrorResult>,
    pub execution_status: ExecutionStatus,
    pub created_at: String,
    pub updated_at: String,
    pub last_updated_at: Option<String>,
    pub parameter: Option<ConnectorCredential>,
    pub webhook_url: Option<String>,
    pub client_user_id: Option<String>,
    /// Present only while the item waits for the user.
    pub user_action: Option<UserAction>,
    pub consecutive_failed_login_attempts: i32,
}

impl JsonDecode for Item {
    open spec fn decodes(j: JsonValue, v: Item) -> bool {
        j is Object && {
            let m = j->Object_0@;
            &&& has_field(m, "id"@, v.id)
            &&& has_field(m, "connector"@, v.connector)
            &&& has_field(m, "status"@, v.status)
            &&& has_opt_field(m, "statusDetail"@, v.status_detail)
            &&& has_opt_field(m, "error"@, v.error)
            &&& has_field(m, "executionStatus"@, v.execution_status)
            &&& has_field(m, "createdAt"@, v.created_at)
            &&& has_field(m, "updatedAt"@, v.updated_at)
            &&& has_opt_field(m, "lastUpdatedAt"@, v.last_updated_at)
            &&& has_opt_field(m, "parameter"@, v.parameter)
            &&& has_opt_field(m, "webhookUrl"@, v.webhook_url)
            &&& has_opt_field(m, "clientUserId"@, v.client_user_id)
            &&& has_opt_field(m, "userAction"@, v.user_action)
            &&& has_field(m, "consecutiveFailedLoginAttempts"@, v.consecutive_failed_login_attempts)
        }
    }

    fn decode(j: &JsonValue) -> (r: Result<Item, Error>) {
        let m = match members_of(j) {
            Ok(m) => m,
            Err(e) => return Err(e),
        };
        let id = match read_required(m, "id") {
            Ok(x) => x,
            Err(e) => return Err(e),
        };
        let connector = match read_required(m, "connector") {
            Ok(x) => x,
            Err(e) => return Err(e),
        };
        let status = match read_required(m, "status") {
            Ok(x) => x,
            Err(e) => return Err(e),
        };
        let status_detail = match read_optional(m, "statusDetail") {
            Ok(x) => x,
            Err(e) => return Err(e),
        };
        let error = match read_optional(m, "error") {
            Ok(x) => x,
            Err(e) => return Err(e),
        };
        let execution_status = match read_required(m, "executionStatus") {
            Ok(x) => x,
            Err(e) => return Err(e),
        };
        let created_at = match read_required(m, "createdAt") {
            Ok(x) => x,
            Err(e) => return Err(e),
        };
        let updated_at = match read_required(m, "updatedAt") {
            Ok(x) => x,
            Err(e) => return Err(e),
        };
        let last_updated_at = match read_optional(m, "lastUpdatedAt") {
            Ok(x) => x,
            Err(e) => return Err(e),
        };
        let parameter = match read_optional(m, "parameter") {
            Ok(x) => x,
            Err(e) => return Err(e),
        };
        let webhook_url = match read_optional(m, "webhookUrl") {
            Ok(x) => x,
            Err(e) => return Err(e),
        };
        let client_user_id = match read_optional(m, "clientUserId") {
            Ok(x) => x,
            Err(e) => return Err(e),
        };
        let user_action = match read_optional(m, "userAction") {
            Ok(x) => x,
            Err(e) => return Err(e),
        };
        let consecutive_failed_login_attempts = match read_required(m, "consecutiveFailedLoginAttempts") {
            Ok(x) => x,
            Err(e) => return Err(e),
        };
        Ok(Item { id, connector, status, status_detail, error, execution_status, created_at, updated_at, last_updated_at, parameter, webhook_url, client_user_id, user_action, consecutive_failed_login_attempts })
    }
}


/// The payload that creates an item under a connector.
#[derive(Debug)]
pub struct CreateItemRequest {
    pub connector_id: i32,
    pub parameters: StringMap,
}

impl JsonDecode for CreateItemRequest {
    open spec fn decodes(j: JsonValue, v: CreateItemRequest) -> bool {
        j is Object && {
            let m = j->Object_0@;
            &&& has_field(m, "connectorId"@, v.connector_id)
            &&& has_field(m, "parameters"@, v.parameters)
        }
    }

    fn decode(j: &JsonValue) -> (r: Result<CreateItemRequest, Error>) {
        let m = match members_of(j) {
            Ok(m) => m,
            Err(e) => return Err(e),
        };
        let connector_id = match read_required(m, "connectorId") {
            Ok(x) => x,
            Err(e) => return Err(e),
        };
        let parameters = match read_required(m, "parameters") {
            Ok(x) => x,
            Err(e) => return Err(e),
        };
        Ok(CreateItemRequest { connector_id, parameters })
    }
}

impl CreateItemRequest {
    /// `j` is the document sent for this request: an object with exactly these
    /// members, in this order.
    pub open spec fn encoded_as(self, j: JsonValue) -> bool {
        j is Object && {
            let m = j->Object_0@;
            &&& m.len() == 2
            &&& member_is(m, 0, "connectorId"@, self.connector_id)
            &&& member_is(m, 1, "parameters"@, self.parameters)
        }
    }

    /// The document sent to create the item.
    pub fn to_json(&self) -> (r: JsonValue)
        ensures
            self.encoded_as(r),
    {
        let mut m: Vec<(String, JsonValue)> = Vec::new();
        m.push((String::from_str("connectorId"), self.connector_id.to_json()));
        m.push((String::from_str("parameters"), self.parameters.to_json()));
        JsonValue::Object(m)
    }
}

/// The payload that sends new credential parameters for an item.
#[derive(Debug)]
pub struct UpdateItemRequest {
    pub parameters: StringMap,
}

impl JsonDecode for UpdateItemRequest {
    open spec fn decodes(j: JsonValue, v: UpdateItemRequest) -> bool {
        j is Object && {
            let m = j->Object_0@;
            &&& has_field(m, "parameters"@, v.parameters)
        }
    }

    fn decode(j: &JsonValue) -> (r: Result<UpdateItemRequest, Error>) {
        let m = match members_of(j) {
            Ok(m) => m,
            Err(e) => return Err(e),
        };
        let parameters = match read_required(m, "parameters") {
            Ok(x) => x,
            Err(e) => return Err(e),
        };
        Ok(UpdateItemRequest { parameters })
    }
}

impl UpdateItemRequest {
    /// `j` is the document sent for this request: an object with exactly these
    /// members, in this order.
    pub open spec fn encoded_as(self, j: JsonValue) -> bool {
        j is Object && {
            let m = j->Object_0@;
            &&& m.len() == 1
            &&& member_is(m, 0, "parameters"@, self.parameters)
        }
    }

    /// The document sent to update the item: the parameters only.
    pub fn to_json(&self) -> (r: JsonValue)
        ensures
            self.encoded_as(r),
    {
        let mut m: Vec<(String, JsonValue)> = Vec::new();
        m.push((String::from_str("parameters"), self.parameters.to_json()));
        JsonValue::Object(m)
    }
}

} // verus!
