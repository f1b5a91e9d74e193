//! Typed client library for a financial data aggregation API: request
//! descriptors with the fixed authentication headers, and a verified codec
//! between the API's JSON documents and the resource types.

pub mod auth;
pub mod category;
pub mod client;
pub mod connector;
pub mod error;
pub mod execution;
pub mod item;
pub mod json;
pub mod laws;
pub mod page;
pub mod request;
pub mod string_map;
pub mod text;
pub mod validation;
pub mod webhook;

pub use auth::AuthRequest;
pub use category::Category;
pub use client::{api_key_from, check_deleted, connect_token_from, string_member, Client};
pub use connector::{
    Connector, ConnectorCredential, ConnectorHealth, ConnectorStage, ConnectorStatus, ConnectorType,
    Country, CredentialSelectOption, CredentialType, ProductType,
};
pub use error::Error;
pub use execution::{ExecutionErrorCodes, ExecutionErrorResult, ExecutionStatus};
pub use item::{
    CreateItemRequest, Item, ItemProductState, ItemProductsStatusDetail, ItemStatus,
    UpdateItemRequest, UserAction,
};
pub use json::{JsonDecode, JsonEncode, JsonValue};
pub use page::{page_results, PageResponse};
pub use request::{authenticated_request_builder, ApiRequest, HttpMethod};
pub use string_map::StringMap;
pub use text::to_json_text;
pub use validation::{ValidationError, ValidationResult};
pub use webhook::{CreateWebhookRequest, UpdateWebhookRequest, Webhook, WebhookEvent};
