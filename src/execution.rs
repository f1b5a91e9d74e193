use vstd::prelude::*;

use crate::error::Error;
use crate::json::{
    decode_error, has_field, has_opt_field, members_of, read_optional, read_required, str_eq,
    JsonDecode, JsonValue,
};
use crate::string_map::StringMap;

verus! {

/// Why an item's last execution failed.
#[derive(Debug, Clone, Copy, PartialEq, Eq, Structural)]
pub enum ExecutionErrorCodes {
    InvalidCredentials,
    AlreadyLoggedIn,
    UnexpectedError,
    InvalidCredentialsMfa,
    SiteNotAvailable,
    AccountLocked,
    AccountCredentialsReset,
    ConnectionError,
    AccountNeedsAction,
    UserAuthorizationPending,
    UserAuthorizationNotGranted,
    UserInputTimeout,
}

impl ExecutionErrorCodes {
    /// The value that stands for this variant in the API's documents.
    pub open spec fn wire_name(self) -> Seq<char> {
        match self {
            ExecutionErrorCodes::InvalidCredentials => "INVALID_CREDENTIALS"@,
            ExecutionErrorCodes::AlreadyLoggedIn => "ALREADY_LOGGED_IN"@,
            ExecutionErrorCodes::UnexpectedError => "UNEXPECTED_ERROR"@,
            ExecutionErrorCodes::InvalidCredentialsMfa => "INVALID_CREDENTIALS_MFA"@,
            ExecutionErrorCodes::SiteNotAvailable => "SITE_NOT_AVAILABLE"@,
            ExecutionErrorCodes::AccountLocked => "ACCOUNT_LOCKED"@,
            ExecutionErrorCodes::AccountCredentialsReset => "ACCOUNT_CREDENTIALS_RESET"@,
            ExecutionErrorCodes::ConnectionError => "CONNECTION_ERROR"@,
            ExecutionErrorCodes::AccountNeedsAction => "ACCOUNT_NEEDS_ACTION"@,
            ExecutionErrorCodes::UserAuthorizationPending => "USER_AUTHORIZATION_PENDING"@,
            ExecutionErrorCodes::UserAuthorizationNotGranted => "USER_AUTHORIZATION_NOT_GRANTED"@,
            ExecutionErrorCodes::UserInputTimeout => "USER_INPUT_TIMEOUT"@,
        }
    }
}

impl JsonDecode for ExecutionErrorCodes {
    open spec fn decodes(j: JsonValue, v: ExecutionErrorCodes) -> bool {
        j is Str && j->Str_0@ == v.wire_name()
    }

    fn decode(j: &JsonValue) -> (r: Result<ExecutionErrorCodes, Error>) {
        if let JsonValue::Str(s) = j {
            let s = s.as_str();
            if str_eq(s, "INVALID_CREDENTIALS") {
                return Ok(ExecutionErrorCodes::InvalidCredentials);
            } else if str_eq(s, "ALREADY_LOGGED_IN") {
                return Ok(ExecutionErrorCodes::AlreadyLoggedIn);
            } else if str_eq(s, "UNEXPECTED_ERROR") {
                return Ok(ExecutionErrorCodes::UnexpectedError);
            } else if str_eq(s, "INVALID_CREDENTIALS_MFA") {
                return Ok(ExecutionErrorCodes::InvalidCredentialsMfa);
            } else if str_eq(s, "SITE_NOT_AVAILABLE") {
                return Ok(ExecutionErrorCodes::SiteNotAvailable);
            } else if str_eq(s, "ACCOUNT_LOCKED") {
                return Ok(ExecutionErrorCodes::AccountLocked);
            } else if str_eq(s, "ACCOUNT_CREDENTIALS_RESET") {
                return Ok(ExecutionErrorCodes::AccountCredentialsReset);
            } else if str_eq(s, "CONNECTION_ERROR") {
                return Ok(ExecutionErrorCodes::ConnectionError);
            } else if str_eq(s, "ACCOUNT_NEEDS_ACTION") {
                return Ok(ExecutionErrorCodes::AccountNeedsAction);
            } else if str_eq(s, "USER_AUTHORIZATION_PENDING") {
                return Ok(ExecutionErrorCodes::UserAuthorizationPending);
            } else if str_eq(s, "USER_AUTHORIZATION_NOT_GRANTED") {
                return Ok(ExecutionErrorCodes::UserAuthorizationNotGranted);
            } else if str_eq(s, "USER_INPUT_TIMEOUT") {
                return Ok(ExecutionErrorCodes::UserInputTimeout);
            }
        }
        Err(decode_error("an execution error code"))
    }
}


/// The error of an item's last execution.
#[derive(Debug)]
pub struct ExecutionErrorResult {
    pub code: ExecutionErrorCodes,
    pub message: String,
    pub provider_message: Option<String>,
    pub attributes: Option<StringMap>,
}

impl JsonDecode for ExecutionErrorResult {
    open spec fn decodes(j: JsonValue, v: ExecutionErrorResult) -> bool {
        j is Object && {
            let m = j->Object_0@;
            &&& has_field(m, "code"@, v.code)
            &&& has_field(m, "message"@, v.message)
            &&& has_opt_field(m, "providerMessage"@, v.provider_message)
            &&& has_opt_field(m, "attributes"@, v.attributes)
        }
    }

    fn decode(j: &JsonValue) -> (r: Result<ExecutionErrorResult, Error>) {
        let m = match members_of(j) {
            Ok(m) => m,
            Err(e) => return Err(e),
        };
        let code = match read_required(m, "code") {
            Ok(x) => x,
            Err(e) => return Err(e),
        };
        let message = match read_required(m, "message") {
            Ok(x) => x,
            Err(e) => return Err(e),
        };
        let provider_message = match read_optional(m, "providerMessage") {
            Ok(x) => x,
            Err(e) => return Err(e),
        };
        let attributes = match read_optional(m, "attributes") {
            Ok(x) => x,
            Err(e) => return Err(e),
        };
        Ok(ExecutionErrorResult { code, message, provider_message, attributes })
    }
}

/// The phase of an item's server-side execution.
#[derive(Debug, Clone, Copy, PartialEq, Eq, Structural)]
pub enum ExecutionStatus {
    LoginInProgress,
    WaitingUserInput,
    WaitingUserAction,
    LoginMfaInProgress,
    AccountsInProgress,
    TransactionsInProgress,
    PaymentDataInProgress,
    CreditcardsInProgress,
    InvestmentsInProgress,
    InvestmentsTransactionsInProgress,
    OpportunitiesInProgress,
    IdentityInProgress,
    MergeError,
    Error,
    Success,
    PartialSuccess,
    Creating,
    CreateError,
    Created,
}

impl ExecutionStatus {
    /// The value that stands for this variant in the API's documents.
    pub open spec fn wire_name(self) -> Seq<char> {
        match self {
            ExecutionStatus::LoginInProgress => "LOGIN_IN_PROGRESS"@,
            ExecutionStatus::WaitingUserInput => "WAITING_USER_INPUT"@,
            ExecutionStatus::WaitingUserAction => "WAITING_USER_ACTION"@,
            ExecutionStatus::LoginMfaInProgress => "LOGIN_MFA_IN_PROGRESS"@,
            ExecutionStatus::AccountsInProgress => "ACCOUNTS_IN_PROGRESS"@,
            ExecutionStatus::TransactionsInProgress => "TRANSACTIONS_IN_PROGRESS"@,
            ExecutionStatus::PaymentDataInProgress => "PAYMENT_DATA_IN_PROGRESS"@,
            ExecutionStatus::CreditcardsInProgress => "CREDITCARDS_IN_PROGRESS"@,
            ExecutionStatus::InvestmentsInProgress => "INVESTMENTS_IN_PROGRESS"@,
            ExecutionStatus::InvestmentsTransactionsInProgress => "INVESTMENTS_TRANSACTIONS_IN_PROGRESS"@,
            ExecutionStatus::OpportunitiesInProgress => "OPPORTUNITIES_IN_PROGRESS"@,
            ExecutionStatus::IdentityInProgress => "IDENTITY_IN_PROGRESS"@,
            ExecutionStatus::MergeError => "MERGE_ERROR"@,
            ExecutionStatus::Error => "ERROR"@,
            ExecutionStatus::Success => "SUCCESS"@,
            ExecutionStatus::PartialSuccess => "PARTIAL_SUCCESS"@,
            ExecutionStatus::Creating => "CREATING"@,
            ExecutionStatus::CreateError => "CREATE_ERROR"@,
            ExecutionStatus::Created => "CREATED"@,
        }
    }
}

impl JsonDecode for ExecutionStatus {
    open spec fn decodes(j: JsonValue, v: ExecutionStatus) -> bool {
        j is Str && j->Str_0@ == v.wire_name()
    }

    fn decode(j: &JsonValue) -> (r: Result<ExecutionStatus, Error>) {
        if let JsonValue::Str(s) = j {
            let s = s.as_str();
            if str_eq(s, "LOGIN_IN_PROGRESS") {
                return Ok(ExecutionStatus::LoginInProgress);
            } else if str_eq(s, "WAITING_USER_INPUT") {
                return Ok(ExecutionStatus::WaitingUserInput);
            } else if str_eq(s, "WAITING_USER_ACTION") {
                return Ok(ExecutionStatus::WaitingUserAction);
            } else if str_eq(s, "LOGIN_MFA_IN_PROGRESS") {
                return Ok(ExecutionStatus::LoginMfaInProgress);
            } else if str_eq(s, "ACCOUNTS_IN_PROGRESS") {
                return Ok(ExecutionStatus::AccountsInProgress);
            } else if str_eq(s, "TRANSACTIONS_IN_PROGRESS") {
                return Ok(ExecutionStatus::TransactionsInProgress);
            } else if str_eq(s, "PAYMENT_DATA_IN_PROGRESS") {
                return Ok(ExecutionStatus::PaymentDataInProgress);
            } else if str_eq(s, "CREDITCARDS_IN_PROGRESS") {
                return Ok(ExecutionStatus::CreditcardsInProgress);
            } else if str_eq(s, "INVESTMENTS_IN_PROGRESS") {
                return Ok(ExecutionStatus::InvestmentsInProgress);
            } else if str_eq(s, "INVESTMENTS_TRANSACTIONS_IN_PROGRESS") {
                return Ok(ExecutionStatus::InvestmentsTransactionsInProgress);
            } else if str_eq(s, "OPPORTUNITIES_IN_PROGRESS") {
                return Ok(ExecutionStatus::OpportunitiesInProgress);
            } else if str_eq(s, "IDENTITY_IN_PROGRESS") {
                return Ok(ExecutionStatus::IdentityInProgress);
            } else if str_eq(s, "MERGE_ERROR") {
                return Ok(ExecutionStatus::MergeError);
            } else if str_eq(s, "ERROR") {
                return Ok(ExecutionStatus::Error);
            } else if str_eq(s, "SUCCESS") {
                return Ok(ExecutionStatus::Success);
            } else if str_eq(s, "PARTIAL_SUCCESS") {
                return Ok(ExecutionStatus::PartialSuccess);
            } else if str_eq(s, "CREATING") {
                return Ok(ExecutionStatus::Creating);
            } else if str_eq(s, "CREATE_ERROR") {
                return Ok(ExecutionStatus::CreateError);
            } else if str_eq(s, "CREATED") {
                return Ok(ExecutionStatus::Created);
            }
        }
        Err(decode_error("an execution status"))
    }
}

} // verus!
