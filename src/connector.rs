use vstd::prelude::*;

use crate::error::Error;
use crate::json::{
    decode_error, has_field, has_opt_field, members_of, read_optional, read_required, str_eq,
    JsonDecode,
    JsonValue,
};

verus! {

/// The kind of institution a connector integrates.
#[derive(Debug, Clone, Copy, PartialEq, Eq, Structural)]
pub enum ConnectorType {
    PersonalBank,
    BusinessBank,
    Invoice,
    Investment,
    Telecommunication,
    DigitalEconomy,
    PaymentAccount,
    Other,
}

impl ConnectorType {
    /// The value that stands for this variant in the API's documents.
    pub open spec fn wire_name(self) -> Seq<char> {
        match self {
            ConnectorType::PersonalBank => "PERSONAL_BANK"@,
            ConnectorType::BusinessBank => "BUSINESS_BANK"@,
            ConnectorType::Invoice => "INVOICE"@,
            ConnectorType::Investment => "INVESTMENT"@,
            ConnectorType::Telecommunication => "TELECOMMUNICATION"@,
            ConnectorType::DigitalEconomy => "DIGITAL_ECONOMY"@,
            ConnectorType::PaymentAccount => "PAYMENT_ACCOUNT"@,
            ConnectorType::Other => "OTHER"@,
        }
    }
}

impl JsonDecode for ConnectorType {
    open spec fn decodes(j: JsonValue, v: ConnectorType) -> bool {
        j is Str && j->Str_0@ == v.wire_name()
    }

    fn decode(j: &JsonValue) -> (r: Result<ConnectorType, Error>) {
        if let JsonValue::Str(s) = j {
            let s = s.as_str();
            if str_eq(s, "PERSONAL_BANK") {
                return Ok(ConnectorType::PersonalBank);
            } else if str_eq(s, "BUSINESS_BANK") {
                return Ok(ConnectorType::BusinessBank);
            } else if str_eq(s, "INVOICE") {
                return Ok(ConnectorType::Invoice);
            } else if str_eq(s, "INVESTMENT") {
                return Ok(ConnectorType::Investment);
            } else if str_eq(s, "TELECOMMUNICATION") {
                return Ok(ConnectorType::Telecommunication);
            } else if str_eq(s, "DIGITAL_ECONOMY") {
                return Ok(ConnectorType::DigitalEconomy);
            } else if str_eq(s, "PAYMENT_ACCOUNT") {
                return Ok(ConnectorType::PaymentAccount);
            } else if str_eq(s, "OTHER") {
                return Ok(ConnectorType::Other);
            }
        }
        Err(decode_error("a connector type"))
    }
}

/// The country of a connector's institution.
#[derive(Debug, Clone, Copy, PartialEq, Eq, Structural)]
pub enum Country {
    AR,
    BR,
}

impl Country {
    pub open spec fn wire_name(self) -> Seq<char> {
        match self {
            Country::AR => "AR"@,
            Country::BR => "BR"@,
        }
    }
}

impl JsonDecode for Country {
    open spec fn decodes(j: JsonValue, v: Country) -> bool {
        j is Str && j->Str_0@ == v.wire_name()
    }

    fn decode(j: &JsonValue) -> (r: Result<Country, Error>) {
        if let JsonValue::Str(s) = j {
            let s = s.as_str();
            if str_eq(s, "AR") {
                return Ok(Country::AR);
            } else if str_eq(s, "BR") {
                return Ok(Country::BR);
            }
        }
        Err(decode_error("a country"))
    }
}

/// The kind of input a connector credential asks for.
#[derive(Debug, Clone, Copy, PartialEq, Eq, Structural)]
pub enum CredentialType {
    Number,
    Password,
    Text,
    Image,
    Select,
    EthAddress,
}

impl CredentialType {
    pub open spec fn wire_name(self) -> Seq<char> {
        match self {
            CredentialType::Number => "number"@,
            CredentialType::Password => "password"@,
            CredentialType::Text => "text"@,
            CredentialType::Image => "image"@,
            CredentialType::Select => "select"@,
            CredentialType::EthAddress => "ethaddress"@,
        }
    }
}

impl JsonDecode for CredentialType {
    open spec fn decodes(j: JsonValue, v: CredentialType) -> bool {
        j is Str && j->Str_0@ == v.wire_name()
    }

    fn decode(j: &JsonValue) -> (r: Result<CredentialType, Error>) {
        if let JsonValue::Str(s) = j {
            let s = s.as_str();
            if str_eq(s, "number") {
                return Ok(CredentialType::Number);
            } else if str_eq(s, "password") {
                return Ok(CredentialType::Password);
            } else if str_eq(s, "text") {
                return Ok(CredentialType::Text);
            } else if str_eq(s, "image") {
                return Ok(CredentialType::Image);
            } else if str_eq(s, "select") {
                return Ok(CredentialType::Select);
            } else if str_eq(s, "ethaddress") {
                return Ok(CredentialType::EthAddress);
            }
        }
        Err(decode_error("a credential type"))
    }
}

/// One choice of a credential of type select.
#[derive(Debug)]
pub struct CredentialSelectOption {
    pub label: String,
    pub value: String,
}

impl JsonDecode for CredentialSelectOption {
    open spec fn decodes(j: JsonValue, v: CredentialSelectOption) -> bool {
        j is Object && {
            let m = j->Object_0@;
            &&& has_field(m, "label"@, v.label)
            &&& has_field(m, "value"@, v.value)
        }
    }

    fn decode(j: &JsonValue) -> (r: Result<CredentialSelectOption, Error>) {
        let m = match members_of(j) {
            Ok(m) => m,
            Err(e) => return Err(e),
        };
        let label = match read_required(m, "label") {
            Ok(x) => x,
            Err(e) => return Err(e),
        };
        let value = match read_required(m, "value") {
            Ok(x) => x,
            Err(e) => return Err(e),
        };
        Ok(CredentialSelectOption { label, value })
    }
}

/// A field a user fills in to link an account under a connector.
#[derive(Debug)]
pub struct ConnectorCredential {
    pub label: String,
    pub name: String,
    pub credential_type: Option<CredentialType>,
    pub mfa: Option<bool>,
    pub data: Option<String>,
    pub assistive_text: Option<String>,
    pub options: Option<Vec<CredentialSelectOption>>,
    pub validation: Option<String>,
    pub validation_message: Option<String>,
    pub placeholder: Option<String>,
    pub optional: Option<bool>,
    pub instructions: Option<String>,
    /// A date, as the API writes it.
    pub expires_at: Option<String>,
}

impl JsonDecode for ConnectorCredential {
    open spec fn decodes(j: JsonValue, v: ConnectorCredential) -> bool {
        j is Object && {
            let m = j->Object_0@;
            &&& has_field(m, "label"@, v.label)
            &&& has_field(m, "name"@, v.name)
            &&& has_opt_field(m, "type"@, v.credential_type)
            &&& has_opt_field(m, "mfa"@, v.mfa)
            &&& has_opt_field(m, "data"@, v.data)
            &&& has_opt_field(m, "assistive_text"@, v.assistive_text)
            &&& has_opt_field(m, "options"@, v.options)
            &&& has_opt_field(m, "validation"@, v.validation)
            &&& has_opt_field(m, "validation_message"@, v.validation_message)
            &&& has_opt_field(m, "placeholder"@, v.placeholder)
            &&& has_opt_field(m, "optional"@, v.optional)
            &&& has_opt_field(m, "instructions"@, v.instructions)
            &&& has_opt_field(m, "expires_at"@, v.expires_at)
        }
    }

    fn decode(j: &JsonValue) -> (r: Result<ConnectorCredential, Error>) {
        let m = match members_of(j) {
            Ok(m) => m,
            Err(e) => return Err(e),
        };
        let label = match read_required(m, "label") {
            Ok(x) => x,
            Err(e) => return Err(e),
        };
        let name = match read_required(m, "name") {
            Ok(x) => x,
            Err(e) => return Err(e),
        };
        let credential_type = match read_optional(m, "type") {
            Ok(x) => x,
            Err(e) => return Err(e),
        };
        let mfa = match read_optional(m, "mfa") {
            Ok(x) => x,
            Err(e) => return Err(e),
        };
        let data = match read_optional(m, "data") {
            Ok(x) => x,
            Err(e) => return Err(e),
        };
        let assistive_text = match read_optional(m, "assistive_text") {
            Ok(x) => x,
            Err(e) => return Err(e),
        };
        let options = match read_optional(m, "options") {
            Ok(x) => x,
            Err(e) => return Err(e),
        };
        let validation = match read_optional(m, "validation") {
            Ok(x) => x,
            Err(e) => return Err(e),
        };
        let validation_message = match read_optional(m, "validation_message") {
            Ok(x) => x,
            Err(e) => return Err(e),
        };
        let placeholder = match read_optional(m, "placeholder") {
            Ok(x) => x,
            Err(e) => return Err(e),
        };
        let optional = match read_optional(m, "optional") {
            Ok(x) => x,
            Err(e) => return Err(e),
        };
        let instructions = match read_optional(m, "instructions") {
            Ok(x) => x,
            Err(e) => return Err(e),
        };
        let expires_at = match read_optional(m, "expires_at") {
            Ok(x) => x,
            Err(e) => return Err(e),
        };
        Ok(ConnectorCredential { label, name, credential_type, mfa, data, assistive_text, options, validation, validation_message, placeholder, optional, instructions, expires_at })
    }
}

/// The health of a connector's integration.
#[derive(Debug, Clone, Copy, PartialEq, Eq, Structural)]
pub enum ConnectorStatus {
    Online,
    Offline,
    Unstable,
}

impl ConnectorStatus {
    /// The value that stands for this variant in the API's documents.
    pub open spec fn wire_name(self) -> Seq<char> {
        match self {
            ConnectorStatus::Online => "ONLINE"@,
            ConnectorStatus::Offline => "OFFLINE"@,
            ConnectorStatus::Unstable => "UNSTABLE"@,
        }
    }
}

impl JsonDecode for ConnectorStatus {
    open spec fn decodes(j: JsonValue, v: ConnectorStatus) -> bool {
        j is Str && j->Str_0@ == v.wire_name()
    }

    fn decode(j: &JsonValue) -> (r: Result<ConnectorStatus, Error>) {
        if let JsonValue::Str(s) = j {
            let s = s.as_str();
            if str_eq(s, "ONLINE") {
                return Ok(ConnectorStatus::Online);
            } else if str_eq(s, "OFFLINE") {
                return Ok(ConnectorStatus::Offline);
            } else if str_eq(s, "UNSTABLE") {
                return Ok(ConnectorStatus::Unstable);
            }
        }
        Err(decode_error("a connector status"))
    }
}

/// The release stage of a connector that is not generally available.
#[derive(Debug, Clone, Copy, PartialEq, Eq, Structural)]
pub enum ConnectorStage {
    Beta,
}

impl ConnectorStage {
    /// The value that stands for this variant in the API's documents.
    pub open spec fn wire_name(self) -> Seq<char> {
        match self {
            ConnectorStage::Beta => "BETA"@,
        }
    }
}

impl JsonDecode for ConnectorStage {
    open spec fn decodes(j: JsonValue, v: ConnectorStage) -> bool {
        j is Str && j->Str_0@ == v.wire_name()
    }

    fn decode(j: &JsonValue) -> (r: Result<ConnectorStage, Error>) {
        if let JsonValue::Str(s) = j {
            let s = s.as_str();
            if str_eq(s, "BETA") {
                return Ok(ConnectorStage::Beta);
            }
        }
        Err(decode_error("a connector stage"))
    }
}


/// The health of a connector, where the API reports it.
#[derive(Debug)]
pub struct ConnectorHealth {
    pub status: ConnectorStatus,
    pub stage: Option<ConnectorStage>,
}

impl JsonDecode for ConnectorHealth {
    open spec fn decodes(j: JsonValue, v: ConnectorHealth) -> bool {
        j is Object && {
            let m = j->Object_0@;
            &&& has_field(m, "status"@, v.status)
            &&& has_opt_field(m, "stage"@, v.stage)
        }
    }

    fn decode(j: &JsonValue) -> (r: Result<ConnectorHealth, Error>) {
        let m = match members_of(j) {
            Ok(m) => m,
            Err(e) => return Err(e),
        };
        let status = match read_required(m, "status") {
            Ok(x) => x,
            Err(e) => return Err(e),
        };
        let stage = match read_optional(m, "stage") {
            Ok(x) => x,
            Err(e) => return Err(e),
        };
        Ok(ConnectorHealth { status, stage })
    }
}

/// A kind of data a connector can provide.
#[derive(Debug, Clone, Copy, PartialEq, Eq, Structural)]
pub enum ProductType {
    Accounts,
    CreditCards,
    Transactions,
    PaymentData,
    Investments,
    InvestmentsTransactions,
    Identity,
    BrokerageNote,
    Opportunities,
    Portfolio,
    IncomeReports,
}

impl ProductType {
    /// The value that stands for this variant in the API's documents.
    pub open spec fn wire_name(self) -> Seq<char> {
        match self {
            ProductType::Accounts => "ACCOUNTS"@,
            ProductType::CreditCards => "CREDIT_CARDS"@,
            ProductType::Transactions => "TRANSACTIONS"@,
            ProductType::PaymentData => "PAYMENT_DATA"@,
            ProductType::Investments => "INVESTMENTS"@,
            ProductType::InvestmentsTransactions => "INVESTMENTS_TRANSACTIONS"@,
            ProductType::Identity => "IDENTITY"@,
            ProductType::BrokerageNote => "BROKERAGE_NOTE"@,
            ProductType::Opportunities => "OPPORTUNITIES"@,
            ProductType::Portfolio => "PORTFOLIO"@,
            ProductType::IncomeReports => "INCOME_REPORTS"@,
        }
    }
}

impl JsonDecode for ProductType {
    open spec fn decodes(j: JsonValue, v: ProductType) -> bool {
        j is Str && j->Str_0@ == v.wire_name()
    }

    fn decode(j: &JsonValue) -> (r: Result<ProductType, Error>) {
        if let JsonValue::Str(s) = j {
            let s = s.as_str();
            if str_eq(s, "ACCOUNTS") {
                return Ok(ProductType::Accounts);
            } else if str_eq(s, "CREDIT_CARDS") {
                return Ok(ProductType::CreditCards);
            } else if str_eq(s, "TRANSACTIONS") {
                return Ok(ProductType::Transactions);
            } else if str_eq(s, "PAYMENT_DATA") {
                return Ok(ProductType::PaymentData);
            } else if str_eq(s, "INVESTMENTS") {
                return Ok(ProductType::Investments);
            } else if str_eq(s, "INVESTMENTS_TRANSACTIONS") {
                return Ok(ProductType::InvestmentsTransactions);
            } else if str_eq(s, "IDENTITY") {
                return Ok(ProductType::Identity);
            } else if str_eq(s, "BROKERAGE_NOTE") {
                return Ok(ProductType::BrokerageNote);
            } else if str_eq(s, "OPPORTUNITIES") {
                return Ok(ProductType::Opportunities);
            } else if str_eq(s, "PORTFOLIO") {
                return Ok(ProductType::Portfolio);
            } else if str_eq(s, "INCOME_REPORTS") {
                return Ok(ProductType::IncomeReports);
            }
        }
        Err(decode_error("a product type"))
    }
}

/// A financial institution integration.
#[derive(Debug)]
pub struct Connector {
    pub id: i32,
    pub name: String,
    pub institution_url: String,
    pub image_url: String,
    pub primary_color: String,
    pub connector_type: ConnectorType,
    pub country: Country,
    pub credentials: Vec<ConnectorCredential>,
    pub has_mfa: bool,
    pub oauth: Option<bool>,
    pub oauth_url: Option<String>,
    pub health: Option<ConnectorHealth>,
    pub reset_password_url: Option<String>,
    pub products: Vec<ProductType>,
    /// A date, as the API writes it.
    pub created_at: String,
}

impl JsonDecode for Connector {
    open spec fn decodes(j: JsonValue, v: Connector) -> bool {
        j is Object && {
            let m = j->Object_0@;
            &&& has_field(m, "id"@, v.id)
            &&& has_field(m, "name"@, v.name)
            &&& has_field(m, "institutionUrl"@, v.institution_url)
            &&& has_field(m, "imageUrl"@, v.image_url)
            &&& has_field(m, "primaryColor"@, v.primary_color)
            &&& has_field(m, "type"@, v.connector_type)
            &&& has_field(m, "country"@, v.country)
            &&& has_field(m, "credentials"@, v.credentials)
            &&& has_field(m, "hasMFA"@, v.has_mfa)
            &&& has_opt_field(m, "oauth"@, v.oauth)
            &&& has_opt_field(m, "oauthUrl"@, v.oauth_url)
            &&& has_opt_field(m, "health"@, v.health)
            &&& has_opt_field(m, "resetPasswordUrl"@, v.reset_password_url)
            &&& has_field(m, "products"@, v.products)
            &&& has_field(m, "createdAt"@, v.created_at)
        }
    }

    fn decode(j: &JsonValue) -> (r: Result<Connector, Error>) {
        let m = match members_of(j) {
            Ok(m) => m,
            Err(e) => return Err(e),
        };
        let id = match read_required(m, "id") {
            Ok(x) => x,
            Err(e) => return Err(e),
        };
        let name = match read_required(m, "name") {
            Ok(x) => x,
            Err(e) => return Err(e),
        };
        let institution_url = match read_required(m, "institutionUrl") {
            Ok(x) => x,
            Err(e) => return Err(e),
        };
        let image_url = match read_required(m, "imageUrl") {
            Ok(x) => x,
            Err(e) => return Err(e),
        };
        let primary_color = match read_required(m, "primaryColor") {
            Ok(x) => x,
            Err(e) => return Err(e),
        };
        let connector_type = match read_required(m, "type") {
            Ok(x) => x,
            Err(e) => return Err(e),
        };
        let country = match read_required(m, "country") {
            Ok(x) => x,
            Err(e) => return Err(e),
        };
        let credentials = match read_required(m, "credentials") {
            Ok(x) => x,
            Err(e) => return Err(e),
        };
        let has_mfa = match read_required(m, "hasMFA") {
            Ok(x) => x,
            Err(e) => return Err(e),
        };
        let oauth = match read_optional(m, "oauth") {
            Ok(x) => x,
            Err(e) => return Err(e),
        };
        let oauth_url = match read_optional(m, "oauthUrl") {
            Ok(x) => x,
            Err(e) => return Err(e),
        };
        let health = match read_optional(m, "health") {
            Ok(x) => x,
            Err(e) => return Err(e),
        };
        let reset_password_url = match read_optional(m, "resetPasswordUrl") {
            Ok(x) => x,
            Err(e) => return Err(e),
        };
        let products = match read_required(m, "products") {
            Ok(x) => x,
            Err(e) => return Err(e),
        };
        let created_at = match read_required(m, "createdAt") {
            Ok(x) => x,
            Err(e) => return Err(e),
        };
        Ok(Connector { id, name, institution_url, image_url, primary_color, connector_type, country, credentials, has_mfa, oauth, oauth_url, health, reset_password_url, products, created_at })
    }
}

} // verus!
