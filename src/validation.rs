use vstd::prelude::*;

use crate::error::Error;
use crate::json::{has_field, members_of, read_required, JsonDecode, JsonValue};
use crate::string_map::StringMap;

verus! {

/// A problem found with one submitted parameter.
#[derive(Debug)]
pub struct ValidationError {
    pub code: String,
    pub message: String,
    pub parameter: String,
}

impl JsonDecode for ValidationError {
    open spec fn decodes(j: JsonValue, v: ValidationError) -> bool {
        j is Object && {
            let m = j->Object_0@;
            &&& has_field(m, "code"@, v.code)
            &&& has_field(m, "message"@, v.message)
            &&& has_field(m, "parameter"@, v.parameter)
        }
    }

    fn decode(j: &JsonValue) -> (r: Result<ValidationError, Error>) {
        let m = match members_of(j) {
            Ok(m) => m,
            Err(e) => return Err(e),
        };
        let code = match read_required(m, "code") {
            Ok(x) => x,
            Err(e) => return Err(e),
        };
        let message = match read_required(m, "message") {
            Ok(x) => x,
            Err(e) => return Err(e),
        };
        let parameter = match read_required(m, "parameter") {
            Ok(x) => x,
            Err(e) => return Err(e),
        };
        Ok(ValidationError { code, message, parameter })
    }
}

/// The outcome of checking parameters against a connector without creating an item.
#[derive(Debug)]
pub struct ValidationResult {
    pub parameters: StringMap,
    pub errors: Vec<ValidationError>,
}

impl JsonDecode for ValidationResult {
    open spec fn decodes(j: JsonValue, v: ValidationResult) -> bool {
        j is Object && {
            let m = j->Object_0@;
            &&& has_field(m, "parameters"@, v.parameters)
            &&& has_field(m, "errors"@, v.errors)
        }
    }

    fn decode(j: &JsonValue) -> (r: Result<ValidationResult, Error>) {
        let m = match members_of(j) {
            Ok(m) => m,
            Err(e) => return Err(e),
        };
        let parameters = match read_required(m, "parameters") {
            Ok(x) => x,
            Err(e) => return Err(e),
        };
        let errors = match read_required(m, "errors") {
            Ok(x) => x,
            Err(e) => return Err(e),
        };
        Ok(ValidationResult { parameters, errors })
    }
}

} // verus!
