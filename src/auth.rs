use vstd::prelude::*;
use vstd::string::StringExecFns;

use crate::error::Error;
use crate::json::{
    has_field, has_opt_field, member_is, members_of, opt_to_json, read_optional, read_required,
    JsonDecode, JsonEncode, JsonValue,
};

verus! {

/// The client credentials exchanged for an API key.
#[derive(Debug)]
pub struct AuthRequest {
    pub client_id: String,
    pub client_secret: String,
    pub non_expiring: Option<bool>,
}

impl JsonDecode for AuthRequest {
    open spec fn decodes(j: JsonValue, v: AuthRequest) -> bool {
        j is Object && {
            let m = j->Object_0@;
            &&& has_field(m, "clientId"@, v.client_id)
            &&& has_field(m, "clientSecret"@, v.client_secret)
            &&& has_opt_field(m, "nonExpiring"@, v.non_expiring)
        }
    }

    fn decode(j: &JsonValue) -> (r: Result<AuthRequest, Error>) {
        let m = match members_of(j) {
            Ok(m) => m,
            Err(e) => return Err(e),
        };
        let client_id = match read_required(m, "clientId") {
            Ok(x) => x,
            Err(e) => return Err(e),
        };
        let client_secret = match read_required(m, "clientSecret") {
            Ok(x) => x,
            Err(e) => return Err(e),
        };
        let non_expiring = match read_optional(m, "nonExpiring") {
            Ok(x) => x,
            Err(e) => return Err(e),
        };
        Ok(AuthRequest { client_id, client_secret, non_expiring })
    }
}

impl AuthRequest {
    /// `j` is the document sent for this request: an object with exactly these
    /// members, in this order.
    pub open spec fn encoded_as(self, j: JsonValue) -> bool {
        j is Object && {
            let m = j->Object_0@;
            &&& m.len() == 3
            &&& member_is(m, 0, "clientId"@, self.client_id)
            &&& member_is(m, 1, "clientSecret"@, self.client_secret)
            &&& member_is(m, 2, "nonExpiring"@, self.non_expiring)
        }
    }

    /// The document sent to the authentication endpoint.
    pub fn to_json(&self) -> (r: JsonValue)
        ensures
            self.encoded_as(r),
    {
        let mut m: Vec<(String, JsonValue)> = Vec::new();
        m.push((String::from_str("clientId"), self.client_id.to_json()));
        m.push((String::from_str("clientSecret"), self.client_secret.to_json()));
        m.push((String::from_str("nonExpiring"), opt_to_json(&self.non_expiring)));
        JsonValue::Object(m)
    }
}

} // verus!
