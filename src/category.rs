use vstd::prelude::*;

use crate::error::Error;
use crate::json::{
    has_field, has_opt_field, members_of, read_optional, read_required, JsonDecode, JsonValue,
};

verus! {

/// A node of the transaction category taxonomy.
#[derive(Debug)]
pub struct Category {
    pub id: String,
    pub description: String,
    pub parent_id: Option<String>,
    pub parent_description: Option<String>,
}

impl JsonDecode for Category {
    open spec fn decodes(j: JsonValue, v: Category) -> bool {
        j is Object && {
            let m = j->Object_0@;
            &&& has_field(m, "id"@, v.id)
            &&& has_field(m, "description"@, v.description)
            &&& has_opt_field(m, "parentId"@, v.parent_id)
            &&& has_opt_field(m, "parentDescription"@, v.parent_description)
        }
    }

    fn decode(j: &JsonValue) -> (r: Result<Category, Error>) {
        let m = match members_of(j) {
            Ok(m) => m,
            Err(e) => return Err(e),
        };
        let id = match read_required(m, "id") {
            Ok(x) => x,
            Err(e) => return Err(e),
        };
        let description = match read_required(m, "description") {
            Ok(x) => x,
            Err(e) => return Err(e),
        };
        let parent_id = match read_optional(m, "parentId") {
            Ok(x) => x,
            Err(e) => return Err(e),
        };
        let parent_description = match read_optional(m, "parentDescription") {
            Ok(x) => x,
            Err(e) => return Err(e),
        };
        Ok(Category { id, description, parent_id, parent_description })
    }
}

} // verus!
