use vstd::prelude::*;

use crate::error::Error;
use crate::json::{has_field, members_of, read_required, JsonDecode, JsonValue};

verus! {

/// The envelope of every list endpoint: one page of results and where it
/// stands among all pages.
#[derive(Debug)]
pub struct PageResponse<T> {
    pub results: Vec<T>,
    pub page: i32,
    pub total_pages: i32,
    pub total: i32,
}

impl<T: JsonDecode> JsonDecode for PageResponse<T> {
    open spec fn decodes(j: JsonValue, v: PageResponse<T>) -> bool {
        j is Object && {
            let m = j->Object_0@;
            &&& has_field(m, "results"@, v.results)
            &&& has_field(m, "page"@, v.page)
            &&& has_field(m, "totalPages"@, v.total_pages)
            &&& has_field(m, "total"@, v.total)
        }
    }

    fn decode(j: &JsonValue) -> (r: Result<PageResponse<T>, Error>) {
        let m = match members_of(j) {
            Ok(m) => m,
            Err(e) => return Err(e),
        };
        let results = match read_required(m, "results") {
            Ok(x) => x,
            Err(e) => return Err(e),
        };
        let page = match read_required(m, "page") {
            Ok(x) => x,
            Err(e) => return Err(e),
        };
        let total_pages = match read_required(m, "totalPages") {
            Ok(x) => x,
            Err(e) => return Err(e),
        };
        let total = match read_required(m, "total") {
            Ok(x) => x,
            Err(e) => return Err(e),
        };
        Ok(PageResponse { results, page, total_pages, total })
    }
}

/// The results of a page, in order; the page numbers and counts are dropped.
pub fn page_results<T: JsonDecode>(j: &JsonValue) -> (r: Result<Vec<T>, Error>)
    ensures
        match r {
            Ok(v) => exists|p: PageResponse<T>| #[trigger] PageResponse::<T>::decodes(*j, p) && p.results == v,
            Err(e) => e is Decode && forall|p: PageResponse<T>| !#[trigger] PageResponse::<T>::decodes(*j, p),
        },
{
    match PageResponse::<T>::decode(j) {
        Ok(p) => Ok(p.results),
        Err(e) => Err(e),
    }
}

} // verus!
