//! The new-company form's decision: the request sent when it is saved.
use vstd::prelude::*;
use crate::tasks::InsertCompanyReq;
use crate::text::{trim, trimmed};

verus! {

/// The insert sent when the new-company form is saved, or `None` when the
/// name is blank (the form then asks for a name). The fields are sent as
/// typed.
pub fn insert_request(
    name: String,
    county: String,
    contact_first: String,
    contact_last: String,
) -> (r: Option<InsertCompanyReq>)
    ensures
        r is None <==> trimmed(name@).len() == 0,
        r matches Some(req) ==> req.name == name && req.county == county && req.contact_first
            == contact_first && req.contact_last == contact_last,
{
    if trim(name.as_str()).as_str().is_empty() {
        None
    } else {
        Some(InsertCompanyReq { name, county, contact_first, contact_last })
    }
}

} // verus!
