//! The detail window's decisions: the request sent when it is saved, and
//! the folder opened for a company.
use vstd::prelude::*;
use crate::tasks::UpdateCompanyReq;
use crate::text::{
    chars_of, trim, trim_chars, trimmed, lemma_trimmed_keeps, lemma_trimmed_idempotent,
    lemma_trimmed_fixed, signed_decimal, signed_decimal_string, decimal,
    push_decimal,
};

verus! {

/// Characters that cannot stand in a folder name.
pub open spec fn is_reserved(c: char) -> bool {
    c == '<' || c == '>' || c == ':' || c == '"' || c == '/' || c == '\\' || c == '|' || c == '?'
        || c == '*'
}

/// `name` with every reserved character replaced by `_`.
pub open spec fn replace_reserved(name: Seq<char>) -> Seq<char> {
    name.map_values(|c: char| if is_reserved(c) { '_' } else { c })
}

/// The folder name for a company: its name with reserved characters
/// replaced by `_` and surrounding white space removed, or `Company` when
/// nothing is left.
pub open spec fn safe_name(name: Seq<char>) -> Seq<char> {
    let t = trimmed(replace_reserved(name));
    if t.len() == 0 {
        "Company"@
    } else {
        t
    }
}

/// A company folder name is never empty and holds no reserved character,
/// whatever the company is called.
pub proof fn lemma_safe_name(name: Seq<char>)
    ensures
        safe_name(name).len() > 0,
        forall|i: int| 0 <= i < safe_name(name).len() ==> !is_reserved(#[trigger] safe_name(name)[i]),
{
    let r = replace_reserved(name);
    let ok = |c: char| !is_reserved(c);
    assert forall|i: int| 0 <= i < r.len() implies ok(#[trigger] r[i]) by {}
    lemma_trimmed_keeps(r, ok);
    if trimmed(r).len() == 0 {
        reveal_strlit("Company");
    } else {
        assert forall|i: int| 0 <= i < trimmed(r).len() implies !is_reserved(#[trigger] trimmed(r)[i]) by {
            assert(ok(trimmed(r)[i]));
        }
    }
}

/// The folder name is already trimmed and cleaned, so cleaning it again
/// changes nothing; and it is `Company` exactly when the cleaned name is
/// blank or is `Company` itself.
pub proof fn lemma_safe_name_stable(name: Seq<char>)
    ensures
        trimmed(safe_name(name)) == safe_name(name),
        safe_name(safe_name(name)) == safe_name(name),
        safe_name(name) == "Company"@ <==> (trimmed(replace_reserved(name)).len() == 0 || trimmed(
            replace_reserved(name),
        ) == "Company"@),
{
    let r = safe_name(name);
    lemma_safe_name(name);
    if trimmed(replace_reserved(name)).len() == 0 {
        reveal_strlit("Company");
    } else {
        lemma_trimmed_idempotent(replace_reserved(name));
    }
    lemma_trimmed_fixed(r);
    assert(replace_reserved(r) =~= r);
}

/// A month number written with two digits (`{:02}`).
pub open spec fn two_digits(m: nat) -> Seq<char> {
    if m < 10 {
        seq!['0'] + decimal(m)
    } else {
        decimal(m)
    }
}

/// The folder name for a company name.
pub fn sanitize_company_name(name: &str) -> (r: String)
    ensures
        r@ == safe_name(name@),
{
    let v = chars_of(name);
    let mut out: Vec<char> = Vec::new();
    let mut i: usize = 0;
    while i < v.len()
        invariant
            i <= v@.len(),
            v@ == name@,
            out@ == replace_reserved(v@).take(i as int),
        decreases v@.len() - i,
    {
        let c = v[i];
        let reserved = c == '<' || c == '>' || c == ':' || c == '"' || c == '/' || c == '\\' || c
            == '|' || c == '?' || c == '*';
        if reserved {
            out.push('_');
        } else {
            out.push(c);
        }
        assert(replace_reserved(v@).take(i + 1) == replace_reserved(v@).take(i as int).push(
            replace_reserved(v@)[i as int],
        ));
        i = i + 1;
    }
    assert(replace_reserved(v@).take(v@.len() as int) == replace_reserved(v@));
    let t = trim_chars(&out);
    if t.as_str().is_empty() {
        String::from_str("Company")
    } else {
        t
    }
}

/// The relative folder of a company for a year and month:
/// `<folder name>/<year>/<month, two digits>`, as its three parts.
pub fn folder_parts(name: &str, year: i32, month: u32) -> (parts: Vec<String>)
    ensures
        parts@.len() == 3,
        parts@[0]@ == safe_name(name@),
        parts@[1]@ == signed_decimal(year as int),
        parts@[2]@ == two_digits(month as nat),
{
    let mut parts: Vec<String> = Vec::new();
    parts.push(sanitize_company_name(name));
    parts.push(signed_decimal_string(year as i64));
    let mut m = String::new();
    if month < 10 {
        m.append("0");
        proof {
            reveal_strlit("0");
        }
    }
    push_decimal(&mut m, month as u64);
    proof {
        if month < 10 {
            assert(m@ == seq!['0'] + decimal(month as nat));
        } else {
            assert(m@ == Seq::<char>::empty() + decimal(month as nat));
        }
    }
    parts.push(m);
    parts
}

/// The folder of a company for the current local year and month.
pub fn company_folder(name: &str) -> (parts: Vec<String>)
    ensures
        parts@.len() == 3,
        parts@[0]@ == safe_name(name@),
        exists|year: i32, month: u32|
            1 <= month <= 12 && parts@[1]@ == signed_decimal(year as int) && parts@[2]@ == two_digits(
                month as nat,
            ),
{
    let (year, month) = crate::clock::local_year_month();
    folder_parts(name, year, month)
}

/// The update sent when the detail window of company `company_id` is saved,
/// or `None` when the name is blank (the window then asks for a name). The
/// fields are sent as typed.
pub fn update_request(
    company_id: i64,
    name: String,
    county: String,
    contact_first: String,
    contact_last: String,
) -> (r: Option<UpdateCompanyReq>)
    ensures
        r is None <==> trimmed(name@).len() == 0,
        r matches Some(req) ==> req.id == company_id && req.new_name == name && req.county == county
            && req.contact_first == contact_first && req.contact_last == contact_last,
{
    if trim(name.as_str()).as_str().is_empty() {
        None
    } else {
        Some(UpdateCompanyReq { id: company_id, new_name: name, county, contact_first, contact_last })
    }
}

} // verus!
