//! Contacts of Exact Online: the request path and the records.

use vstd::prelude::*;
use crate::requests::accounts::{crm_list_path, crm_list_path_exec, list_query, list_query_exec, opt_view};

verus! {

/// Fields that a contact list can be filtered on.
pub enum ContactFilterOptions {
    /// A Guid.
    Id,
    /// A Guid.
    Account,
}

/// The name of a filter field as Exact spells it.
pub open spec fn contact_field_name(o: ContactFilterOptions) -> Seq<char> {
    match o {
        ContactFilterOptions::Id => "ID"@,
        ContactFilterOptions::Account => "Account"@,
    }
}

impl ContactFilterOptions {
    /// The name of the field as Exact spells it.
    pub fn name(&self) -> (s: String)
        ensures
            s@ == contact_field_name(*self),
            *self == ContactFilterOptions::Id ==> s@ == "ID"@,
            *self == ContactFilterOptions::Account ==> s@ == "Account"@,
    {
        match self {
            ContactFilterOptions::Id => String::from_str("ID"),
            ContactFilterOptions::Account => String::from_str("Account"),
        }
    }
}

/// A contact as Exact describes it.
pub struct Contact {
    pub id: String,
    pub account: String,
    pub email: Option<String>,
    pub full_name: Option<String>,
    pub phone: Option<String>,
    pub first_name: Option<String>,
    pub last_name: Option<String>,
    pub mobile: Option<String>,
    pub business_mobile: Option<String>,
}

/// The fields that a contact list asks for.
pub const CONTACT_SELECT: &'static str = "$select=ID,Account,Email,FullName,Phone";

/// The path that lists the contacts of `division`, filtered by the rendered
/// filter text `filter` where there is one.
pub fn contacts_path(division: i32, filter: Option<&str>) -> (p: String)
    ensures
        p@ == crm_list_path(division, "Contacts"@, list_query(CONTACT_SELECT@, opt_view(filter))),
{
    let q = list_query_exec(CONTACT_SELECT, filter);
    crm_list_path_exec(division, "Contacts", q.as_str())
}

} // verus!
