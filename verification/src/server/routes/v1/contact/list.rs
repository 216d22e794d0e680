//! `GET /v1/contact/list`: contacts from Exact.

use vstd::prelude::*;
use crate::proto;
use crate::requests::contact::ContactFilterOptions;
use crate::requests::filter::{FilterExpr, FilterOp, FilterValue};
use crate::server::routes::v1::{combined_filter, set_filter};

verus! {

/// The query of a contact list.
#[derive(Debug, Clone, PartialEq)]
pub struct Query {
    pub id: Option<String>,
    pub account: Option<String>,
    /// When true: AND, when false: OR. Default: AND (true).
    pub and_mode: Option<bool>,
}

/// The scopes that a caller's token must carry.
pub const SCOPE: &'static str = "nl.mrfriendly.exact.read nl.mrfriendly.exact";

/// Whether the conditions of the query must all hold: as the query says,
/// else yes.
pub open spec fn and_mode_of(query: Query) -> bool {
    match query.and_mode {
        Some(b) => b,
        None => true,
    }
}

/// The filter of the Exact request: a condition on the id where the query
/// names one, joined in the query's mode with a condition on the account
/// where it names one.
pub open spec fn contact_filter_of(query: Query) -> Option<FilterExpr<ContactFilterOptions>> {
    let by_id: Option<FilterExpr<ContactFilterOptions>> = match query.id {
        Some(id) => Some(
            FilterExpr::Condition {
                field: ContactFilterOptions::Id,
                value: FilterValue::Guid(id),
                op: FilterOp::Equals,
            },
        ),
        None => None,
    };
    match query.account {
        Some(account) => Some(
            combined_filter(
                by_id,
                FilterExpr::Condition {
                    field: ContactFilterOptions::Account,
                    value: FilterValue::Guid(account),
                    op: FilterOp::Equals,
                },
                and_mode_of(query),
            ),
        ),
        None => by_id,
    }
}

/// Whether `f` is the filter that a query asks for: none without id and
/// account; `ID eq guid'id'` for an id alone; `Account eq guid'account'` for
/// an account alone; for both, the id condition and then the account
/// condition, joined by AND unless the query asks for OR.
pub open spec fn contact_filter_law(query: Query, f: Option<FilterExpr<ContactFilterOptions>>) -> bool {
    let by_id = FilterExpr::Condition {
        field: ContactFilterOptions::Id,
        value: FilterValue::Guid(query.id->0),
        op: FilterOp::Equals,
    };
    let by_account = FilterExpr::Condition {
        field: ContactFilterOptions::Account,
        value: FilterValue::Guid(query.account->0),
        op: FilterOp::Equals,
    };
    &&& (query.id is None && query.account is None) ==> f is None
    &&& (query.id is Some && query.account is None) ==> f == Some(by_id)
    &&& (query.id is None && query.account is Some) ==> f == Some(by_account)
    &&& (query.id is Some && query.account is Some && query.and_mode != Some(false)) ==> f == Some(
        FilterExpr::And(Box::new(by_id), Box::new(by_account)),
    )
    &&& (query.id is Some && query.account is Some && query.and_mode == Some(false)) ==> f == Some(
        FilterExpr::Or(Box::new(by_id), Box::new(by_account)),
    )
}

/// The filter of a contact list is the one [`contact_filter_law`] describes.
pub proof fn lemma_contact_filter_law(query: Query)
    ensures
        contact_filter_law(query, contact_filter_of(query)),
{
}

/// The filter of the Exact request, as [`contact_filter_of`] says.
pub fn contact_filter(query: &Query) -> (f: Option<FilterExpr<ContactFilterOptions>>)
    ensures
        f == contact_filter_of(*query),
        contact_filter_law(*query, f),
{
    let and_mode = match query.and_mode {
        Some(b) => b,
        None => true,
    };
    let mut filter: Option<FilterExpr<ContactFilterOptions>> = None;
    match &query.id {
        Some(id) => {
            filter = Some(FilterExpr::new(
                ContactFilterOptions::Id,
                FilterValue::Guid(id.clone()),
                FilterOp::Equals,
            ));
        },
        None => {},
    }
    match &query.account {
        Some(account) => {
            let account_filter = FilterExpr::new(
                ContactFilterOptions::Account,
                FilterValue::Guid(account.clone()),
                FilterOp::Equals,
            );
            filter = Some(set_filter(filter, account_filter, and_mode));
        },
        None => {},
    }
    filter
}

/// The answer that carries `contacts`, with their number as its size.
pub fn list_response(contacts: Vec<proto::Contact>) -> (r: proto::ListContactResponse)
    ensures
        r.size == contacts.len() as i64,
        r.contacts@ == contacts@,
{
    proto::ListContactResponse { size: contacts.len() as i64, contacts }
}

} // verus!
