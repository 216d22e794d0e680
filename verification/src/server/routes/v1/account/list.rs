//! `GET /v1/account/list`: accounts from the cache, or from Exact.

use vstd::prelude::*;
use crate::proto;
use crate::requests::accounts::AccountFilterOptions;
use crate::requests::filter::{FilterExpr, FilterOp, FilterValue};
use crate::server::routes::v1::{add_condition, with_condition};

verus! {

/// The query of an account list.
#[derive(Debug, Clone, PartialEq)]
pub struct Query {
    pub id: Option<String>,
    pub address_line_1: Option<String>,
    pub city: Option<String>,
    pub name: Option<String>,
    pub kvk: Option<String>,
    /// When true: AND, when false: OR. Default: AND (true).
    pub and_mode: Option<bool>,
    /// Default: false.
    pub bypass_cache: Option<bool>,
}

/// The scopes that a caller's token must carry.
pub const SCOPE: &'static str = "nl.mrfriendly.exact.read nl.mrfriendly.exact";

/// What to read from the account cache before asking Exact.
pub enum CacheLookup {
    /// Look up the account with this id; on a miss, ask Exact.
    One(String),
    /// Answer with every cached account.
    All,
    /// Do not read the cache: ask Exact.
    Skip,
}

/// Whether the cache is bypassed: as the query says, else not.
pub open spec fn bypasses_cache(query: Query) -> bool {
    match query.bypass_cache {
        Some(b) => b,
        None => false,
    }
}

/// Whether the query filters on a field other than the id.
pub open spec fn has_field_filter(query: Query) -> bool {
    query.address_line_1 is Some || query.city is Some || query.name is Some || query.kvk is Some
}

/// Whether the query filters on a field other than the id.
pub fn field_filtered(query: &Query) -> (b: bool)
    ensures
        b == has_field_filter(*query),
{
    query.address_line_1.is_some() || query.city.is_some() || query.name.is_some()
        || query.kvk.is_some()
}

/// The cache is read unless the query bypasses it, filters on a field other
/// than the id (the cache is keyed by id alone), or the cache is empty; then
/// one account is looked up when the query names one, else all are served.
pub fn cache_lookup(query: &Query, cache_weighted_size: u64) -> (l: CacheLookup)
    ensures
        (bypasses_cache(*query) || has_field_filter(*query) || cache_weighted_size == 0) ==> l is Skip,
        !(bypasses_cache(*query) || has_field_filter(*query) || cache_weighted_size == 0) ==> match query.id {
            Some(id) => l matches CacheLookup::One(i) && i@ == id@,
            None => l is All,
        },
{
    let bypass_cache = match query.bypass_cache {
        Some(b) => b,
        None => false,
    };
    if !bypass_cache && !field_filtered(query) && cache_weighted_size != 0 {
        match &query.id {
            Some(id) => CacheLookup::One(id.clone()),
            None => CacheLookup::All,
        }
    } else {
        CacheLookup::Skip
    }
}

/// Whether the conditions of the query must all hold: as the query says,
/// else yes.
pub open spec fn account_and_mode_of(query: Query) -> bool {
    match query.and_mode {
        Some(b) => b,
        None => true,
    }
}

/// A condition `field = value`, where there is a value.
pub open spec fn condition_on(
    field: AccountFilterOptions,
    value: Option<String>,
    guid: bool,
) -> Option<FilterExpr<AccountFilterOptions>> {
    match value {
        Some(v) => Some(
            FilterExpr::Condition {
                field,
                value: if guid {
                    FilterValue::Guid(v)
                } else {
                    FilterValue::Text(v)
                },
                op: FilterOp::Equals,
            },
        ),
        None => None,
    }
}

/// The filter of the Exact request: a condition for each field that the
/// query sets, in the order id, first address line, city, name, chamber of
/// commerce number, joined in the query's mode (AND unless it says OR); no
/// filter where it sets none.
pub open spec fn account_filter_of(query: Query) -> Option<FilterExpr<AccountFilterOptions>> {
    let and_mode = account_and_mode_of(query);
    let f = condition_on(AccountFilterOptions::Id, query.id, true);
    let f = with_condition(f, condition_on(AccountFilterOptions::AddressLine1, query.address_line_1, false), and_mode);
    let f = with_condition(f, condition_on(AccountFilterOptions::City, query.city, false), and_mode);
    let f = with_condition(f, condition_on(AccountFilterOptions::Name, query.name, false), and_mode);
    with_condition(f, condition_on(AccountFilterOptions::ChamberOfCommerce, query.kvk, false), and_mode)
}

fn condition(field: AccountFilterOptions, value: &Option<String>, guid: bool) -> (c: Option<FilterExpr<AccountFilterOptions>>)
    ensures
        c == condition_on(field, *value, guid),
{
    match value {
        Some(v) => {
            let value = if guid {
                FilterValue::Guid(v.clone())
            } else {
                FilterValue::Text(v.clone())
            };
            Some(FilterExpr::new(field, value, FilterOp::Equals))
        },
        None => None,
    }
}

/// `field eq value` for one field.
pub open spec fn equals_condition(field: AccountFilterOptions, value: FilterValue) -> FilterExpr<AccountFilterOptions> {
    FilterExpr::Condition { field, value, op: FilterOp::Equals }
}

/// What the filter of a query is in its simple cases: none for no field; for
/// one field, that field equal to its value (the id as a guid, the others as
/// text, the `kvk` field as the chamber of commerce number); for an id and a
/// name alone, the id condition and then the name condition, joined by AND
/// unless the query asks for OR.
pub open spec fn account_filter_law(query: Query, f: Option<FilterExpr<AccountFilterOptions>>) -> bool {
    let no_text = query.address_line_1 is None && query.city is None && query.name is None
        && query.kvk is None;
    let only = |k: int|
        (query.id is Some <==> k == 0) && (query.address_line_1 is Some <==> k == 1) && (query.city
            is Some <==> k == 2) && (query.name is Some <==> k == 3) && (query.kvk is Some <==> k
            == 4);
    &&& (query.id is None && no_text) ==> f is None
    &&& only(0) ==> f == Some(
        equals_condition(AccountFilterOptions::Id, FilterValue::Guid(query.id->0)),
    )
    &&& only(1) ==> f == Some(
        equals_condition(AccountFilterOptions::AddressLine1, FilterValue::Text(query.address_line_1->0)),
    )
    &&& only(2) ==> f == Some(
        equals_condition(AccountFilterOptions::City, FilterValue::Text(query.city->0)),
    )
    &&& only(3) ==> f == Some(
        equals_condition(AccountFilterOptions::Name, FilterValue::Text(query.name->0)),
    )
    &&& only(4) ==> f == Some(
        equals_condition(AccountFilterOptions::ChamberOfCommerce, FilterValue::Text(query.kvk->0)),
    )
    &&& (query.id is Some && query.name is Some && query.address_line_1 is None && query.city
        is None && query.kvk is None) ==> f == Some(
        {
            let by_id = equals_condition(AccountFilterOptions::Id, FilterValue::Guid(query.id->0));
            let by_name = equals_condition(AccountFilterOptions::Name, FilterValue::Text(query.name->0));
            if query.and_mode == Some(false) {
                FilterExpr::Or(Box::new(by_id), Box::new(by_name))
            } else {
                FilterExpr::And(Box::new(by_id), Box::new(by_name))
            }
        },
    )
}

/// The filter of an account list is, in its simple cases, the one
/// [`account_filter_law`] describes.
pub proof fn lemma_account_filter_law(query: Query)
    ensures
        account_filter_law(query, account_filter_of(query)),
{
}

/// The filter of the Exact request, as [`account_filter_of`] says.
pub fn account_filter(query: &Query) -> (f: Option<FilterExpr<AccountFilterOptions>>)
    ensures
        f == account_filter_of(*query),
        account_filter_law(*query, f),
{
    let and_mode = match query.and_mode {
        Some(b) => b,
        None => true,
    };
    let f = condition(AccountFilterOptions::Id, &query.id, true);
    let f = add_condition(f, condition(AccountFilterOptions::AddressLine1, &query.address_line_1, false), and_mode);
    let f = add_condition(f, condition(AccountFilterOptions::City, &query.city, false), and_mode);
    let f = add_condition(f, condition(AccountFilterOptions::Name, &query.name, false), and_mode);
    add_condition(f, condition(AccountFilterOptions::ChamberOfCommerce, &query.kvk, false), and_mode)
}

/// The answer that carries `accounts`, with their number as its size.
pub fn list_response(accounts: Vec<proto::Account>) -> (r: proto::ListAccountResponse)
    ensures
        r.size == accounts.len() as i64,
        r.accounts@ == accounts@,
{
    proto::ListAccountResponse { size: accounts.len() as i64, accounts }
}


#[verifier::external_type_specification]
#[verifier::external_body]
#[verifier::reject_recursive_types(K)]
#[verifier::reject_recursive_types(V)]
#[verifier::reject_recursive_types(S)]
pub struct ExMokaCache<K, V, S>(moka::future::Cache<K, V, S>);

/// The cache of accounts, by id, that the service answers from.
pub type AccountCache = moka::future::Cache<String, proto::Account>;

/// Calls `moka::future::Cache::weighted_size`. The figure leaves out writes
/// that the cache has not applied yet and drops expired entries as time
/// passes, so nothing is stated of it.
#[verifier::external_body]
fn cache_weighted_size(cache: &AccountCache) -> u64 {
    cache.weighted_size()
}

/// Calls `moka::future::Cache::get`: a clone of the account cached under
/// `id`, if one is there and has not expired. What the cache holds changes
/// with time, so nothing is stated of the result.
#[verifier::external_body]
fn cache_get(cache: &AccountCache, id: &String) -> Option<proto::Account> {
    cache.get(id)
}

/// Calls `moka::future::Cache::iter` and keeps the value of each entry.
/// What the cache holds changes with time, so nothing is stated of the
/// result.
#[verifier::external_body]
fn cache_accounts(cache: &AccountCache) -> Vec<proto::Account> {
    cache.iter().map(|(_id, account)| account).collect()
}

/// The answer to a lookup of one account: that account alone when the cache
/// had it, else none (ask Exact).
pub fn answer_from_hit(hit: Option<proto::Account>) -> (r: Option<proto::ListAccountResponse>)
    ensures
        hit is None ==> r is None,
        hit matches Some(a) ==> (r matches Some(resp) && resp.size == 1 && resp.accounts@ == seq![
            a,
        ]),
{
    match hit {
        Some(account) => Some(list_response(vec![account])),
        None => None,
    }
}

/// The answer that the cache gives to an account list, if the query lets the
/// cache answer (no bypass, no filter on a field other than the id) and it
/// has the answer: the cached account with the queried id, or every cached
/// account. `None` means: ask Exact.
pub fn answer_from_cache(query: &Query, cache: &AccountCache) -> (r: Option<proto::ListAccountResponse>)
    ensures
        bypasses_cache(*query) || has_field_filter(*query) ==> r is None,
        r matches Some(resp) ==> resp.size == resp.accounts.len() as i64,
        r is Some && query.id is Some ==> r->0.accounts.len() == 1,
{
    let size = cache_weighted_size(cache);
    match cache_lookup(query, size) {
        CacheLookup::One(id) => answer_from_hit(cache_get(cache, &id)),
        CacheLookup::All => Some(list_response(cache_accounts(cache))),
        CacheLookup::Skip => None,
    }
}

} // verus!
