//! Accounts of Exact Online: the request path, the records and their paging.

use vstd::prelude::*;
use crate::requests::{base_uri, ResponseData, BASE_URI};
use crate::text::{
    i64_to_decimal, lemma_remove_all_absent, lemma_remove_all_prefix, occurs_at, remove_all,
    remove_all_exec, signed_decimal,
};

verus! {

/// Fields that an account list can be filtered on.
pub enum AccountFilterOptions {
    Id,
    ChamberOfCommerce,
    Status,
    City,
    AddressLine1,
    Postcode,
    Name,
}

/// The name of a filter field as Exact spells it.
pub open spec fn account_field_name(o: AccountFilterOptions) -> Seq<char> {
    match o {
        AccountFilterOptions::Id => "ID"@,
        AccountFilterOptions::ChamberOfCommerce => "ChamberOfCommerce"@,
        AccountFilterOptions::Status => "Status"@,
        AccountFilterOptions::City => "City"@,
        AccountFilterOptions::AddressLine1 => "AddressLine1"@,
        AccountFilterOptions::Postcode => "Postcode"@,
        AccountFilterOptions::Name => "Name"@,
    }
}

impl AccountFilterOptions {
    /// The name of the field as Exact spells it (`"ID"` for `Id`, else the
    /// variant's own name).
    pub fn name(&self) -> (s: String)
        ensures
            s@ == account_field_name(*self),
            *self == AccountFilterOptions::Id ==> s@ == "ID"@,
            *self == AccountFilterOptions::ChamberOfCommerce ==> s@ == "ChamberOfCommerce"@,
            *self == AccountFilterOptions::Status ==> s@ == "Status"@,
            *self == AccountFilterOptions::City ==> s@ == "City"@,
            *self == AccountFilterOptions::AddressLine1 ==> s@ == "AddressLine1"@,
            *self == AccountFilterOptions::Postcode ==> s@ == "Postcode"@,
            *self == AccountFilterOptions::Name ==> s@ == "Name"@,
    {
        match self {
            AccountFilterOptions::Id => String::from_str("ID"),
            AccountFilterOptions::ChamberOfCommerce => String::from_str("ChamberOfCommerce"),
            AccountFilterOptions::Status => String::from_str("Status"),
            AccountFilterOptions::City => String::from_str("City"),
            AccountFilterOptions::AddressLine1 => String::from_str("AddressLine1"),
            AccountFilterOptions::Postcode => String::from_str("Postcode"),
            AccountFilterOptions::Name => String::from_str("Name"),
        }
    }
}

/// An account as Exact describes it.
pub struct Account {
    pub id: String,
    pub name: String,
    pub address: Option<String>,
    pub chamber_of_commerce: Option<String>,
    pub city: Option<String>,
    pub code: Option<String>,
    pub country: Option<String>,
    pub country_name: Option<String>,
    pub email: Option<String>,
    pub phone: Option<String>,
    pub postcode: Option<String>,
    pub state: Option<String>,
    pub status: Option<String>,
    pub vat_number: Option<String>,
    pub website: Option<String>,
    pub is_supplier: bool,
}

/// One record of the `crm/Accounts` answer, under Exact's own field names.
pub struct AccountRow {
    pub id: String,
    pub name: String,
    pub address_line_1: Option<String>,
    pub chamber_of_commerce: Option<String>,
    pub city: Option<String>,
    pub code: Option<String>,
    pub country: Option<String>,
    pub country_name: Option<String>,
    pub email: Option<String>,
    pub phone: Option<String>,
    pub postcode: Option<String>,
    pub state: Option<String>,
    pub status: Option<String>,
    pub vat_number: Option<String>,
    pub website: Option<String>,
    pub is_supplier: bool,
}

/// The account that a record describes: every field carried over, the
/// first address line as the address.
pub open spec fn account_of_row(r: AccountRow) -> Account {
    Account {
        id: r.id,
        name: r.name,
        address: r.address_line_1,
        chamber_of_commerce: r.chamber_of_commerce,
        city: r.city,
        code: r.code,
        country: r.country,
        country_name: r.country_name,
        email: r.email,
        phone: r.phone,
        postcode: r.postcode,
        state: r.state,
        status: r.status,
        vat_number: r.vat_number,
        website: r.website,
        is_supplier: r.is_supplier,
    }
}

/// Whether `a` carries the record `r`: each field of `a` equals the field of
/// `r` of the same name, and the address is the first address line.
pub open spec fn carries_row(a: Account, r: AccountRow) -> bool {
    &&& a.id == r.id
    &&& a.name == r.name
    &&& a.address == r.address_line_1
    &&& a.chamber_of_commerce == r.chamber_of_commerce
    &&& a.city == r.city
    &&& a.code == r.code
    &&& a.country == r.country
    &&& a.country_name == r.country_name
    &&& a.email == r.email
    &&& a.phone == r.phone
    &&& a.postcode == r.postcode
    &&& a.state == r.state
    &&& a.status == r.status
    &&& a.vat_number == r.vat_number
    &&& a.website == r.website
    &&& a.is_supplier == r.is_supplier
}

/// The account of a record carries that record, field by field.
pub proof fn lemma_account_of_row_carries_row(r: AccountRow)
    ensures
        carries_row(account_of_row(r), r),
{
}

/// The accounts gathered from a page carry its records one for one, in order:
/// the `i`-th account carries the `i`-th record.
pub proof fn lemma_page_accounts_carry_rows(rows: Seq<AccountRow>, i: int)
    requires
        0 <= i < rows.len(),
    ensures
        rows.map_values(|r: AccountRow| account_of_row(r)).len() == rows.len(),
        carries_row(rows.map_values(|r: AccountRow| account_of_row(r))[i], rows[i]),
{
    lemma_account_of_row_carries_row(rows[i]);
}

/// The account that a record describes.
pub fn account_from_row(r: AccountRow) -> (a: Account)
    ensures
        a == account_of_row(r),
        carries_row(a, r),
{
    Account {
        id: r.id,
        name: r.name,
        address: r.address_line_1,
        chamber_of_commerce: r.chamber_of_commerce,
        city: r.city,
        code: r.code,
        country: r.country,
        country_name: r.country_name,
        email: r.email,
        phone: r.phone,
        postcode: r.postcode,
        state: r.state,
        status: r.status,
        vat_number: r.vat_number,
        website: r.website,
        is_supplier: r.is_supplier,
    }
}

/// The fields that an account list asks for.
pub const ACCOUNT_SELECT: &'static str =
    "$select=ID,AddressLine1,ChamberOfCommerce,City,Code,IsSupplier,Country,CountryName,Email,Name,Phone,Postcode,State,StateName,Status,VATNumber,Website";

/// The query of a list request: the selected fields, then the filter text
/// where there is one.
pub open spec fn list_query(select: Seq<char>, filter: Option<Seq<char>>) -> Seq<char> {
    match filter {
        Some(f) => select + "&$filter="@ + f,
        None => select,
    }
}

/// The view of an optional text.
pub open spec fn opt_view(s: Option<&str>) -> Option<Seq<char>> {
    match s {
        Some(t) => Some(t@),
        None => None,
    }
}

/// The path of a list request on the `crm` resource `resource`.
pub open spec fn crm_list_path(division: i32, resource: Seq<char>, query: Seq<char>) -> Seq<char> {
    "/api/v1/"@ + signed_decimal(division as int) + "/crm/"@ + resource + "?"@ + query
}

/// `select`, followed by `&$filter=` and the filter text where there is one.
pub fn list_query_exec(select: &str, filter: Option<&str>) -> (q: String)
    ensures
        q@ == list_query(select@, opt_view(filter)),
{
    let mut q = String::from_str(select);
    match filter {
        Some(f) => {
            q.append("&$filter=");
            q.append(f);
        },
        None => {},
    }
    q
}

/// The path of a list request on the `crm` resource `resource` in `division`.
pub fn crm_list_path_exec(division: i32, resource: &str, query: &str) -> (p: String)
    ensures
        p@ == crm_list_path(division, resource@, query@),
{
    let mut p = String::from_str("/api/v1/");
    let d = i64_to_decimal(division as i64);
    p.append(d.as_str());
    p.append("/crm/");
    p.append(resource);
    p.append("?");
    p.append(query);
    p
}

/// The path that lists the accounts of `division`, filtered by the rendered
/// filter text `filter` where there is one.
pub fn accounts_path(division: i32, filter: Option<&str>) -> (p: String)
    ensures
        p@ == crm_list_path(division, "Accounts"@, list_query(ACCOUNT_SELECT@, opt_view(filter))),
{
    let q = list_query_exec(ACCOUNT_SELECT, filter);
    crm_list_path_exec(division, "Accounts", q.as_str())
}

/// The API path of the page that a `next` link points to: the link with
/// every occurrence of the host taken out.
pub fn next_page_path(next: &str) -> (p: String)
    ensures
        p@ == remove_all(next@, base_uri()),
{
    remove_all_exec(next, BASE_URI)
}

/// Paging undoes [`crate::requests::get_path`]: for an API path `p` in which
/// the host never occurs, the path of the page that the link
/// `BASE_URI + p` points to is `p` again.
pub proof fn lemma_next_page_path_of_link(p: Seq<char>)
    requires
        forall|i: int| !occurs_at(p, base_uri(), i),
    ensures
        remove_all(base_uri() + p, base_uri()) == p,
{
    reveal_strlit("https://start.exactonline.nl");
    assert(base_uri().len() > 0);
    lemma_remove_all_prefix(base_uri(), p);
    lemma_remove_all_absent(p, base_uri());
}

/// The accounts of a sequence of pages: those of each page, in the order of
/// the pages.
pub open spec fn accounts_of_pages(pages: Seq<Seq<AccountRow>>) -> Seq<Account>
    decreases pages.len(),
{
    if pages.len() == 0 {
        Seq::empty()
    } else {
        accounts_of_pages(pages.drop_last()) + pages.last().map_values(
            |r: AccountRow| account_of_row(r),
        )
    }
}

/// Reading the pages of an answer one after another, as
/// [`AccountPages::receive`] does, gathers the accounts of all pages in order:
/// after the first `k` pages the accounts are those of the first `k`, and the
/// next page adds its own after them.
pub proof fn lemma_pages_accumulate(pages: Seq<Seq<AccountRow>>, k: int)
    requires
        0 <= k < pages.len(),
    ensures
        accounts_of_pages(pages.take(k + 1)) == accounts_of_pages(pages.take(k)) + pages[k].map_values(
            |r: AccountRow| account_of_row(r),
        ),
{
    assert(pages.take(k + 1).drop_last() =~= pages.take(k));
    assert(pages.take(k + 1).last() == pages[k]);
}

/// The accounts of the pages of a list answer read so far.
pub struct AccountPages {
    accounts: Vec<Account>,
}

impl View for AccountPages {
    type V = Seq<Account>;

    closed spec fn view(&self) -> Seq<Account> {
        self.accounts@
    }
}

impl AccountPages {
    /// No page read yet.
    pub fn new() -> (p: AccountPages)
        ensures
            p@ == Seq::<Account>::empty(),
    {
        AccountPages { accounts: Vec::new() }
    }

    /// Takes in one page: its accounts follow those read before, and the
    /// path of the next page to ask for comes back (`None` on the last page).
    pub fn receive(&mut self, page: ResponseData<AccountRow>) -> (next: Option<String>)
        ensures
            final(self)@ == old(self)@ + page.results@.map_values(|r: AccountRow| account_of_row(r)),
            final(self)@.len() == old(self)@.len() + page.results@.len(),
            forall|i: int| 0 <= i < old(self)@.len() ==> #[trigger] final(self)@[i] == old(self)@[i],
            forall|i: int|
                0 <= i < page.results@.len() ==> carries_row(
                    #[trigger] final(self)@[old(self)@.len() + i],
                    page.results@[i],
                ),
            next is Some <==> page.next is Some,
            next is Some ==> next->0@ == remove_all(page.next->0@, base_uri()),
    {
        let ghost start = self.accounts@;
        let ghost rows = page.results@;
        let ResponseData { results, next } = page;
        for row in it: results
            invariant
                it.seq() == rows,
                self.accounts@ == start + rows.take(it.index() as int).map_values(
                    |r: AccountRow| account_of_row(r),
                ),
        {
            let ghost k = it.index();
            self.accounts.push(account_from_row(row));
            assert(rows.take(k + 1) =~= rows.take(k as int).push(rows[k as int]));
            assert(self.accounts@ =~= start + rows.take(k + 1).map_values(
                |r: AccountRow| account_of_row(r),
            ));
        }
        assert(rows.take(rows.len() as int) =~= rows);
        assert forall|i: int| 0 <= i < rows.len() implies carries_row(
            #[trigger] self.accounts@[start.len() + i],
            rows[i],
        ) by {
            lemma_page_accounts_carry_rows(rows, i);
        }
        match next {
            Some(n) => Some(next_page_path(n.as_str())),
            None => None,
        }
    }

    /// The accounts of all pages read, in order.
    pub fn into_accounts(self) -> (v: Vec<Account>)
        ensures
            v@ == self@,
    {
        self.accounts
    }
}

} // verus!
