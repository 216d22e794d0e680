//! Accounts as the client library hands them out.

use vstd::prelude::*;
use crate::client::{query_suffix, query_suffix_exec, ExactApiClient};
use crate::proto;
use crate::proto::status_of_number;
use crate::requests::accounts::opt_view;
use crate::requests::accounts::Account as ExactAccount;
use crate::server::conversion::proto_of_account;

verus! {

/// An account of the organisation.
#[derive(Debug, Clone, PartialEq)]
pub struct Account {
    pub id: String,
    pub name: String,
    pub kvk: Option<String>,
    pub code: Option<String>,
    pub email: Option<String>,
    pub phone: Option<String>,
    pub status: Option<AccountStatus>,
    pub vat_number: Option<String>,
    pub website: Option<String>,
    pub is_supplier: bool,
    pub address: Option<Address>,
}

/// The postal address of an account.
#[derive(Debug, Clone, PartialEq)]
pub struct Address {
    pub line1: String,
    pub city: String,
    pub postcode: String,
    pub country_name: String,
    pub country_code: String,
    pub state: String,
}

/// The relation of an account to the organisation.
#[derive(Debug, Clone, Copy, PartialEq, Eq)]
pub enum AccountStatus {
    Customer,
    Prospect,
    Suspect,
    /// No relation (the wire name of this variant is `None`).
    NoStatus,
}

/// Which accounts to list. Every field is optional; with several, `and_mode`
/// says whether all must match (the default) or any.
#[derive(Debug, Clone, PartialEq)]
pub struct AccountFilter {
    pub id: Option<String>,
    pub address_line_1: Option<String>,
    pub city: Option<String>,
    pub name: Option<String>,
    pub kvk: Option<String>,
    /// When true: AND, when false: OR. Default: AND (true).
    pub and_mode: Option<bool>,
}

/// The path of the service's account list.
pub const ACCOUNT_LIST_PATH: &'static str = "/api/v1/account/list";

impl ExactApiClient {
    /// The URL of the account list, with the serialized filter as its query
    /// where there is one.
    pub fn account_list_url(&self, serialized_filter: Option<&str>) -> (url: String)
        ensures
            url@ == self.base_url_view() + ACCOUNT_LIST_PATH@ + query_suffix(opt_view(serialized_filter)),
    {
        let mut path = String::from_str(ACCOUNT_LIST_PATH);
        let q = query_suffix_exec(serialized_filter);
        path.append(q.as_str());
        let url = self.get_url(path.as_str());
        assert(url@ =~= self.base_url_view() + ACCOUNT_LIST_PATH@ + query_suffix(opt_view(serialized_filter)));
        url
    }
}

/// The client's status for a status of the wire model.
pub open spec fn status_of_proto(s: proto::AccountStatus) -> AccountStatus {
    match s {
        proto::AccountStatus::Suspect => AccountStatus::Suspect,
        proto::AccountStatus::Customer => AccountStatus::Customer,
        proto::AccountStatus::Prospect => AccountStatus::Prospect,
        proto::AccountStatus::NoStatus => AccountStatus::NoStatus,
    }
}

/// Whether a wire account's status is absent or the number of a status.
pub open spec fn status_known(p: proto::Account) -> bool {
    p.status matches Some(v) ==> status_of_number(v) is Some
}

/// The account that a wire account describes.
pub open spec fn account_of_proto(p: proto::Account) -> Account {
    Account {
        id: p.id,
        name: p.name,
        vat_number: p.vat_number,
        kvk: p.kvk,
        address: match p.address {
            Some(a) => Some(
                Address {
                    line1: a.line1,
                    city: a.city,
                    country_name: a.country_name,
                    country_code: a.country_code,
                    state: a.state,
                    postcode: a.postcode,
                },
            ),
            None => None,
        },
        is_supplier: p.is_supplier,
        code: p.code,
        email: p.email,
        phone: p.phone,
        website: p.website,
        status: match p.status {
            Some(v) => Some(status_of_proto(status_of_number(v)->0)),
            None => None,
        },
    }
}

/// The client's status for a status of the wire model.
pub fn status_from_proto(s: proto::AccountStatus) -> (c: AccountStatus)
    ensures
        c == status_of_proto(s),
{
    match s {
        proto::AccountStatus::Suspect => AccountStatus::Suspect,
        proto::AccountStatus::Customer => AccountStatus::Customer,
        proto::AccountStatus::Prospect => AccountStatus::Prospect,
        proto::AccountStatus::NoStatus => AccountStatus::NoStatus,
    }
}

/// Whether the client's account `a` describes the wire account `p`: the same
/// id, name, kvk, code, e-mail address, phone, VAT number, website and
/// supplier flag; the status `Customer` for number 1, `Prospect` for 2,
/// `Suspect` for 3, `NoStatus` for 0, none without a number; the address with
/// the same six parts, or none.
pub open spec fn client_carries_proto(a: Account, p: proto::Account) -> bool {
    &&& a.id == p.id
    &&& a.name == p.name
    &&& a.kvk == p.kvk
    &&& a.code == p.code
    &&& a.email == p.email
    &&& a.phone == p.phone
    &&& a.vat_number == p.vat_number
    &&& a.website == p.website
    &&& a.is_supplier == p.is_supplier
    &&& (p.status is None ==> a.status is None)
    &&& (p.status == Some(1i32) ==> a.status == Some(AccountStatus::Customer))
    &&& (p.status == Some(2i32) ==> a.status == Some(AccountStatus::Prospect))
    &&& (p.status == Some(3i32) ==> a.status == Some(AccountStatus::Suspect))
    &&& (p.status == Some(0i32) ==> a.status == Some(AccountStatus::NoStatus))
    &&& (p.address is None ==> a.address is None)
    &&& (p.address matches Some(x) ==> a.address == Some(
        Address {
            line1: x.line1,
            city: x.city,
            postcode: x.postcode,
            country_name: x.country_name,
            country_code: x.country_code,
            state: x.state,
        },
    ))
}

/// The client's account of a wire account describes it, field by field.
pub proof fn lemma_account_of_proto_carries(p: proto::Account)
    ensures
        client_carries_proto(account_of_proto(p), p),
{
}

/// The account that a wire account describes; its status must be absent or
/// the number of a status.
pub fn account_from_proto(p: proto::Account) -> (a: Account)
    requires
        status_known(p),
    ensures
        a == account_of_proto(p),
        client_carries_proto(a, p),
{
    let status = match p.status {
        Some(v) => match proto::AccountStatus::from_i32(v) {
            Some(s) => Some(status_from_proto(s)),
            None => None,
        },
        None => None,
    };
    let address = match p.address {
        Some(x) => Some(
            Address {
                line1: x.line1,
                city: x.city,
                country_name: x.country_name,
                country_code: x.country_code,
                state: x.state,
                postcode: x.postcode,
            },
        ),
        None => None,
    };
    Account {
        id: p.id,
        name: p.name,
        vat_number: p.vat_number,
        kvk: p.kvk,
        address,
        is_supplier: p.is_supplier,
        code: p.code,
        email: p.email,
        phone: p.phone,
        website: p.website,
        status,
    }
}

/// Whether every account of an answer has a known status (or none).
pub fn statuses_known(r: &proto::ListAccountResponse) -> (b: bool)
    ensures
        b == (forall|i: int| 0 <= i < r.accounts@.len() ==> #[trigger] status_known(r.accounts@[i])),
{
    let mut i: usize = 0;
    while i < r.accounts.len()
        invariant
            i <= r.accounts@.len(),
            forall|j: int| 0 <= j < i ==> #[trigger] status_known(r.accounts@[j]),
        decreases r.accounts@.len() - i,
    {
        let known = match r.accounts[i].status {
            Some(v) => proto::AccountStatus::from_i32(v).is_some(),
            None => true,
        };
        if !known {
            assert(!status_known(r.accounts@[i as int]));
            return false;
        }
        i = i + 1;
    }
    true
}

/// The accounts of an answer, in order; each must have a known status (or
/// none).
pub fn accounts_from_response(r: proto::ListAccountResponse) -> (v: Vec<Account>)
    requires
        forall|i: int| 0 <= i < r.accounts@.len() ==> #[trigger] status_known(r.accounts@[i]),
    ensures
        v@ == r.accounts@.map_values(|p: proto::Account| account_of_proto(p)),
        v@.len() == r.accounts@.len(),
        forall|i: int| 0 <= i < r.accounts@.len() ==> client_carries_proto(#[trigger] v@[i], r.accounts@[i]),
{
    let ghost ps = r.accounts@;
    let mut v: Vec<Account> = Vec::new();
    for p in it: r.accounts
        invariant
            it.seq() == ps,
            forall|i: int| 0 <= i < ps.len() ==> #[trigger] status_known(ps[i]),
            v@ == ps.take(it.index() as int).map_values(|p: proto::Account| account_of_proto(p)),
    {
        let ghost k = it.index();
        assert(status_known(ps[k as int]));
        v.push(account_from_proto(p));
        assert(ps.take(k + 1) =~= ps.take(k as int).push(ps[k as int]));
        assert(v@ =~= ps.take(k + 1).map_values(|p: proto::Account| account_of_proto(p)));
    }
    assert(ps.take(ps.len() as int) =~= ps);
    assert forall|i: int| 0 <= i < ps.len() implies client_carries_proto(#[trigger] v@[i], ps[i]) by {
        lemma_account_of_proto_carries(ps[i]);
    }
    v
}


/// The client's status for an Exact status code: `C` a customer, `P` a
/// prospect, `S` a suspect, any other code no status.
pub open spec fn client_status_for_code(code: Seq<char>) -> AccountStatus {
    if code == "C"@ {
        AccountStatus::Customer
    } else if code == "P"@ {
        AccountStatus::Prospect
    } else if code == "S"@ {
        AccountStatus::Suspect
    } else {
        AccountStatus::NoStatus
    }
}

/// The account that a client sees of an Exact account.
pub open spec fn client_account_of_exact(a: ExactAccount) -> Account {
    Account {
        id: a.id,
        name: a.name,
        kvk: a.chamber_of_commerce,
        code: a.code,
        email: a.email,
        phone: a.phone,
        status: match a.status {
            Some(c) => Some(client_status_for_code(c@)),
            None => None,
        },
        vat_number: a.vat_number,
        website: a.website,
        is_supplier: a.is_supplier,
        address: if a.address is Some && a.state is Some && a.country is Some
            && a.country_name is Some && a.city is Some && a.postcode is Some {
            Some(
                Address {
                    line1: a.address->0,
                    city: a.city->0,
                    postcode: a.postcode->0,
                    country_name: a.country_name->0,
                    country_code: a.country->0,
                    state: a.state->0,
                },
            )
        } else {
            None
        },
    }
}

/// What the service sends of an Exact account, the client reads back: the
/// wire form always has a known status, and the client's account carries the
/// Exact account's fields, its chamber of commerce number as `kvk`, the
/// status that its code stands for, and an address exactly when all six parts
/// are known.
pub proof fn lemma_client_reads_service_account(a: ExactAccount)
    ensures
        status_known(proto_of_account(a)),
        account_of_proto(proto_of_account(a)) == client_account_of_exact(a),
{
}

} // verus!
