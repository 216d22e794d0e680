//! Contacts as the client library hands them out.

use vstd::prelude::*;
use crate::client::{query_suffix, query_suffix_exec, ExactApiClient};
use crate::proto;
use crate::requests::accounts::opt_view;
use crate::requests::contact::Contact as ExactContact;
use crate::server::conversion::proto_of_contact;

verus! {

/// A contact person of an account.
#[derive(Debug, Clone, PartialEq)]
pub struct Contact {
    pub id: String,
    pub account_id: String,
    pub full_name: Option<String>,
    pub email: Option<String>,
    pub phone: Option<String>,
    pub last_name: Option<String>,
    pub first_name: Option<String>,
    pub mobile: Option<String>,
}

/// Which contacts to list; with both fields, `and_mode` says whether both
/// must match (the default) or either.
#[derive(Debug, Clone, PartialEq)]
pub struct ContactFilter {
    pub id: Option<String>,
    pub account: Option<String>,
    /// When true: AND, when false: OR. Default: AND (true).
    pub and_mode: Option<bool>,
}

/// The path of the service's contact list.
pub const CONTACT_LIST_PATH: &'static str = "/api/v1/contact/list";

impl ExactApiClient {
    /// The URL of the contact list, with the serialized filter as its query
    /// where there is one.
    pub fn contact_list_url(&self, serialized_filter: Option<&str>) -> (url: String)
        ensures
            url@ == self.base_url_view() + CONTACT_LIST_PATH@ + query_suffix(opt_view(serialized_filter)),
    {
        let mut path = String::from_str(CONTACT_LIST_PATH);
        let q = query_suffix_exec(serialized_filter);
        path.append(q.as_str());
        let url = self.get_url(path.as_str());
        assert(url@ =~= self.base_url_view() + CONTACT_LIST_PATH@ + query_suffix(opt_view(serialized_filter)));
        url
    }
}

/// The contact that a wire contact describes.
pub open spec fn contact_of_proto(p: proto::Contact) -> Contact {
    Contact {
        id: p.id,
        account_id: p.account,
        full_name: p.full_name,
        email: p.email,
        phone: p.phone,
        last_name: p.last_name,
        first_name: p.first_name,
        mobile: p.mobile,
    }
}

/// Whether the client's contact `c` describes the wire contact `p`: the same
/// id, full name, e-mail address, phone, last and first name and mobile
/// number, and the account as `account_id`.
pub open spec fn client_carries_contact(c: Contact, p: proto::Contact) -> bool {
    &&& c.id == p.id
    &&& c.account_id == p.account
    &&& c.full_name == p.full_name
    &&& c.email == p.email
    &&& c.phone == p.phone
    &&& c.last_name == p.last_name
    &&& c.first_name == p.first_name
    &&& c.mobile == p.mobile
}

/// The client's contact of a wire contact describes it, field by field.
pub proof fn lemma_contact_of_proto_carries(p: proto::Contact)
    ensures
        client_carries_contact(contact_of_proto(p), p),
{
}

/// The contact that a wire contact describes.
pub fn contact_from_proto(p: proto::Contact) -> (c: Contact)
    ensures
        c == contact_of_proto(p),
        client_carries_contact(c, p),
{
    Contact {
        id: p.id,
        account_id: p.account,
        full_name: p.full_name,
        email: p.email,
        phone: p.phone,
        last_name: p.last_name,
        first_name: p.first_name,
        mobile: p.mobile,
    }
}

/// The contacts of an answer, in order.
pub fn contacts_from_response(r: proto::ListContactResponse) -> (v: Vec<Contact>)
    ensures
        v@ == r.contacts@.map_values(|p: proto::Contact| contact_of_proto(p)),
        v@.len() == r.contacts@.len(),
        forall|i: int| 0 <= i < r.contacts@.len() ==> client_carries_contact(#[trigger] v@[i], r.contacts@[i]),
{
    let ghost ps = r.contacts@;
    let mut v: Vec<Contact> = Vec::new();
    for p in it: r.contacts
        invariant
            it.seq() == ps,
            v@ == ps.take(it.index() as int).map_values(|p: proto::Contact| contact_of_proto(p)),
    {
        let ghost k = it.index();
        v.push(contact_from_proto(p));
        assert(ps.take(k + 1) =~= ps.take(k as int).push(ps[k as int]));
        assert(v@ =~= ps.take(k + 1).map_values(|p: proto::Contact| contact_of_proto(p)));
    }
    assert(ps.take(ps.len() as int) =~= ps);
    assert forall|i: int| 0 <= i < ps.len() implies client_carries_contact(#[trigger] v@[i], ps[i]) by {
        lemma_contact_of_proto_carries(ps[i]);
    }
    v
}


/// What the service sends of an Exact contact, the client reads back: the
/// same fields, the account as `account_id`, and the mobile number, or the
/// business mobile number where there is no other.
pub proof fn lemma_client_reads_service_contact(c: ExactContact)
    ensures
        contact_of_proto(proto_of_contact(c)) == (Contact {
            id: c.id,
            account_id: c.account,
            full_name: c.full_name,
            email: c.email,
            phone: c.phone,
            last_name: c.last_name,
            first_name: c.first_name,
            mobile: match c.mobile {
                Some(m) => Some(m),
                None => c.business_mobile,
            },
        }),
{
}

} // verus!
