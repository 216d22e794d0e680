//! Conversion of Exact records into the wire model.

use vstd::prelude::*;
use crate::proto;
use crate::proto::{status_number, AccountStatus};
use crate::requests::accounts::Account;
use crate::requests::contact::Contact;

verus! {

/// The status that an Exact status code stands for: `C` a customer, `P` a
/// prospect, `S` a suspect, any other code (`A` among them) no status.
pub open spec fn status_for_code(code: Seq<char>) -> AccountStatus {
    if code == "C"@ {
        AccountStatus::Customer
    } else if code == "P"@ {
        AccountStatus::Prospect
    } else if code == "S"@ {
        AccountStatus::Suspect
    } else {
        AccountStatus::NoStatus
    }
}

/// The address of an account: present when all six of its parts are.
pub open spec fn address_of(a: Account) -> Option<proto::Address> {
    if a.address is Some && a.state is Some && a.country is Some && a.country_name is Some
        && a.city is Some && a.postcode is Some {
        Some(
            proto::Address {
                line1: a.address->0,
                state: a.state->0,
                country_code: a.country->0,
                country_name: a.country_name->0,
                city: a.city->0,
                postcode: a.postcode->0,
            },
        )
    } else {
        None
    }
}

/// The wire form of an Exact account.
pub open spec fn proto_of_account(a: Account) -> proto::Account {
    proto::Account {
        id: a.id,
        name: a.name,
        address: address_of(a),
        code: a.code,
        phone: a.phone,
        website: a.website,
        email: a.email,
        vat_number: a.vat_number,
        kvk: a.chamber_of_commerce,
        status: match a.status {
            Some(c) => Some(status_number(status_for_code(c@))),
            None => None,
        },
        is_supplier: a.is_supplier,
    }
}

/// Whether the wire account `p` describes the Exact account `a`: the same
/// id, name, code, phone, website, e-mail address, VAT number and supplier
/// flag; the chamber of commerce number as `kvk`; the status number 1 for
/// code `C`, 2 for `P`, 3 for `S` and 0 for any other code, none without a
/// code; and the address made of the first address line, state, country
/// (as country code), country name, city and postcode when all six are
/// known, else none.
pub open spec fn proto_carries_account(p: proto::Account, a: Account) -> bool {
    &&& p.id == a.id
    &&& p.name == a.name
    &&& p.code == a.code
    &&& p.phone == a.phone
    &&& p.website == a.website
    &&& p.email == a.email
    &&& p.vat_number == a.vat_number
    &&& p.kvk == a.chamber_of_commerce
    &&& p.is_supplier == a.is_supplier
    &&& (a.status is None ==> p.status is None)
    &&& (a.status matches Some(c) ==> p.status == Some(
        if c@ == seq!['C'] {
            1i32
        } else if c@ == seq!['P'] {
            2i32
        } else if c@ == seq!['S'] {
            3i32
        } else {
            0i32
        },
    ))
    &&& (a.address is Some && a.state is Some && a.country is Some && a.country_name is Some
        && a.city is Some && a.postcode is Some) ==> p.address == Some(
        proto::Address {
            line1: a.address->0,
            state: a.state->0,
            country_code: a.country->0,
            country_name: a.country_name->0,
            city: a.city->0,
            postcode: a.postcode->0,
        },
    )
    &&& !(a.address is Some && a.state is Some && a.country is Some && a.country_name is Some
        && a.city is Some && a.postcode is Some) ==> p.address is None
}

/// The wire form of an Exact account describes that account, field by field.
pub proof fn lemma_proto_of_account_carries(a: Account)
    ensures
        proto_carries_account(proto_of_account(a), a),
{
    reveal_strlit("C");
    reveal_strlit("P");
    reveal_strlit("S");
    if a.status matches Some(c) {
        assert(("C"@ == seq!['C']));
        assert(("P"@ == seq!['P']));
        assert(("S"@ == seq!['S']));
    }
}

/// Whether the wire contact `p` describes the Exact contact `c`: the same id,
/// account, e-mail address, full name, phone, first and last name, and the
/// mobile number, or the business mobile number where there is no other.
pub open spec fn proto_carries_contact(p: proto::Contact, c: Contact) -> bool {
    &&& p.id == c.id
    &&& p.account == c.account
    &&& p.email == c.email
    &&& p.full_name == c.full_name
    &&& p.phone == c.phone
    &&& p.first_name == c.first_name
    &&& p.last_name == c.last_name
    &&& (c.mobile is Some ==> p.mobile == c.mobile)
    &&& (c.mobile is None ==> p.mobile == c.business_mobile)
}

/// The wire form of an Exact contact describes that contact, field by field.
pub proof fn lemma_proto_of_contact_carries(c: Contact)
    ensures
        proto_carries_contact(proto_of_contact(c), c),
{
}

/// The status that an Exact status code stands for.
pub fn status_from_code(code: &String) -> (s: AccountStatus)
    ensures
        s == status_for_code(code@),
        code@ == seq!['C'] ==> s == AccountStatus::Customer,
        code@ == seq!['P'] ==> s == AccountStatus::Prospect,
        code@ == seq!['S'] ==> s == AccountStatus::Suspect,
        (code@ != seq!['C'] && code@ != seq!['P'] && code@ != seq!['S']) ==> s
            == AccountStatus::NoStatus,
{
    proof {
        reveal_strlit("C");
        reveal_strlit("P");
        reveal_strlit("S");
        assert("C"@ =~= seq!['C']);
        assert("P"@ =~= seq!['P']);
        assert("S"@ =~= seq!['S']);
        assert(seq!['P'] != seq!['C']) by {
            assert(seq!['P'][0] != seq!['C'][0]);
        }
        assert(seq!['S'] != seq!['C']) by {
            assert(seq!['S'][0] != seq!['C'][0]);
        }
        assert(seq!['S'] != seq!['P']) by {
            assert(seq!['S'][0] != seq!['P'][0]);
        }
    }
    if code.eq(&String::from_str("C")) {
        AccountStatus::Customer
    } else if code.eq(&String::from_str("P")) {
        AccountStatus::Prospect
    } else if code.eq(&String::from_str("S")) {
        AccountStatus::Suspect
    } else {
        AccountStatus::NoStatus
    }
}

/// The wire form of an Exact account: the same fields, the chamber of
/// commerce number as `kvk`, an address only when all its parts are known,
/// and the status code as the number of its status.
pub fn account_to_proto(account: Account) -> (p: proto::Account)
    ensures
        p == proto_of_account(account),
        proto_carries_account(p, account),
{
    proof {
        lemma_proto_of_account_carries(account);
    }
    let ghost a = account;
    let Account {
        id,
        name,
        address,
        chamber_of_commerce,
        city,
        code,
        country,
        country_name,
        email,
        phone,
        postcode,
        state,
        status,
        vat_number,
        website,
        is_supplier,
    } = account;
    let address = match (address, state, country, country_name, city, postcode) {
        (Some(line1), Some(state), Some(country_code), Some(country_name), Some(city), Some(postcode)) => {
            Some(proto::Address { line1, state, country_code, country_name, city, postcode })
        },
        _ => None,
    };
    let status = match status {
        Some(c) => Some(status_from_code(&c).as_i32()),
        None => None,
    };
    proto::Account {
        id,
        name,
        address,
        code,
        phone,
        website,
        email,
        vat_number,
        kvk: chamber_of_commerce,
        status,
        is_supplier,
    }
}

/// The wire form of an Exact contact.
pub open spec fn proto_of_contact(c: Contact) -> proto::Contact {
    proto::Contact {
        id: c.id,
        account: c.account,
        email: c.email,
        full_name: c.full_name,
        phone: c.phone,
        first_name: c.first_name,
        last_name: c.last_name,
        mobile: if c.mobile is Some {
            c.mobile
        } else {
            c.business_mobile
        },
    }
}

/// The wire form of an Exact contact: the same fields, and the mobile number,
/// or the business mobile number where there is no other.
pub fn contact_to_proto(contact: Contact) -> (p: proto::Contact)
    ensures
        p == proto_of_contact(contact),
        proto_carries_contact(p, contact),
{
    let mobile = match contact.mobile {
        Some(m) => Some(m),
        None => contact.business_mobile,
    };
    proto::Contact {
        id: contact.id,
        account: contact.account,
        email: contact.email,
        full_name: contact.full_name,
        phone: contact.phone,
        first_name: contact.first_name,
        last_name: contact.last_name,
        mobile,
    }
}


/// The wire form of each Exact account, in order.
pub fn accounts_to_proto(accounts: Vec<Account>) -> (v: Vec<proto::Account>)
    ensures
        v@ == accounts@.map_values(|a: Account| proto_of_account(a)),
        v@.len() == accounts@.len(),
        forall|i: int| 0 <= i < accounts@.len() ==> proto_carries_account(#[trigger] v@[i], accounts@[i]),
{
    let ghost xs = accounts@;
    let mut v: Vec<proto::Account> = Vec::new();
    for a in it: accounts
        invariant
            it.seq() == xs,
            v@ == xs.take(it.index() as int).map_values(|a: Account| proto_of_account(a)),
    {
        let ghost k = it.index();
        v.push(account_to_proto(a));
        assert(xs.take(k + 1) =~= xs.take(k as int).push(xs[k as int]));
        assert(v@ =~= xs.take(k + 1).map_values(|a: Account| proto_of_account(a)));
    }
    assert(xs.take(xs.len() as int) =~= xs);
    assert forall|i: int| 0 <= i < xs.len() implies proto_carries_account(#[trigger] v@[i], xs[i]) by {
        lemma_proto_of_account_carries(xs[i]);
    }
    v
}

/// The wire form of each Exact contact, in order.
pub fn contacts_to_proto(contacts: Vec<Contact>) -> (v: Vec<proto::Contact>)
    ensures
        v@ == contacts@.map_values(|c: Contact| proto_of_contact(c)),
        v@.len() == contacts@.len(),
        forall|i: int| 0 <= i < contacts@.len() ==> proto_carries_contact(#[trigger] v@[i], contacts@[i]),
{
    let ghost xs = contacts@;
    let mut v: Vec<proto::Contact> = Vec::new();
    for c in it: contacts
        invariant
            it.seq() == xs,
            v@ == xs.take(it.index() as int).map_values(|c: Contact| proto_of_contact(c)),
    {
        let ghost k = it.index();
        v.push(contact_to_proto(c));
        assert(xs.take(k + 1) =~= xs.take(k as int).push(xs[k as int]));
        assert(v@ =~= xs.take(k + 1).map_values(|c: Contact| proto_of_contact(c)));
    }
    assert(xs.take(xs.len() as int) =~= xs);
    v
}

} // verus!
