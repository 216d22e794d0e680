//! The wire model that the web service answers with and the client library
//! reads: protobuf messages, held as plain values.

use vstd::prelude::*;

verus! {

/// The postal address of an account.
#[derive(Debug, Clone, PartialEq)]
pub struct Address {
    pub line1: String,
    pub state: String,
    pub country_code: String,
    pub country_name: String,
    pub city: String,
    pub postcode: String,
}

/// An account on the wire. `status` holds the number of an
/// [`AccountStatus`].
#[derive(Debug, Clone, PartialEq)]
pub struct Account {
    pub id: String,
    pub name: String,
    pub address: Option<Address>,
    pub code: Option<String>,
    pub phone: Option<String>,
    pub website: Option<String>,
    pub email: Option<String>,
    pub vat_number: Option<String>,
    pub kvk: Option<String>,
    pub status: Option<i32>,
    pub is_supplier: bool,
}

/// The relation of an account to the organisation.
#[derive(Debug, Clone, Copy, PartialEq, Eq)]
pub enum AccountStatus {
    /// No relation (the wire name of this variant is `None`).
    NoStatus,
    Customer,
    Prospect,
    Suspect,
}

/// The number that stands for a status on the wire.
pub open spec fn status_number(s: AccountStatus) -> i32 {
    match s {
        AccountStatus::NoStatus => 0,
        AccountStatus::Customer => 1,
        AccountStatus::Prospect => 2,
        AccountStatus::Suspect => 3,
    }
}

/// The status that a number stands for, if any.
pub open spec fn status_of_number(v: i32) -> Option<AccountStatus> {
    if v == 0 {
        Some(AccountStatus::NoStatus)
    } else if v == 1 {
        Some(AccountStatus::Customer)
    } else if v == 2 {
        Some(AccountStatus::Prospect)
    } else if v == 3 {
        Some(AccountStatus::Suspect)
    } else {
        None
    }
}

impl AccountStatus {
    /// The number that stands for this status on the wire.
    pub fn as_i32(&self) -> (v: i32)
        ensures
            v == status_number(*self),
            *self == AccountStatus::NoStatus ==> v == 0,
            *self == AccountStatus::Customer ==> v == 1,
            *self == AccountStatus::Prospect ==> v == 2,
            *self == AccountStatus::Suspect ==> v == 3,
    {
        match self {
            AccountStatus::NoStatus => 0,
            AccountStatus::Customer => 1,
            AccountStatus::Prospect => 2,
            AccountStatus::Suspect => 3,
        }
    }

    /// The status that `v` stands for; `None` for a number that stands for
    /// no status.
    pub fn from_i32(v: i32) -> (s: Option<AccountStatus>)
        ensures
            s == status_of_number(v),
            v == 0 ==> s == Some(AccountStatus::NoStatus),
            v == 1 ==> s == Some(AccountStatus::Customer),
            v == 2 ==> s == Some(AccountStatus::Prospect),
            v == 3 ==> s == Some(AccountStatus::Suspect),
            (v < 0 || v > 3) ==> s is None,
    {
        if v == 0 {
            Some(AccountStatus::NoStatus)
        } else if v == 1 {
            Some(AccountStatus::Customer)
        } else if v == 2 {
            Some(AccountStatus::Prospect)
        } else if v == 3 {
            Some(AccountStatus::Suspect)
        } else {
            None
        }
    }
}

/// Reading back the number of a status gives that status, and a number that
/// is read as a status is that status's number.
pub proof fn lemma_status_number_round_trip(s: AccountStatus, v: i32)
    ensures
        status_of_number(status_number(s)) == Some(s),
        status_of_number(v) matches Some(t) ==> status_number(t) == v,
{
}

/// A contact on the wire.
#[derive(Debug, Clone, PartialEq)]
pub struct Contact {
    pub id: String,
    pub account: String,
    pub email: Option<String>,
    pub full_name: Option<String>,
    pub phone: Option<String>,
    pub first_name: Option<String>,
    pub last_name: Option<String>,
    pub mobile: Option<String>,
}

/// The answer to an account list.
#[derive(Debug, Clone, PartialEq)]
pub struct ListAccountResponse {
    pub size: i64,
    pub accounts: Vec<Account>,
}

/// The answer to a contact list.
#[derive(Debug, Clone, PartialEq)]
pub struct ListContactResponse {
    pub size: i64,
    pub contacts: Vec<Contact>,
}

} // verus!
