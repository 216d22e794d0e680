use exactapi::proto;
use exactapi::requests::accounts::Account;
use exactapi::requests::contact::{Contact, ContactFilterOptions};
use exactapi::requests::error::ExactError;
use exactapi::requests::filter::{FilterExpr, FilterOp, FilterValue};
use exactapi::requests::accounts::AccountFilterOptions;
use exactapi::server::conversion::{account_to_proto, accounts_to_proto, contact_to_proto, contacts_to_proto, status_from_code};
use exactapi::server::error::{
    AuthClientError, AuthClientErrorKind, AuthRejection, ErrorResponse, ExactAuthError, WebError,
};
use exactapi::server::routes::v1::account::list::{account_filter, cache_lookup, CacheLookup, Query as AccountQuery};
use exactapi::server::routes::v1::account::list::list_response as account_list_response;
use exactapi::server::routes::v1::contact::list::{contact_filter, list_response as contact_list_response, Query as ContactQuery};
use exactapi::server::routes::v1::set_filter;

fn exact_account(status: Option<&str>, full_address: bool) -> Account {
    let s = |v: &str| Some(v.to_string());
    Account {
        id: "guid-1".to_string(),
        name: "Acme".to_string(),
        address: s("Main 1"),
        chamber_of_commerce: s("87654321"),
        city: s("Delft"),
        code: s("100"),
        country: s("NL"),
        country_name: s("Netherlands"),
        email: s("info@acme.nl"),
        phone: s("0151234567"),
        postcode: if full_address { s("2611AA") } else { None },
        state: s("ZH"),
        status: status.map(|v| v.to_string()),
        vat_number: s("NL001"),
        website: s("acme.nl"),
        is_supplier: true,
    }
}

fn exact_contact(mobile: Option<&str>, business: Option<&str>) -> Contact {
    Contact {
        id: "c1".to_string(),
        account: "a1".to_string(),
        email: Some("p@acme.nl".to_string()),
        full_name: Some("Piet Jansen".to_string()),
        phone: None,
        first_name: Some("Piet".to_string()),
        last_name: Some("Jansen".to_string()),
        mobile: mobile.map(|v| v.to_string()),
        business_mobile: business.map(|v| v.to_string()),
    }
}

#[test]
fn status_codes_map_to_statuses() {
    assert_eq!(status_from_code(&"C".to_string()), proto::AccountStatus::Customer);
    assert_eq!(status_from_code(&"P".to_string()), proto::AccountStatus::Prospect);
    assert_eq!(status_from_code(&"S".to_string()), proto::AccountStatus::Suspect);
    assert_eq!(status_from_code(&"A".to_string()), proto::AccountStatus::NoStatus);
    assert_eq!(status_from_code(&"".to_string()), proto::AccountStatus::NoStatus);
    assert_eq!(status_from_code(&"CC".to_string()), proto::AccountStatus::NoStatus);
}

#[test]
fn account_to_proto_with_full_address() {
    let p = account_to_proto(exact_account(Some("C"), true));
    assert_eq!(p.id, "guid-1");
    assert_eq!(p.name, "Acme");
    assert_eq!(p.kvk.as_deref(), Some("87654321"));
    assert_eq!(p.status, Some(proto::AccountStatus::Customer.as_i32()));
    assert!(p.is_supplier);
    assert_eq!(
        p.address,
        Some(proto::Address {
            line1: "Main 1".to_string(),
            state: "ZH".to_string(),
            country_code: "NL".to_string(),
            country_name: "Netherlands".to_string(),
            city: "Delft".to_string(),
            postcode: "2611AA".to_string(),
        })
    );
}

#[test]
fn account_to_proto_with_partial_address_and_no_status() {
    let p = account_to_proto(exact_account(None, false));
    assert_eq!(p.address, None);
    assert_eq!(p.status, None);
    let p = account_to_proto(exact_account(Some("A"), false));
    assert_eq!(p.status, Some(proto::AccountStatus::NoStatus.as_i32()));
}

#[test]
fn contact_mobile_falls_back_to_business_mobile() {
    assert_eq!(contact_to_proto(exact_contact(Some("06-1"), Some("06-2"))).mobile.as_deref(), Some("06-1"));
    assert_eq!(contact_to_proto(exact_contact(None, Some("06-2"))).mobile.as_deref(), Some("06-2"));
    assert_eq!(contact_to_proto(exact_contact(None, None)).mobile, None);
    let p = contact_to_proto(exact_contact(None, None));
    assert_eq!(p.account, "a1");
    assert_eq!(p.first_name.as_deref(), Some("Piet"));
}

#[test]
fn web_error_statuses() {
    assert_eq!(WebError::NotFound.status_code(), 404);
    assert_eq!(WebError::BadRequest.status_code(), 400);
    assert_eq!(WebError::BadRequestMsg("x".to_string()).status_code(), 400);
    assert_eq!(WebError::ExactAuthClient(ExactAuthError { message: "x".to_string() }).status_code(), 502);
    assert_eq!(WebError::AuthError(AuthRejection { status: 401 }).status_code(), 401);
    let auth = |kind| WebError::AuthClient(AuthClientError { kind, message: "m".to_string() });
    assert_eq!(auth(AuthClientErrorKind::Reqwest).status_code(), 502);
    assert_eq!(auth(AuthClientErrorKind::UnknownToken).status_code(), 403);
    assert_eq!(auth(AuthClientErrorKind::MissingScopes).status_code(), 403);
    assert_eq!(auth(AuthClientErrorKind::ProtocolError).status_code(), 500);
    assert_eq!(auth(AuthClientErrorKind::EncodeDecodeError).status_code(), 500);
    assert_eq!(WebError::ExactApi(ExactError::NotFound).status_code(), 404);
    assert_eq!(WebError::ExactApi(ExactError::Forbidden).status_code(), 403);
    assert_eq!(WebError::ExactApi(ExactError::Ratelimit).status_code(), 429);
    assert_eq!(WebError::ExactApi(ExactError::Timeout).status_code(), 502);
    assert_eq!(WebError::ExactApi(ExactError::ServiceUnavailable).status_code(), 502);
    assert_eq!(WebError::ExactApi(ExactError::BadRequest).status_code(), 500);
    assert_eq!(WebError::ExactApi(ExactError::Other(418)).status_code(), 502);
}

#[test]
fn web_error_messages() {
    assert_eq!(WebError::NotFound.message(), "Not found");
    assert_eq!(WebError::BadRequest.message(), "Bad request");
    assert_eq!(WebError::BadRequestMsg("no id".to_string()).message(), "Bad request: no id");
    assert_eq!(WebError::AuthError(AuthRejection { status: 401 }).message(), "Authorization failed");
    assert_eq!(
        WebError::AuthClient(AuthClientError { kind: AuthClientErrorKind::UnknownToken, message: "unknown token".to_string() }).message(),
        "Authorization error: unknown token"
    );
    assert_eq!(
        WebError::ExactAuthClient(ExactAuthError { message: "down".to_string() }).message(),
        "Exact authorization client error: down"
    );
    assert_eq!(WebError::ExactApi(ExactError::Ratelimit).message(), "Exact API error: Rate limit");
}

#[test]
fn error_responses() {
    assert!(matches!(WebError::AuthError(AuthRejection { status: 401 }).error_response(), ErrorResponse::Delegated));
    match WebError::ExactApi(ExactError::NotFound).error_response() {
        ErrorResponse::Plain { status, body } => {
            assert_eq!(status, 404);
            assert_eq!(body, "Exact API error: Not found");
        }
        ErrorResponse::Delegated => panic!("expected a plain answer"),
    }
}

#[test]
fn cache_lookup_decisions() {
    let q = |id: Option<&str>, bypass: Option<bool>| AccountQuery { bypass_cache: bypass, ..account_query(id) };
    assert!(matches!(cache_lookup(&q(Some("a"), None), 3), CacheLookup::One(ref i) if i == "a"));
    assert!(matches!(cache_lookup(&q(None, Some(false)), 3), CacheLookup::All));
    assert!(matches!(cache_lookup(&q(None, Some(true)), 3), CacheLookup::Skip));
    assert!(matches!(cache_lookup(&q(Some("a"), None), 0), CacheLookup::Skip));
}

fn account_query(id: Option<&str>) -> AccountQuery {
    AccountQuery {
        id: id.map(|v| v.to_string()),
        address_line_1: None,
        city: None,
        name: None,
        kvk: None,
        and_mode: None,
        bypass_cache: None,
    }
}

#[test]
fn account_filter_on_id() {
    let f = account_filter(&account_query(Some("g")));
    assert!(matches!(f, Some(FilterExpr::Condition { value: FilterValue::Guid(ref g), op: FilterOp::Equals, .. }) if g == "g"));
    assert!(account_filter(&AccountQuery { bypass_cache: Some(true), ..account_query(None) }).is_none());
}

#[test]
fn account_filter_on_fields_in_and_mode() {
    let q = AccountQuery { name: Some("Acme".to_string()), city: Some("Delft".to_string()), ..account_query(None) };
    match account_filter(&q) {
        Some(FilterExpr::And(l, r)) => {
            assert!(matches!(*l, FilterExpr::Condition { field: AccountFilterOptions::City, value: FilterValue::Text(ref c), .. } if c == "Delft"));
            assert!(matches!(*r, FilterExpr::Condition { field: AccountFilterOptions::Name, value: FilterValue::Text(ref n), .. } if n == "Acme"));
        }
        _ => panic!("expected an AND of city and name"),
    }
}

#[test]
fn account_filter_on_fields_in_or_mode() {
    let q = AccountQuery {
        id: Some("g".to_string()),
        address_line_1: Some("Main 1".to_string()),
        kvk: Some("123".to_string()),
        and_mode: Some(false),
        ..account_query(None)
    };
    match account_filter(&q) {
        Some(FilterExpr::Or(l, r)) => {
            assert!(matches!(*r, FilterExpr::Condition { field: AccountFilterOptions::ChamberOfCommerce, .. }));
            match *l {
                FilterExpr::Or(a, b) => {
                    assert!(matches!(*a, FilterExpr::Condition { field: AccountFilterOptions::Id, value: FilterValue::Guid(_), .. }));
                    assert!(matches!(*b, FilterExpr::Condition { field: AccountFilterOptions::AddressLine1, .. }));
                }
                _ => panic!("expected an OR of id and address"),
            }
        }
        _ => panic!("expected an OR"),
    }
}

#[test]
fn field_filter_skips_the_cache() {
    let q = AccountQuery { name: Some("Acme".to_string()), ..account_query(None) };
    assert!(matches!(cache_lookup(&q, 3), CacheLookup::Skip));
    let q = AccountQuery { kvk: Some("1".to_string()), ..account_query(Some("a")) };
    assert!(matches!(cache_lookup(&q, 3), CacheLookup::Skip));
}

#[test]
fn contact_filter_modes() {
    let q = |id: Option<&str>, account: Option<&str>, and_mode: Option<bool>| ContactQuery {
        id: id.map(|v| v.to_string()),
        account: account.map(|v| v.to_string()),
        and_mode,
    };
    assert!(contact_filter(&q(None, None, None)).is_none());
    assert!(matches!(contact_filter(&q(Some("i"), None, None)), Some(FilterExpr::Condition { field: ContactFilterOptions::Id, .. })));
    assert!(matches!(contact_filter(&q(None, Some("a"), Some(false))), Some(FilterExpr::Condition { field: ContactFilterOptions::Account, .. })));
    assert!(matches!(contact_filter(&q(Some("i"), Some("a"), None)), Some(FilterExpr::And(_, _))));
    assert!(matches!(contact_filter(&q(Some("i"), Some("a"), Some(true))), Some(FilterExpr::And(_, _))));
    assert!(matches!(contact_filter(&q(Some("i"), Some("a"), Some(false))), Some(FilterExpr::Or(_, _))));
}

#[test]
fn set_filter_joins() {
    let c = |g: &str| FilterExpr::new(ContactFilterOptions::Id, FilterValue::Guid(g.to_string()), FilterOp::Equals);
    assert!(matches!(set_filter(None, c("a"), true), FilterExpr::Condition { .. }));
    assert!(matches!(set_filter(Some(c("a")), c("b"), true), FilterExpr::And(_, _)));
    assert!(matches!(set_filter(Some(c("a")), c("b"), false), FilterExpr::Or(_, _)));
}

#[test]
fn list_responses_count_their_items() {
    let a = account_to_proto(exact_account(Some("C"), true));
    let r = account_list_response(vec![a.clone(), a]);
    assert_eq!(r.size, 2);
    assert_eq!(r.accounts.len(), 2);
    let r = contact_list_response(vec![]);
    assert_eq!(r.size, 0);
}

#[test]
fn status_numbers_round_trip() {
    for s in [proto::AccountStatus::NoStatus, proto::AccountStatus::Customer, proto::AccountStatus::Prospect, proto::AccountStatus::Suspect] {
        assert_eq!(proto::AccountStatus::from_i32(s.as_i32()), Some(s));
    }
    assert_eq!(proto::AccountStatus::from_i32(4), None);
    assert_eq!(proto::AccountStatus::from_i32(-1), None);
}

#[test]
fn lists_convert_in_order() {
    let v = accounts_to_proto(vec![exact_account(Some("C"), true), exact_account(None, false)]);
    assert_eq!(v.len(), 2);
    assert_eq!(v[0].status, Some(proto::AccountStatus::Customer.as_i32()));
    assert_eq!(v[1].status, None);
    assert_eq!(v[1].address, None);
    let c = contacts_to_proto(vec![exact_contact(None, Some("06-2"))]);
    assert_eq!(c[0].mobile.as_deref(), Some("06-2"));
}

#[test]
fn transport_error_response_body_starts_with_its_kind() {
    let e = reqwest::Client::new().get("not a url").build().unwrap_err();
    match WebError::ExactApi(ExactError::Reqwest(e)).error_response() {
        ErrorResponse::Plain { status, body } => {
            assert_eq!(status, 502);
            assert!(body.starts_with("Exact API error: Request error: "));
        }
        ErrorResponse::Delegated => panic!("expected a plain answer"),
    }
}
