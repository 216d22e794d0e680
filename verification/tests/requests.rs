use exactapi::requests::accounts::{
    account_from_row, accounts_path, next_page_path, AccountFilterOptions, AccountPages, AccountRow,
};
use exactapi::requests::contact::{contacts_path, ContactFilterOptions};
use exactapi::requests::error::ExactError;
use exactapi::requests::filter::{FilterExpr, FilterOp, FilterValue};
use exactapi::requests::me::{current_division, CurrentDivisionRow};
use exactapi::requests::{check_status, client, get_path, user_agent, Api, ExactResponse, ResponseData, BASE_URI};

fn row(id: &str, status: Option<&str>) -> AccountRow {
    AccountRow {
        id: id.to_string(),
        name: format!("Account {id}"),
        address_line_1: Some("Street 1".to_string()),
        chamber_of_commerce: Some("12345678".to_string()),
        city: Some("Utrecht".to_string()),
        code: None,
        country: Some("NL".to_string()),
        country_name: Some("Netherlands".to_string()),
        email: None,
        phone: None,
        postcode: Some("1234AB".to_string()),
        state: None,
        status: status.map(|s| s.to_string()),
        vat_number: None,
        website: None,
        is_supplier: false,
    }
}

#[test]
fn get_path_prefixes_the_host() {
    assert_eq!(get_path("/api/v1/current/Me"), "https://start.exactonline.nl/api/v1/current/Me");
    assert_eq!(get_path(""), BASE_URI);
}

#[test]
fn check_status_accepts_successes() {
    for s in [200u16, 201, 204, 299] {
        assert!(check_status(s).is_ok());
    }
}

#[test]
fn check_status_maps_each_error() {
    assert!(matches!(check_status(400), Err(ExactError::BadRequest)));
    assert!(matches!(check_status(403), Err(ExactError::Forbidden)));
    assert!(matches!(check_status(404), Err(ExactError::NotFound)));
    assert!(matches!(check_status(408), Err(ExactError::Timeout)));
    assert!(matches!(check_status(429), Err(ExactError::Ratelimit)));
    assert!(matches!(check_status(503), Err(ExactError::ServiceUnavailable)));
    assert!(matches!(check_status(500), Err(ExactError::Other(500))));
    assert!(matches!(check_status(302), Err(ExactError::Other(302))));
    assert!(matches!(check_status(199), Err(ExactError::Other(199))));
    assert!(matches!(check_status(300), Err(ExactError::Other(300))));
}

#[test]
fn exact_error_messages() {
    assert_eq!(ExactError::BadRequest.message(), "Bad Request");
    assert_eq!(ExactError::Forbidden.message(), "Forbidden");
    assert_eq!(ExactError::NotFound.message(), "Not found");
    assert_eq!(ExactError::Timeout.message(), "Timeout");
    assert_eq!(ExactError::Ratelimit.message(), "Rate limit");
    assert_eq!(ExactError::ServiceUnavailable.message(), "Service unavailable");
    assert_eq!(ExactError::Other(418).message(), "Other error with status: 418");
}

#[test]
fn user_agent_names_the_release() {
    assert_eq!(user_agent("0.1.0"), "MrFriendly ExactAPI v0.1.0");
}

#[test]
fn client_builds() {
    assert!(client("0.1.0").is_ok());
}

#[test]
fn api_keeps_its_token() {
    let api = Api::new("secret".to_string());
    assert_eq!(api.token(), "secret");
}

#[test]
fn accounts_path_without_and_with_filter() {
    assert_eq!(
        accounts_path(123, None),
        "/api/v1/123/crm/Accounts?$select=ID,AddressLine1,ChamberOfCommerce,City,Code,IsSupplier,Country,CountryName,Email,Name,Phone,Postcode,State,StateName,Status,VATNumber,Website"
    );
    assert_eq!(
        accounts_path(-7, Some("ID eq guid'abc'")),
        "/api/v1/-7/crm/Accounts?$select=ID,AddressLine1,ChamberOfCommerce,City,Code,IsSupplier,Country,CountryName,Email,Name,Phone,Postcode,State,StateName,Status,VATNumber,Website&$filter=ID eq guid'abc'"
    );
}

#[test]
fn contacts_path_without_and_with_filter() {
    assert_eq!(contacts_path(5, None), "/api/v1/5/crm/Contacts?$select=ID,Account,Email,FullName,Phone");
    assert_eq!(
        contacts_path(5, Some("Account eq guid'x'")),
        "/api/v1/5/crm/Contacts?$select=ID,Account,Email,FullName,Phone&$filter=Account eq guid'x'"
    );
}

#[test]
fn filter_field_names() {
    assert_eq!(AccountFilterOptions::Id.name(), "ID");
    assert_eq!(AccountFilterOptions::ChamberOfCommerce.name(), "ChamberOfCommerce");
    assert_eq!(AccountFilterOptions::Status.name(), "Status");
    assert_eq!(AccountFilterOptions::City.name(), "City");
    assert_eq!(AccountFilterOptions::AddressLine1.name(), "AddressLine1");
    assert_eq!(AccountFilterOptions::Postcode.name(), "Postcode");
    assert_eq!(AccountFilterOptions::Name.name(), "Name");
    assert_eq!(ContactFilterOptions::Id.name(), "ID");
    assert_eq!(ContactFilterOptions::Account.name(), "Account");
}

#[test]
fn current_division_of_first_row() {
    let rows = vec![CurrentDivisionRow { current_division: 42 }, CurrentDivisionRow { current_division: 7 }];
    assert_eq!(current_division(&rows).ok(), Some(42));
    assert!(matches!(current_division(&vec![]), Err(ExactError::NotFound)));
}

#[test]
fn account_from_row_carries_fields() {
    let a = account_from_row(row("1", Some("C")));
    assert_eq!(a.id, "1");
    assert_eq!(a.name, "Account 1");
    assert_eq!(a.address.as_deref(), Some("Street 1"));
    assert_eq!(a.chamber_of_commerce.as_deref(), Some("12345678"));
    assert_eq!(a.status.as_deref(), Some("C"));
    assert!(!a.is_supplier);
}

#[test]
fn next_page_path_strips_the_host() {
    assert_eq!(
        next_page_path("https://start.exactonline.nl/api/v1/1/crm/Accounts?$skiptoken=guid'a'"),
        "/api/v1/1/crm/Accounts?$skiptoken=guid'a'"
    );
    assert_eq!(next_page_path("/already/relative"), "/already/relative");
}

#[test]
fn next_page_path_undoes_get_path() {
    let p = "/api/v1/9/crm/Accounts?$skiptoken=guid'z'";
    assert_eq!(next_page_path(&get_path(p)), p);
}

#[test]
fn pages_accumulate_in_order() {
    let mut pages = AccountPages::new();
    let next = pages.receive(ResponseData {
        results: vec![row("1", None), row("2", Some("P"))],
        next: Some("https://start.exactonline.nl/api/v1/1/crm/Accounts?page=2".to_string()),
    });
    assert_eq!(next.as_deref(), Some("/api/v1/1/crm/Accounts?page=2"));
    let next = pages.receive(ResponseData { results: vec![row("3", Some("S"))], next: None });
    assert_eq!(next, None);
    let ids: Vec<String> = pages.into_accounts().into_iter().map(|a| a.id).collect();
    assert_eq!(ids, vec!["1", "2", "3"]);
}

#[test]
fn response_results() {
    let r = ExactResponse { d: ResponseData { results: vec![1, 2, 3], next: None } };
    assert_eq!(r.into_results(), vec![1, 2, 3]);
}

#[test]
fn filter_expr_builders() {
    let a = FilterExpr::new(ContactFilterOptions::Id, FilterValue::Guid("g1".to_string()), FilterOp::Equals);
    let b = FilterExpr::new(ContactFilterOptions::Account, FilterValue::Guid("g2".to_string()), FilterOp::Equals);
    match a.join_and(b) {
        FilterExpr::And(l, r) => {
            assert!(matches!(*l, FilterExpr::Condition { field: ContactFilterOptions::Id, .. }));
            assert!(matches!(*r, FilterExpr::Condition { field: ContactFilterOptions::Account, .. }));
        }
        _ => panic!("expected an AND"),
    }
}
