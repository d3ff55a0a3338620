use space_booking::company::{
    create_company, delete_company, find_company, get_companies, get_company_by_id,
    get_my_company, update_companies, Company, CompanyQueryParams, CreateCompanyReq,
    UpdateCompanyReq,
};
use space_booking::employee::{Employee, EmployeeInvite, Role};
use space_booking::error::{AppError, ErrorKind};
use space_booking::jwt::{verify_auth_token, AccessRole, Claims, TokenConfig};
use space_booking::query::Page;

const NOW: i64 = 1_709_294_400;

fn config() -> TokenConfig {
    TokenConfig::new(String::from("a secret of the process"), None)
}

fn claims(id: u128, role: AccessRole) -> Claims {
    Claims { id, sub: String::from("someone@example.com"), role, exp: 4_000_000_000 }
}

fn admin() -> Claims {
    claims(1, AccessRole::Admin)
}

fn companies() -> Vec<Company> {
    vec![
        Company {
            comp_id: 100,
            company_name: String::from("Acme"),
            about: Some(String::from("anvils")),
            created_at: 5,
        },
        Company { comp_id: 200, company_name: String::from("Globex"), about: None, created_at: 6 },
    ]
}

fn staff() -> Vec<Employee> {
    vec![
        Employee {
            emp_id: 10,
            name: String::from("Mona"),
            position: String::from("lead"),
            comp_id: 100,
            email: String::from("mona@example.com"),
            password_hash: None,
            role: Role::MNG,
            created_at: 0,
        },
        Employee {
            emp_id: 11,
            name: String::from("Lost"),
            position: String::from("x"),
            comp_id: 999,
            email: String::from("lost@example.com"),
            password_hash: None,
            role: Role::EMP,
            created_at: 0,
        },
    ]
}

fn refused(e: &AppError, kind: ErrorKind, message: &str) {
    assert_eq!(e.kind(), kind);
    assert_eq!(e.message(), message);
}

fn founding(email: &str) -> CreateCompanyReq {
    CreateCompanyReq {
        company_name: String::from("Initech"),
        about: String::from("reports"),
        manager: EmployeeInvite {
            name: String::from("Bill"),
            position: String::from("manager"),
            email: String::from(email),
        },
    }
}

#[test]
fn a_founding_enters_the_company_and_its_manager() {
    let (status, made) = create_company(&admin(), &founding("bill@example.com"), 300, 30, NOW, &config()).unwrap();
    assert_eq!(status, 201);
    assert_eq!(made.company.comp_id, 300);
    assert_eq!(made.company.company_name, "Initech");
    assert_eq!(made.company.about, Some(String::from("reports")));
    assert_eq!(made.company.created_at, NOW);
    assert_eq!(made.manager.emp_id, 30);
    assert_eq!(made.manager.name, "Bill");
    assert_eq!(made.manager.position, "manager");
    assert_eq!(made.manager.email, "bill@example.com");
    assert_eq!(made.manager.comp_id, 300);
    assert_eq!(made.manager.password_hash, None);
    assert_eq!(made.manager.role, Role::MNG);
    let claims = verify_auth_token(&made.token, &config(), NOW).unwrap();
    assert_eq!(claims.id, 30);
    assert_eq!(claims.sub, "bill@example.com");
    assert_eq!(claims.role, AccessRole::Manager);
}

#[test]
fn a_founding_needs_the_administrator_and_an_address() {
    let e = create_company(&claims(10, AccessRole::Manager), &founding("bill@example.com"), 300, 30, NOW, &config())
        .unwrap_err();
    refused(&e, ErrorKind::Forbidden, "only administrators have access");
    let e = create_company(&admin(), &founding("bill"), 300, 30, NOW, &config()).unwrap_err();
    refused(&e, ErrorKind::BadRequest, "invalid email format");
    let e = create_company(&admin(), &founding("bill@example.com"), 300, 30, -1, &config()).unwrap_err();
    refused(&e, ErrorKind::Unexpected, "Unexpected server error");
}

#[test]
fn the_administrator_is_shown_any_company() {
    assert_eq!(find_company(&companies(), 200), Some(1));
    assert_eq!(find_company(&companies(), 300), None);
    let shown = get_company_by_id(&companies(), &admin(), 100).unwrap();
    assert_eq!(shown.comp_id, 100);
    assert_eq!(shown.company_name, "Acme");
    assert_eq!(shown.about, Some(String::from("anvils")));
    assert_eq!(shown.created_at, 5);
    let e = get_company_by_id(&companies(), &admin(), 300).unwrap_err();
    refused(&e, ErrorKind::NotFound, "company not found");
    let e = get_company_by_id(&companies(), &claims(10, AccessRole::Manager), 100).unwrap_err();
    refused(&e, ErrorKind::Forbidden, "only administrators have access");
}

#[test]
fn a_listing_of_companies_names_the_page_and_the_pattern() {
    let params = CompanyQueryParams { page: Some(2), limit: None, company_name: Some(String::from("ac")) };
    let listing = get_companies(&admin(), &params).unwrap();
    assert_eq!(listing.page, Page { page: 2, limit: 10, offset: 10 });
    assert_eq!(listing.name_pattern, Some(String::from("%ac%")));
    let e = get_companies(&claims(11, AccessRole::Employee), &params).unwrap_err();
    refused(&e, ErrorKind::Forbidden, "only administrators have access");
    let huge = CompanyQueryParams { page: Some(i64::MIN), limit: Some(3), company_name: None };
    let e = get_companies(&admin(), &huge).unwrap_err();
    refused(&e, ErrorKind::BadRequest, "invalid page or limit");
}

#[test]
fn employees_are_shown_their_own_company() {
    let shown = get_my_company(&staff(), &companies(), &claims(10, AccessRole::Manager)).unwrap();
    assert_eq!(shown.comp_id, 100);
    assert_eq!(shown.company_name, "Acme");
    let e = get_my_company(&staff(), &companies(), &admin()).unwrap_err();
    refused(&e, ErrorKind::Forbidden, "only employees and managers have access");
    let e = get_my_company(&staff(), &companies(), &claims(99, AccessRole::Employee)).unwrap_err();
    refused(&e, ErrorKind::NotFound, "employee not found");
    let e = get_my_company(&staff(), &companies(), &claims(11, AccessRole::Employee)).unwrap_err();
    refused(&e, ErrorKind::NotFound, "company not found for this employee");
}

#[test]
fn a_company_update_changes_what_is_given() {
    let name = UpdateCompanyReq { company_name: Some(String::from("Acme Ltd")), about: None };
    let shown = update_companies(&companies(), &admin(), 100, &name).unwrap();
    assert_eq!(shown.comp_id, 100);
    assert_eq!(shown.company_name, "Acme Ltd");
    assert_eq!(shown.about, Some(String::from("anvils")));
    assert_eq!(shown.created_at, 5);
    let about = UpdateCompanyReq { company_name: None, about: Some(String::from("world domination")) };
    let shown = update_companies(&companies(), &admin(), 200, &about).unwrap();
    assert_eq!(shown.company_name, "Globex");
    assert_eq!(shown.about, Some(String::from("world domination")));
}

#[test]
fn a_company_update_needs_something_to_change() {
    let nothing = UpdateCompanyReq { company_name: None, about: None };
    let e = update_companies(&companies(), &admin(), 100, &nothing).unwrap_err();
    refused(&e, ErrorKind::BadRequest, "no parameters provided");
    let name = UpdateCompanyReq { company_name: Some(String::from("X")), about: None };
    let e = update_companies(&companies(), &admin(), 300, &name).unwrap_err();
    refused(&e, ErrorKind::NotFound, "company not found");
    let e = update_companies(&companies(), &claims(10, AccessRole::Manager), 100, &name).unwrap_err();
    refused(&e, ErrorKind::Forbidden, "only administrators have access");
}

#[test]
fn a_company_removal_is_the_administrators() {
    assert_eq!(delete_company(&companies(), &admin(), 200).unwrap(), 204);
    let e = delete_company(&companies(), &admin(), 300).unwrap_err();
    refused(&e, ErrorKind::NotFound, "company not found");
    let e = delete_company(&companies(), &claims(10, AccessRole::Manager), 200).unwrap_err();
    refused(&e, ErrorKind::Forbidden, "only administrators have access");
}
