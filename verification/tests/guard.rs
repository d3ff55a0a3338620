use space_booking::employee::{Employee, Role};
use space_booking::error::ErrorKind;
use space_booking::guard::{require_role, scope_to_company};
use space_booking::jwt::{AccessRole, Claims};

fn claims(id: u128, role: AccessRole) -> Claims {
    Claims { id, sub: String::from("someone@example.com"), role, exp: 4_000_000_000 }
}

fn staff() -> Vec<Employee> {
    vec![
        Employee {
            emp_id: 10,
            name: String::from("Mona"),
            position: String::from("lead"),
            comp_id: 1,
            email: String::from("mona@example.com"),
            password_hash: None,
            role: Role::MNG,
            created_at: 0,
        },
        Employee {
            emp_id: 11,
            name: String::from("Eli"),
            position: String::from("engineer"),
            comp_id: 2,
            email: String::from("eli@example.com"),
            password_hash: None,
            role: Role::EMP,
            created_at: 0,
        },
    ]
}

#[test]
fn require_role_admits_the_exact_role_only() {
    let roles = [AccessRole::Admin, AccessRole::Manager, AccessRole::Employee];
    for held in roles {
        for expected in roles {
            let r = require_role(&claims(42, held), expected);
            if held == expected {
                assert_eq!(r.unwrap(), 42);
            } else {
                let e = r.unwrap_err();
                assert_eq!(e.kind(), ErrorKind::Forbidden);
                assert_eq!(e.status_code(), 403);
            }
        }
    }
}

#[test]
fn require_role_names_the_role_that_was_needed() {
    let e = require_role(&claims(1, AccessRole::Employee), AccessRole::Admin).unwrap_err();
    assert_eq!(e.message(), "only administrators have access");
    let e = require_role(&claims(1, AccessRole::Employee), AccessRole::Manager).unwrap_err();
    assert_eq!(e.message(), "only managers have access");
    let e = require_role(&claims(1, AccessRole::Admin), AccessRole::Employee).unwrap_err();
    assert_eq!(e.message(), "only employees have access");
}

#[test]
fn an_administrator_is_not_an_employee_or_a_manager() {
    assert!(require_role(&claims(1, AccessRole::Admin), AccessRole::Employee).is_err());
    assert!(require_role(&claims(1, AccessRole::Admin), AccessRole::Manager).is_err());
    assert!(require_role(&claims(1, AccessRole::Manager), AccessRole::Employee).is_err());
}

#[test]
fn scope_resolves_the_company_of_a_manager_or_employee() {
    assert_eq!(scope_to_company(&staff(), &claims(10, AccessRole::Manager)).unwrap(), 1);
    assert_eq!(scope_to_company(&staff(), &claims(11, AccessRole::Employee)).unwrap(), 2);
}

#[test]
fn scope_turns_an_administrator_away() {
    let e = scope_to_company(&staff(), &claims(10, AccessRole::Admin)).unwrap_err();
    assert_eq!(e.kind(), ErrorKind::Forbidden);
    assert_eq!(e.message(), "only employees and managers have access");
}

#[test]
fn scope_of_someone_no_longer_in_the_directory_is_not_found() {
    let e = scope_to_company(&staff(), &claims(99, AccessRole::Employee)).unwrap_err();
    assert_eq!(e.kind(), ErrorKind::NotFound);
    assert_eq!(e.message(), "employee not found");
    assert_eq!(e.status_code(), 404);
    let e = scope_to_company(&Vec::new(), &claims(10, AccessRole::Manager)).unwrap_err();
    assert_eq!(e.kind(), ErrorKind::NotFound);
}
