//! The authorization guard: which role may do what.

use vstd::prelude::*;

use crate::employee::{company_of, find_employee, found, Employee, Quest, Wanted};
use crate::error::{failure, AppError, ErrorKind, ErrorView};
use crate::jwt::{AccessRole, Claims};

verus! {

/// The words that turn away a caller who lacks the role `expected`.
pub open spec fn denial_text(expected: AccessRole) -> Seq<char> {
    match expected {
        AccessRole::Admin => "only administrators have access"@,
        AccessRole::Manager => "only managers have access"@,
        AccessRole::Employee => "only employees have access"@,
    }
}

/// The error that turns away a caller who lacks the role `expected`.
pub open spec fn access_denied(expected: AccessRole) -> ErrorView {
    failure(ErrorKind::Forbidden, denial_text(expected))
}

/// Admits the caller only in exactly the role `expected`, and hands back the
/// acting identity.
pub fn require_role(claims: &Claims, expected: AccessRole) -> (r: Result<u128, AppError>)
    ensures
        match r {
            Ok(id) => claims.role == expected && id == claims.id,
            Err(e) => claims.role != expected && e@ == access_denied(expected),
        },
{
    if claims.role == expected {
        Ok(claims.id)
    } else {
        let words: &str = match expected {
            AccessRole::Admin => "only administrators have access",
            AccessRole::Manager => "only managers have access",
            AccessRole::Employee => "only employees have access",
        };
        Err(AppError::forbidden(words))
    }
}

/// Why the caller's company is not resolved, or `None` where it is.
pub open spec fn scope_refusal(staff: Seq<Employee>, role: AccessRole, id: u128) -> Option<
    ErrorView,
> {
    if role == AccessRole::Admin {
        Some(failure(ErrorKind::Forbidden, "only employees and managers have access"@))
    } else if found(staff, Quest::Id(id)) is None {
        Some(failure(ErrorKind::NotFound, "employee not found"@))
    } else {
        None
    }
}

/// Resolves the company that the caller belongs to.
///
/// An administrator belongs to none and is turned away. A manager or
/// employee who is no longer in the directory is reported as not found,
/// however valid their token.
pub fn scope_to_company(staff: &Vec<Employee>, claims: &Claims) -> (r: Result<u128, AppError>)
    ensures
        match r {
            Ok(company) => scope_refusal(staff@, claims.role, claims.id) is None && company
                == company_of(staff@, claims.id),
            Err(e) => scope_refusal(staff@, claims.role, claims.id) == Some(e@),
        },
{
    if claims.role == AccessRole::Admin {
        return Err(AppError::forbidden("only employees and managers have access"));
    }
    match find_employee(staff, &Wanted::Id(claims.id)) {
        Some(at) => Ok(staff[at].comp_id),
        None => Err(AppError::not_found("employee not found")),
    }
}

} // verus!
