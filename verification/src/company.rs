//! Companies: founded, listed, changed and removed by the administrator,
//! and shown to their own employees.

use vstd::prelude::*;

use crate::employee::{company_of, filter_pattern, pattern_of, Employee, EmployeeInvite, Role};
use crate::error::{failure, unexpected_message, AppError, ErrorKind, ErrorView};
use crate::guard::{access_denied, require_role, scope_refusal, scope_to_company};
use crate::jwt::{issue_token, token_for, AccessRole, Claims, TokenConfig};
use crate::query::{page_of, paginate, Page};
use crate::search::{first, lemma_first_found};
use crate::text::{copy_text, email_shaped, is_email_shaped};

verus! {

/// A company as the store holds it.
#[derive(Debug)]
pub struct Company {
    pub comp_id: u128,
    pub company_name: String,
    pub about: Option<String>,
    pub created_at: i64,
}

/// A request to found a company, with the invitation of its manager.
#[derive(Debug)]
pub struct CreateCompanyReq {
    pub company_name: String,
    pub about: String,
    pub manager: EmployeeInvite,
}

/// How the administrator asks for the list of companies.
#[derive(Debug)]
pub struct CompanyQueryParams {
    pub page: Option<i64>,
    pub limit: Option<i64>,
    pub company_name: Option<String>,
}

/// What the administrator asks to change of a company.
#[derive(Debug)]
pub struct UpdateCompanyReq {
    pub company_name: Option<String>,
    pub about: Option<String>,
}

/// A granted founding: the company and its manager to enter into the
/// store, and the token with which the manager sets their password.
#[derive(Debug)]
pub struct Founding {
    pub company: Company,
    pub manager: Employee,
    pub token: String,
}

/// The listing of companies that the store is asked for.
#[derive(Debug)]
pub struct CompanyListing {
    pub page: Page,
    pub name_pattern: Option<String>,
}

/// The companies with the id `id`.
pub open spec fn with_company_id(id: u128) -> spec_fn(Company) -> bool {
    |c: Company| c.comp_id == id
}

/// The position in `companies` of the first company with the id `id`.
pub open spec fn company_at(companies: Seq<Company>, id: u128) -> Option<int> {
    first(companies, with_company_id(id))
}

/// Looks in `companies` for the first company with the id `id`.
pub fn find_company(companies: &Vec<Company>, id: u128) -> (at: Option<usize>)
    ensures
        match at {
            Some(i) => company_at(companies@, id) == Some(i as int) && i < companies@.len()
                && companies@[i as int].comp_id == id,
            None => company_at(companies@, id) is None,
        },
{
    let n = companies.len();
    let mut i: usize = 0;
    while i < n
        invariant
            n == companies@.len(),
            i <= n,
            forall|k: int| 0 <= k < i ==> !with_company_id(id)(#[trigger] companies@[k]),
        decreases n - i,
    {
        if companies[i].comp_id == id {
            proof {
                lemma_first_found(companies@, with_company_id(id), i as int);
            }
            return Some(i);
        }
        i += 1;
    }
    None
}

/// A copy of a company.
fn copy_company(c: &Company) -> (copy: Company)
    ensures
        copy == *c,
{
    Company {
        comp_id: c.comp_id,
        company_name: c.company_name.clone(),
        about: copy_text(&c.about),
        created_at: c.created_at,
    }
}

/// Why a founding is refused before any token is made, or `None` where
/// it goes ahead.
pub open spec fn founding_refusal(role: AccessRole, email: Seq<char>) -> Option<ErrorView> {
    if role != AccessRole::Admin {
        Some(access_denied(AccessRole::Admin))
    } else if !email_shaped(email) {
        Some(failure(ErrorKind::BadRequest, "invalid email format"@))
    } else {
        None
    }
}

/// Founds a company together with its manager.
///
/// The caller must be the administrator and the manager's address must
/// pass for an email address. A founding that is in order is granted
/// unless the token cannot be made. On success the answer carries status 201,
/// the company to enter under `comp_id`, its manager to enter under
/// `manager_id` (without a password), and a token for the manager.
pub fn create_company(
    claims: &Claims,
    payload: &CreateCompanyReq,
    comp_id: u128,
    manager_id: u128,
    now: i64,
    config: &TokenConfig,
) -> (r: Result<(u16, Founding), AppError>)
    ensures
        match r {
            Ok((status, founding)) => {
                &&& founding_refusal(claims.role, payload.manager.email@) is None
                &&& status == 201
                &&& founding.company == Company {
                    comp_id,
                    company_name: payload.company_name,
                    about: Some(payload.about),
                    created_at: now,
                }
                &&& founding.manager == Employee {
                    emp_id: manager_id,
                    name: payload.manager.name,
                    position: payload.manager.position,
                    comp_id,
                    email: payload.manager.email,
                    password_hash: None,
                    role: Role::MNG,
                    created_at: now,
                }
                &&& token_for(
                    manager_id,
                    payload.manager.email@,
                    AccessRole::Manager,
                    now as int,
                    config@,
                ) == Some(founding.token@)
            },
            Err(e) => match founding_refusal(claims.role, payload.manager.email@) {
                Some(refusal) => e@ == refusal,
                None => {
                    &&& e@ == failure(ErrorKind::Unexpected, unexpected_message())
                    &&& token_for(
                        manager_id,
                        payload.manager.email@,
                        AccessRole::Manager,
                        now as int,
                        config@,
                    ) is None
                },
            },
        },
{
    if let Err(e) = require_role(claims, AccessRole::Admin) {
        return Err(e);
    }
    if !is_email_shaped(payload.manager.email.as_str()) {
        return Err(AppError::bad_request("invalid email format"));
    }
    let token = match issue_token(
        manager_id,
        payload.manager.email.as_str(),
        AccessRole::Manager,
        now,
        config,
    ) {
        Ok(token) => token,
        Err(e) => {
            return Err(e);
        },
    };
    let company = Company {
        comp_id,
        company_name: payload.company_name.clone(),
        about: Some(payload.about.clone()),
        created_at: now,
    };
    let manager = Employee {
        emp_id: manager_id,
        name: payload.manager.name.clone(),
        position: payload.manager.position.clone(),
        comp_id,
        email: payload.manager.email.clone(),
        password_hash: None,
        role: Role::MNG,
        created_at: now,
    };
    Ok((201, Founding { company, manager, token }))
}

/// Why the administrator's request about the company `id` is refused, or
/// `None` where it is granted.
pub open spec fn company_access_refusal(companies: Seq<Company>, role: AccessRole, id: u128) -> Option<
    ErrorView,
> {
    if role != AccessRole::Admin {
        Some(access_denied(AccessRole::Admin))
    } else if company_at(companies, id) is None {
        Some(failure(ErrorKind::NotFound, "company not found"@))
    } else {
        None
    }
}

/// Shows the administrator the company `comp_id`.
pub fn get_company_by_id(companies: &Vec<Company>, claims: &Claims, comp_id: u128) -> (r: Result<
    Company,
    AppError,
>)
    ensures
        match r {
            Ok(shown) => company_access_refusal(companies@, claims.role, comp_id) is None && shown
                == companies@[company_at(companies@, comp_id).unwrap()],
            Err(e) => company_access_refusal(companies@, claims.role, comp_id) == Some(e@),
        },
{
    if let Err(e) = require_role(claims, AccessRole::Admin) {
        return Err(e);
    }
    match find_company(companies, comp_id) {
        Some(at) => Ok(copy_company(&companies[at])),
        None => Err(AppError::not_found("company not found")),
    }
}

/// Why a request for the list of companies is refused, or `None` where it
/// is granted.
pub open spec fn companies_refusal(role: AccessRole, page: Option<i64>, limit: Option<i64>)
    -> Option<ErrorView> {
    if role != AccessRole::Admin {
        Some(access_denied(AccessRole::Admin))
    } else if page_of(page, limit) is None {
        Some(failure(ErrorKind::BadRequest, "invalid page or limit"@))
    } else {
        None
    }
}

/// Works out the listing of companies that the store is to be asked for:
/// the page, and the pattern that the names must match.
pub fn get_companies(claims: &Claims, params: &CompanyQueryParams) -> (r: Result<
    CompanyListing,
    AppError,
>)
    ensures
        match r {
            Ok(listing) => {
                &&& companies_refusal(claims.role, params.page, params.limit) is None
                &&& Some(listing.page) == page_of(params.page, params.limit)
                &&& match listing.name_pattern {
                    Some(p) => pattern_of(params.company_name) == Some(p@),
                    None => pattern_of(params.company_name) is None,
                }
            },
            Err(e) => companies_refusal(claims.role, params.page, params.limit) == Some(e@),
        },
{
    if let Err(e) = require_role(claims, AccessRole::Admin) {
        return Err(e);
    }
    match paginate(params.page, params.limit) {
        Some(page) => Ok(
            CompanyListing { page, name_pattern: filter_pattern(&params.company_name) },
        ),
        None => Err(AppError::bad_request("invalid page or limit")),
    }
}

/// Why the caller is not shown their own company, or `None` where they
/// are.
pub open spec fn my_company_refusal(
    staff: Seq<Employee>,
    companies: Seq<Company>,
    role: AccessRole,
    id: u128,
) -> Option<ErrorView> {
    if scope_refusal(staff, role, id) is Some {
        scope_refusal(staff, role, id)
    } else if company_at(companies, company_of(staff, id)) is None {
        Some(failure(ErrorKind::NotFound, "company not found for this employee"@))
    } else {
        None
    }
}

/// Shows a manager or employee the company they belong to.
pub fn get_my_company(staff: &Vec<Employee>, companies: &Vec<Company>, claims: &Claims) -> (r:
    Result<Company, AppError>)
    ensures
        match r {
            Ok(shown) => my_company_refusal(staff@, companies@, claims.role, claims.id) is None
                && shown == companies@[company_at(
                companies@,
                company_of(staff@, claims.id),
            ).unwrap()],
            Err(e) => my_company_refusal(staff@, companies@, claims.role, claims.id) == Some(e@),
        },
{
    let company = match scope_to_company(staff, claims) {
        Ok(company) => company,
        Err(e) => {
            return Err(e);
        },
    };
    match find_company(companies, company) {
        Some(at) => Ok(copy_company(&companies[at])),
        None => Err(AppError::not_found("company not found for this employee")),
    }
}

/// Why a request to change the company `id` is refused, or `None` where
/// it is granted.
pub open spec fn company_update_refusal(
    companies: Seq<Company>,
    role: AccessRole,
    id: u128,
    req: UpdateCompanyReq,
) -> Option<ErrorView> {
    if role != AccessRole::Admin {
        Some(access_denied(AccessRole::Admin))
    } else if req.company_name is None && req.about is None {
        Some(failure(ErrorKind::BadRequest, "no parameters provided"@))
    } else if company_at(companies, id) is None {
        Some(failure(ErrorKind::NotFound, "company not found"@))
    } else {
        None
    }
}

/// The company `c` once the changes of `req` are made.
pub open spec fn updated_company(c: Company, req: UpdateCompanyReq) -> Company {
    Company {
        comp_id: c.comp_id,
        company_name: match req.company_name {
            Some(name) => name,
            None => c.company_name,
        },
        about: match req.about {
            Some(about) => Some(about),
            None => c.about,
        },
        created_at: c.created_at,
    }
}

/// Changes the name or the description of the company `comp_id`, and
/// shows the company as it then stands.
pub fn update_companies(
    companies: &Vec<Company>,
    claims: &Claims,
    comp_id: u128,
    payload: &UpdateCompanyReq,
) -> (r: Result<Company, AppError>)
    ensures
        match r {
            Ok(shown) => company_update_refusal(companies@, claims.role, comp_id, *payload)
                is None && shown == updated_company(
                companies@[company_at(companies@, comp_id).unwrap()],
                *payload,
            ),
            Err(e) => company_update_refusal(companies@, claims.role, comp_id, *payload) == Some(
                e@,
            ),
        },
{
    if let Err(e) = require_role(claims, AccessRole::Admin) {
        return Err(e);
    }
    if payload.company_name.is_none() && payload.about.is_none() {
        return Err(AppError::bad_request("no parameters provided"));
    }
    let at = match find_company(companies, comp_id) {
        Some(at) => at,
        None => {
            return Err(AppError::not_found("company not found"));
        },
    };
    let c = &companies[at];
    let company_name = match &payload.company_name {
        Some(name) => name.clone(),
        None => c.company_name.clone(),
    };
    let about = match &payload.about {
        Some(about) => Some(about.clone()),
        None => copy_text(&c.about),
    };
    Ok(Company { comp_id: c.comp_id, company_name, about, created_at: c.created_at })
}

/// Grants the removal of the company `comp_id`, with status 204.
pub fn delete_company(companies: &Vec<Company>, claims: &Claims, comp_id: u128) -> (r: Result<
    u16,
    AppError,
>)
    ensures
        match r {
            Ok(status) => company_access_refusal(companies@, claims.role, comp_id) is None && status
                == 204,
            Err(e) => company_access_refusal(companies@, claims.role, comp_id) == Some(e@),
        },
{
    if let Err(e) = require_role(claims, AccessRole::Admin) {
        return Err(e);
    }
    match find_company(companies, comp_id) {
        Some(_) => Ok(204),
        None => Err(AppError::not_found("company not found")),
    }
}

} // verus!
