//! The directory of employees: who belongs to which company, and what a
//! manager may do with the employees of their own company.

use vstd::prelude::*;

use crate::error::{failure, unexpected_message, AppError, ErrorKind, ErrorView};
use crate::guard::{access_denied, require_role};
use crate::jwt::{issue_token, token_for, AccessRole, Claims, TokenConfig, TokenConfigView};
use crate::password::{accept_password, hash_password, matches_hash, password_matches};
use crate::query::{page_of, paginate, Page};
use crate::search::{first, lemma_first_found};
use crate::text::{
    blank, containing, email_shaped, is_blank, is_email_shaped, pattern_containing, same_text,
};

verus! {

/// The standing of an employee within their company.
#[derive(Clone, Copy, Debug, PartialEq, Eq, Structural)]
pub enum Role {
    EMP,
    MNG,
}

/// An employee as the directory holds them.
#[derive(Debug)]
pub struct Employee {
    pub emp_id: u128,
    pub name: String,
    pub position: String,
    pub comp_id: u128,
    pub email: String,
    /// Absent until the employee has set a password.
    pub password_hash: Option<String>,
    pub role: Role,
    pub created_at: i64,
}

/// An employee as their manager is shown them.
#[derive(Debug)]
pub struct GetEmployee {
    pub emp_id: u128,
    pub name: String,
    pub position: String,
    pub email: String,
    pub role: Role,
}

/// An invitation to join a company.
#[derive(Debug)]
pub struct EmployeeInvite {
    pub name: String,
    pub position: String,
    pub email: String,
}

/// The password that an invited employee chooses.
#[derive(Debug)]
pub struct EmployeePassword {
    pub password: String,
}

/// The credentials of an employee who logs in.
#[derive(Debug)]
pub struct LoginEmployee {
    pub email: String,
    pub password: String,
}

/// How a manager asks for the list of employees.
#[derive(Debug)]
pub struct EmployeeQueryParams {
    pub page: Option<i64>,
    pub limit: Option<i64>,
    pub name: Option<String>,
    pub position: Option<String>,
}

/// What a manager asks to change of an employee.
#[derive(Debug)]
pub struct UpdateEmployeeReq {
    pub name: Option<String>,
    pub position: Option<String>,
}

/// A password hash to be stored for an employee.
#[derive(Debug)]
pub struct PasswordSet {
    pub emp_id: u128,
    pub password_hash: String,
}

/// A granted invitation: the employee to enter into the directory, and the
/// token with which they set their password.
#[derive(Debug)]
pub struct Invitation {
    pub employee: Employee,
    pub token: String,
}

/// The listing of a company's employees that the store is asked for.
#[derive(Debug)]
pub struct EmployeeListing {
    pub comp_id: u128,
    pub page: Page,
    pub name_pattern: Option<String>,
    pub position_pattern: Option<String>,
}

/// What to look for in the directory.
pub enum Wanted<'a> {
    /// The employee with this id.
    Id(u128),
    /// The employee with this email address.
    Email(&'a str),
    /// The employee with this email address who has set no password yet.
    Pending(&'a str),
    /// The employee with this id in this company.
    Member(u128, u128),
}

/// The mathematical value of a [`Wanted`].
pub enum Quest {
    Id(u128),
    Email(Seq<char>),
    Pending(Seq<char>),
    Member(u128, u128),
}

impl<'a> View for Wanted<'a> {
    type V = Quest;

    open spec fn view(&self) -> Quest {
        match self {
            Wanted::Id(id) => Quest::Id(*id),
            Wanted::Email(email) => Quest::Email(email@),
            Wanted::Pending(email) => Quest::Pending(email@),
            Wanted::Member(id, company) => Quest::Member(*id, *company),
        }
    }
}

/// The employee `e` is what `quest` looks for.
pub open spec fn answers(e: Employee, quest: Quest) -> bool {
    match quest {
        Quest::Id(id) => e.emp_id == id,
        Quest::Email(email) => e.email@ == email,
        Quest::Pending(email) => e.email@ == email && e.password_hash is None,
        Quest::Member(id, company) => e.emp_id == id && e.comp_id == company,
    }
}

/// The employees that `quest` looks for.
pub open spec fn sought(quest: Quest) -> spec_fn(Employee) -> bool {
    |e: Employee| answers(e, quest)
}

/// The position in `staff` of the first employee that `quest` looks for.
pub open spec fn found(staff: Seq<Employee>, quest: Quest) -> Option<int> {
    first(staff, sought(quest))
}

/// The role in which an employee of standing `role` acts.
pub open spec fn acting_role(role: Role) -> AccessRole {
    match role {
        Role::EMP => AccessRole::Employee,
        Role::MNG => AccessRole::Manager,
    }
}

/// The role in which an employee of standing `role` acts.
pub fn access_role(role: Role) -> (acting: AccessRole)
    ensures
        acting == acting_role(role),
{
    match role {
        Role::EMP => AccessRole::Employee,
        Role::MNG => AccessRole::Manager,
    }
}

/// What a manager is shown of the employee `e`.
pub open spec fn profile(e: Employee) -> GetEmployee {
    GetEmployee {
        emp_id: e.emp_id,
        name: e.name,
        position: e.position,
        email: e.email,
        role: e.role,
    }
}

/// Looks in `staff` for the first employee that `wanted` describes.
pub fn find_employee(staff: &Vec<Employee>, wanted: &Wanted) -> (at: Option<usize>)
    ensures
        match at {
            Some(i) => found(staff@, wanted@) == Some(i as int) && i < staff@.len() && answers(
                staff@[i as int],
                wanted@,
            ),
            None => found(staff@, wanted@) is None,
        },
{
    let n = staff.len();
    let mut i: usize = 0;
    while i < n
        invariant
            n == staff@.len(),
            i <= n,
            forall|k: int| 0 <= k < i ==> !sought(wanted@)(#[trigger] staff@[k]),
        decreases n - i,
    {
        let e = &staff[i];
        let hit = match wanted {
            Wanted::Id(id) => e.emp_id == *id,
            Wanted::Email(email) => same_text(e.email.as_str(), email),
            Wanted::Pending(email) => same_text(e.email.as_str(), email)
                && e.password_hash.is_none(),
            Wanted::Member(id, company) => e.emp_id == *id && e.comp_id == *company,
        };
        if hit {
            proof {
                lemma_first_found(staff@, sought(wanted@), i as int);
            }
            return Some(i);
        }
        i += 1;
    }
    None
}

/// Why the caller is not taken for a manager of a company in `staff`, or
/// `None` where they are. A manager who is no longer in the directory is
/// reported as not found, however valid their token.
pub open spec fn manager_refusal(staff: Seq<Employee>, role: AccessRole, id: u128) -> Option<
    ErrorView,
> {
    if role != AccessRole::Manager {
        Some(access_denied(AccessRole::Manager))
    } else if found(staff, Quest::Id(id)) is None {
        Some(failure(ErrorKind::NotFound, "employee not found"@))
    } else {
        None
    }
}

/// The company of the employee `id`.
pub open spec fn company_of(staff: Seq<Employee>, id: u128) -> u128 {
    staff[found(staff, Quest::Id(id)).unwrap()].comp_id
}

/// Admits the caller as a manager and resolves the company they manage.
pub fn manager_company(staff: &Vec<Employee>, claims: &Claims) -> (r: Result<u128, AppError>)
    ensures
        match r {
            Ok(company) => manager_refusal(staff@, claims.role, claims.id) is None && company
                == company_of(staff@, claims.id),
            Err(e) => manager_refusal(staff@, claims.role, claims.id) == Some(e@),
        },
{
    let id = match require_role(claims, AccessRole::Manager) {
        Ok(id) => id,
        Err(e) => {
            return Err(e);
        },
    };
    match find_employee(staff, &Wanted::Id(id)) {
        Some(at) => Ok(staff[at].comp_id),
        None => Err(AppError::not_found("employee not found")),
    }
}

/// Why a login is refused before any password is compared, or `None`
/// where there is a stored hash to compare with.
pub open spec fn candidate_refusal(staff: Seq<Employee>, email: Seq<char>, password: Seq<char>)
    -> Option<ErrorView> {
    if blank(email) || blank(password) {
        Some(failure(ErrorKind::BadRequest, "invalid credentials"@))
    } else if found(staff, Quest::Email(email)) is None {
        Some(failure(ErrorKind::Unauthorized, "invalid credentials"@))
    } else if staff[found(staff, Quest::Email(email)).unwrap()].password_hash is None {
        Some(failure(ErrorKind::Unauthorized, "activate your credentials"@))
    } else {
        None
    }
}

/// Why a login is refused before any token is made, or `None` where the
/// credentials hold.
pub open spec fn login_refusal(staff: Seq<Employee>, email: Seq<char>, password: Seq<char>)
    -> Option<ErrorView> {
    if candidate_refusal(staff, email, password) is Some {
        candidate_refusal(staff, email, password)
    } else if !matches_hash(
        password,
        staff[found(staff, Quest::Email(email)).unwrap()].password_hash.unwrap()@,
    ) {
        Some(failure(ErrorKind::Unauthorized, "invalid credentials"@))
    } else {
        None
    }
}

/// Finds the employee who tries to log in: the first with the address
/// given, provided that neither address nor password is blank and that
/// the employee has set a password.
pub fn login_candidate(staff: &Vec<Employee>, payload: &LoginEmployee) -> (r: Result<
    usize,
    AppError,
>)
    ensures
        match r {
            Ok(at) => {
                &&& candidate_refusal(staff@, payload.email@, payload.password@) is None
                &&& found(staff@, Quest::Email(payload.email@)) == Some(at as int)
                &&& at < staff@.len()
                &&& staff@[at as int].password_hash is Some
            },
            Err(e) => candidate_refusal(staff@, payload.email@, payload.password@) == Some(e@),
        },
{
    if is_blank(payload.email.as_str()) {
        return Err(AppError::bad_request("invalid credentials"));
    }
    if is_blank(payload.password.as_str()) {
        return Err(AppError::bad_request("invalid credentials"));
    }
    let at = match find_employee(staff, &Wanted::Email(payload.email.as_str())) {
        Some(at) => at,
        None => {
            return Err(AppError::unauthorized("invalid credentials"));
        },
    };
    if staff[at].password_hash.is_none() {
        return Err(AppError::unauthorized("activate your credentials"));
    }
    Ok(at)
}

/// The token owed to the employee whose credentials hold: one in the
/// role that their standing gives.
pub open spec fn login_token(
    staff: Seq<Employee>,
    email: Seq<char>,
    now: int,
    config: TokenConfigView,
) -> Option<Seq<char>> {
    let e = staff[found(staff, Quest::Email(email)).unwrap()];
    token_for(e.emp_id, e.email@, acting_role(e.role), now, config)
}

/// Logs an employee or manager in: checks the credentials against the
/// directory and issues a token in the role that their standing gives.
///
/// Credentials that hold give the token, unless it cannot be made.
pub fn login_employee(
    staff: &Vec<Employee>,
    payload: &LoginEmployee,
    now: i64,
    config: &TokenConfig,
) -> (r: Result<String, AppError>)
    ensures
        match r {
            Ok(token) => {
                &&& login_refusal(staff@, payload.email@, payload.password@) is None
                &&& login_token(staff@, payload.email@, now as int, config@) == Some(token@)
            },
            Err(e) => match login_refusal(staff@, payload.email@, payload.password@) {
                Some(refusal) => e@ == refusal,
                None => {
                    &&& e@ == failure(ErrorKind::Unexpected, unexpected_message())
                    &&& login_token(staff@, payload.email@, now as int, config@) is None
                },
            },
        },
{
    let at = match login_candidate(staff, payload) {
        Ok(at) => at,
        Err(e) => {
            return Err(e);
        },
    };
    let e = &staff[at];
    let matched = match &e.password_hash {
        Some(hash) => password_matches(payload.password.as_str(), hash.as_str()),
        None => false,
    };
    if let Err(e) = accept_password(matched) {
        return Err(e);
    }
    issue_token(e.emp_id, e.email.as_str(), access_role(e.role), now, config)
}

/// Why a request to set the first password is refused before any hash is
/// made, or `None` where it goes ahead.
pub open spec fn activation_refusal(staff: Seq<Employee>, email: Seq<char>, password: Seq<char>)
    -> Option<ErrorView> {
    if blank(password) {
        Some(failure(ErrorKind::BadRequest, "password is required"@))
    } else if found(staff, Quest::Pending(email)) is None {
        Some(failure(ErrorKind::BadRequest, "account already activated"@))
    } else {
        None
    }
}

/// Sets the first password of the invited employee whom the claims name.
///
/// The password must not be blank, and the employee must not have set one
/// before. Hands out the hash to store.
pub fn email_verification(staff: &Vec<Employee>, claims: &Claims, payload: &EmployeePassword) -> (r:
    Result<PasswordSet, AppError>)
    ensures
        match r {
            Ok(set) => {
                &&& activation_refusal(staff@, claims.sub@, payload.password@) is None
                &&& set.emp_id == staff@[found(staff@, Quest::Pending(claims.sub@)).unwrap()].emp_id
                &&& matches_hash(payload.password@, set.password_hash@)
            },
            Err(e) => match activation_refusal(staff@, claims.sub@, payload.password@) {
                Some(refusal) => e@ == refusal,
                None => e@ == failure(ErrorKind::BadRequest, "invalid password"@),
            },
        },
{
    if is_blank(payload.password.as_str()) {
        return Err(AppError::bad_request("password is required"));
    }
    let at = match find_employee(staff, &Wanted::Pending(claims.sub.as_str())) {
        Some(at) => at,
        None => {
            return Err(AppError::bad_request("account already activated"));
        },
    };
    match hash_password(payload.password.as_str()) {
        Ok(password_hash) => Ok(PasswordSet { emp_id: staff[at].emp_id, password_hash }),
        Err(e) => Err(e),
    }
}

/// Why an invitation is refused before any token is made, or `None`
/// where it goes ahead.
pub open spec fn invite_refusal(
    staff: Seq<Employee>,
    role: AccessRole,
    id: u128,
    email: Seq<char>,
) -> Option<ErrorView> {
    if role != AccessRole::Manager {
        Some(access_denied(AccessRole::Manager))
    } else if !email_shaped(email) {
        Some(failure(ErrorKind::BadRequest, "invalid email format"@))
    } else if found(staff, Quest::Id(id)) is None {
        Some(failure(ErrorKind::NotFound, "employee not found"@))
    } else {
        None
    }
}

/// Invites an employee into the caller's company.
///
/// The caller must be a manager who is still in the directory, and the
/// address must pass for an email address. An invitation that is in order
/// is granted unless the token cannot be made. On success the answer
/// carries status 201, the employee to enter under `emp_id` (without a
/// password, in the manager's company) and a token for them.
pub fn create_employee(
    staff: &Vec<Employee>,
    claims: &Claims,
    payload: &EmployeeInvite,
    emp_id: u128,
    now: i64,
    config: &TokenConfig,
) -> (r: Result<(u16, Invitation), AppError>)
    ensures
        match r {
            Ok((status, invitation)) => {
                &&& invite_refusal(staff@, claims.role, claims.id, payload.email@) is None
                &&& status == 201
                &&& invitation.employee == Employee {
                    emp_id,
                    name: payload.name,
                    position: payload.position,
                    comp_id: company_of(staff@, claims.id),
                    email: payload.email,
                    password_hash: None,
                    role: Role::EMP,
                    created_at: now,
                }
                &&& token_for(emp_id, payload.email@, AccessRole::Employee, now as int, config@)
                    == Some(invitation.token@)
            },
            Err(e) => match invite_refusal(staff@, claims.role, claims.id, payload.email@) {
                Some(refusal) => e@ == refusal,
                None => {
                    &&& e@ == failure(ErrorKind::Unexpected, unexpected_message())
                    &&& token_for(
                        emp_id,
                        payload.email@,
                        AccessRole::Employee,
                        now as int,
                        config@,
                    ) is None
                },
            },
        },
{
    if let Err(e) = require_role(claims, AccessRole::Manager) {
        return Err(e);
    }
    if !is_email_shaped(payload.email.as_str()) {
        return Err(AppError::bad_request("invalid email format"));
    }
    let comp_id = match manager_company(staff, claims) {
        Ok(company) => company,
        Err(e) => {
            return Err(e);
        },
    };
    let token = match issue_token(
        emp_id,
        payload.email.as_str(),
        AccessRole::Employee,
        now,
        config,
    ) {
        Ok(token) => token,
        Err(e) => {
            return Err(e);
        },
    };
    let employee = Employee {
        emp_id,
        name: payload.name.clone(),
        position: payload.position.clone(),
        comp_id,
        email: payload.email.clone(),
        password_hash: None,
        role: Role::EMP,
        created_at: now,
    };
    Ok((201, Invitation { employee, token }))
}

/// Why a manager's request about the employee `emp_id` is refused, or
/// `None` where it is granted.
pub open spec fn member_refusal(staff: Seq<Employee>, role: AccessRole, id: u128, emp_id: u128)
    -> Option<ErrorView> {
    if manager_refusal(staff, role, id) is Some {
        manager_refusal(staff, role, id)
    } else if found(staff, Quest::Member(emp_id, company_of(staff, id))) is None {
        Some(failure(ErrorKind::NotFound, "employee not found"@))
    } else {
        None
    }
}

/// The position in `staff` of the employee `emp_id` of the company that
/// `id` manages.
pub open spec fn member_seat(staff: Seq<Employee>, id: u128, emp_id: u128) -> int {
    found(staff, Quest::Member(emp_id, company_of(staff, id))).unwrap()
}

/// Shows a manager the employee `emp_id` of their own company. An
/// employee of another company is reported as not found.
pub fn get_employee_by_id(staff: &Vec<Employee>, claims: &Claims, emp_id: u128) -> (r: Result<
    GetEmployee,
    AppError,
>)
    ensures
        match r {
            Ok(shown) => {
                &&& member_refusal(staff@, claims.role, claims.id, emp_id) is None
                &&& shown == profile(staff@[member_seat(staff@, claims.id, emp_id)])
            },
            Err(e) => member_refusal(staff@, claims.role, claims.id, emp_id) == Some(e@),
        },
{
    let company = match manager_company(staff, claims) {
        Ok(company) => company,
        Err(e) => {
            return Err(e);
        },
    };
    match find_employee(staff, &Wanted::Member(emp_id, company)) {
        Some(at) => {
            let e = &staff[at];
            Ok(
                GetEmployee {
                    emp_id: e.emp_id,
                    name: e.name.clone(),
                    position: e.position.clone(),
                    email: e.email.clone(),
                    role: e.role,
                },
            )
        },
        None => Err(AppError::not_found("employee not found")),
    }
}

/// The pattern that a filter stands for, where one is given.
pub open spec fn pattern_of(filter: Option<String>) -> Option<Seq<char>> {
    match filter {
        Some(text) => Some(containing(text@)),
        None => None,
    }
}

/// The pattern that a filter stands for, where one is given.
pub fn filter_pattern(filter: &Option<String>) -> (pattern: Option<String>)
    ensures
        match pattern {
            Some(p) => pattern_of(*filter) == Some(p@),
            None => pattern_of(*filter) is None,
        },
{
    match filter {
        Some(text) => Some(pattern_containing(text.as_str())),
        None => None,
    }
}

/// Why a request for the list of employees is refused, or `None` where
/// it is granted.
pub open spec fn listing_refusal(
    staff: Seq<Employee>,
    role: AccessRole,
    id: u128,
    page: Option<i64>,
    limit: Option<i64>,
) -> Option<ErrorView> {
    if role != AccessRole::Manager {
        Some(access_denied(AccessRole::Manager))
    } else if page_of(page, limit) is None {
        Some(failure(ErrorKind::BadRequest, "invalid page or limit"@))
    } else if found(staff, Quest::Id(id)) is None {
        Some(failure(ErrorKind::NotFound, "employee not found"@))
    } else {
        None
    }
}

/// Works out the listing of the caller's company that the store is to be
/// asked for: the company, the page, and the patterns that the names and
/// positions must match.
pub fn get_employees(staff: &Vec<Employee>, claims: &Claims, params: &EmployeeQueryParams) -> (r:
    Result<EmployeeListing, AppError>)
    ensures
        match r {
            Ok(listing) => {
                &&& listing_refusal(staff@, claims.role, claims.id, params.page, params.limit)
                    is None
                &&& listing.comp_id == company_of(staff@, claims.id)
                &&& Some(listing.page) == page_of(params.page, params.limit)
                &&& match listing.name_pattern {
                    Some(p) => pattern_of(params.name) == Some(p@),
                    None => pattern_of(params.name) is None,
                }
                &&& match listing.position_pattern {
                    Some(p) => pattern_of(params.position) == Some(p@),
                    None => pattern_of(params.position) is None,
                }
            },
            Err(e) => listing_refusal(staff@, claims.role, claims.id, params.page, params.limit)
                == Some(e@),
        },
{
    if let Err(e) = require_role(claims, AccessRole::Manager) {
        return Err(e);
    }
    let page = match paginate(params.page, params.limit) {
        Some(page) => page,
        None => {
            return Err(AppError::bad_request("invalid page or limit"));
        },
    };
    let comp_id = match manager_company(staff, claims) {
        Ok(company) => company,
        Err(e) => {
            return Err(e);
        },
    };
    Ok(
        EmployeeListing {
            comp_id,
            page,
            name_pattern: filter_pattern(&params.name),
            position_pattern: filter_pattern(&params.position),
        },
    )
}

/// Why a request to change the employee `emp_id` is refused, or `None`
/// where it is granted.
pub open spec fn update_refusal(
    staff: Seq<Employee>,
    role: AccessRole,
    id: u128,
    emp_id: u128,
    req: UpdateEmployeeReq,
) -> Option<ErrorView> {
    if manager_refusal(staff, role, id) is Some {
        manager_refusal(staff, role, id)
    } else if req.name is None && req.position is None {
        Some(failure(ErrorKind::BadRequest, "no parameters provided"@))
    } else if found(staff, Quest::Member(emp_id, company_of(staff, id))) is None {
        Some(failure(ErrorKind::NotFound, "employee not found"@))
    } else {
        None
    }
}

/// The employee `e` as shown once the changes of `req` are made.
pub open spec fn updated_profile(e: Employee, req: UpdateEmployeeReq) -> GetEmployee {
    GetEmployee {
        emp_id: e.emp_id,
        name: match req.name {
            Some(name) => name,
            None => e.name,
        },
        position: match req.position {
            Some(position) => position,
            None => e.position,
        },
        email: e.email,
        role: e.role,
    }
}

/// Changes the name or the position of the employee `emp_id` of the
/// caller's own company, and shows the employee as they then stand.
pub fn update_employees(
    staff: &Vec<Employee>,
    claims: &Claims,
    emp_id: u128,
    payload: &UpdateEmployeeReq,
) -> (r: Result<GetEmployee, AppError>)
    ensures
        match r {
            Ok(shown) => {
                &&& update_refusal(staff@, claims.role, claims.id, emp_id, *payload) is None
                &&& shown == updated_profile(
                    staff@[member_seat(staff@, claims.id, emp_id)],
                    *payload,
                )
            },
            Err(e) => update_refusal(staff@, claims.role, claims.id, emp_id, *payload) == Some(
                e@,
            ),
        },
{
    let company = match manager_company(staff, claims) {
        Ok(company) => company,
        Err(e) => {
            return Err(e);
        },
    };
    if payload.name.is_none() && payload.position.is_none() {
        return Err(AppError::bad_request("no parameters provided"));
    }
    let at = match find_employee(staff, &Wanted::Member(emp_id, company)) {
        Some(at) => at,
        None => {
            return Err(AppError::not_found("employee not found"));
        },
    };
    let e = &staff[at];
    let name = match &payload.name {
        Some(name) => name.clone(),
        None => e.name.clone(),
    };
    let position = match &payload.position {
        Some(position) => position.clone(),
        None => e.position.clone(),
    };
    Ok(GetEmployee { emp_id: e.emp_id, name, position, email: e.email.clone(), role: e.role })
}

/// Grants the removal of the employee `emp_id` from the caller's own
/// company, with status 204.
pub fn delete_employees(staff: &Vec<Employee>, claims: &Claims, emp_id: u128) -> (r: Result<
    u16,
    AppError,
>)
    ensures
        match r {
            Ok(status) => {
                &&& member_refusal(staff@, claims.role, claims.id, emp_id) is None
                &&& status == 204
            },
            Err(e) => member_refusal(staff@, claims.role, claims.id, emp_id) == Some(e@),
        },
{
    let company = match manager_company(staff, claims) {
        Ok(company) => company,
        Err(e) => {
            return Err(e);
        },
    };
    match find_employee(staff, &Wanted::Member(emp_id, company)) {
        Some(_) => Ok(204),
        None => Err(AppError::not_found("employee not found")),
    }
}

} // verus!
