//! The reservation engine: the table of reservations and the operations
//! that create, extend, cancel and read them.

use vstd::prelude::*;

use crate::employee::{
    company_of, find_employee, found, manager_company, manager_refusal, Employee, Quest, Wanted,
};
use crate::error::{failure, AppError, ErrorKind, ErrorView};
use crate::guard::{access_denied, require_role};
use crate::instant::{checked_shift, on_same_day, representable, same_day, shifted};
use crate::jwt::{AccessRole, Claims};
use crate::text::same_text;
use crate::window::{
    in_window, is_valid_window, overlaps, valid_window, windows_overlap, MAX_DURATION,
};

verus! {

/// A reservation: a holder's claim on a space for the window
/// `[start_time, end_time)`.
#[derive(Clone, Copy, Debug, PartialEq, Eq, Structural)]
pub struct Booking {
    pub booking_id: u128,
    pub space_id: u128,
    pub booked_by: u128,
    pub start_time: i64,
    pub end_time: i64,
    pub created_at: i64,
}

/// A request to reserve a space for a window.
#[derive(Clone, Copy, Debug, PartialEq, Eq, Structural)]
pub struct CreateBookingReq {
    pub space_id: u128,
    pub start_time: i64,
    pub end_time: i64,
}

/// The id of a reservation, as reported after a create or an extend.
#[derive(Clone, Copy, Debug, PartialEq, Eq, Structural)]
pub struct BookingId {
    pub booking_id: u128,
}

/// A request to move the end of a reservation by `extra_time` seconds.
#[derive(Clone, Copy, Debug, PartialEq, Eq, Structural)]
pub struct UpdateBookingReq {
    pub extra_time: i64,
}

/// A reservation as its holder sees it.
#[derive(Clone, Copy, Debug, PartialEq, Eq, Structural)]
pub struct GetBooking {
    pub space_id: u128,
    pub booked_by: u128,
    pub start_time: i64,
    pub end_time: i64,
}

/// A reservation as the manager of the holder's company sees it.
#[derive(Debug)]
pub struct GetCompanyBooking {
    pub booking_id: u128,
    pub space_id: u128,
    pub emp_id: u128,
    pub employee_name: String,
    pub email: String,
    pub start_time: i64,
    pub end_time: i64,
}

/// A window during which a space is taken.
#[derive(Clone, Copy, Debug, PartialEq, Eq, Structural)]
pub struct AvailableBooking {
    pub start_time: i64,
    pub end_time: i64,
}

/// The reservations that the engine decides on.
pub struct BookingTable {
    rows: Vec<Booking>,
}

/// The reservation's window is valid.
pub open spec fn well_formed(b: Booking) -> bool {
    valid_window(b.start_time as int, b.end_time as int)
}

/// The reservation `b` lies on `space` and its window overlaps `[start, end)`.
pub open spec fn blocks(b: Booking, space: u128, start: int, end: int) -> bool {
    b.space_id == space && windows_overlap(b.start_time as int, b.end_time as int, start, end)
}

/// Two reservations may stand in one table: they differ in id, and they do
/// not overlap on one space.
pub open spec fn compatible(a: Booking, b: Booking) -> bool {
    a.booking_id != b.booking_id && !blocks(a, b.space_id, b.start_time as int, b.end_time as int)
}

/// Every row is well formed and any two rows are compatible.
pub open spec fn consistent(rows: Seq<Booking>) -> bool {
    &&& forall|i: int| 0 <= i < rows.len() ==> well_formed(#[trigger] rows[i])
    &&& forall|i: int, j: int|
        0 <= i < j < rows.len() ==> compatible(#[trigger] rows[i], #[trigger] rows[j])
}

/// Some row other than the one with id `skip` (none is left out where
/// `skip` is `None`) lies on `space` and overlaps `[start, end)`.
pub open spec fn occupied(
    rows: Seq<Booking>,
    skip: Option<u128>,
    space: u128,
    start: int,
    end: int,
) -> bool {
    exists|i: int|
        0 <= i < rows.len() && skip != Some((#[trigger] rows[i]).booking_id) && blocks(
            rows[i],
            space,
            start,
            end,
        )
}

/// Some row has the id `id`.
pub open spec fn listed(rows: Seq<Booking>, id: u128) -> bool {
    exists|i: int| 0 <= i < rows.len() && (#[trigger] rows[i]).booking_id == id
}

/// Row `i` has the id `id` and is held by `holder`.
pub open spec fn held_at(rows: Seq<Booking>, i: int, id: u128, holder: u128) -> bool {
    0 <= i < rows.len() && rows[i].booking_id == id && rows[i].booked_by == holder
}

/// Row `i` is the first with the id `id` that `holder` holds.
pub open spec fn first_held_at(rows: Seq<Booking>, i: int, id: u128, holder: u128) -> bool {
    held_at(rows, i, id, holder) && forall|k: int| 0 <= k < i ==> !held_at(rows, k, id, holder)
}

/// Some row has the id `id` and is held by `holder`.
pub open spec fn held(rows: Seq<Booking>, id: u128, holder: u128) -> bool {
    exists|i: int| held_at(rows, i, id, holder)
}

/// The position of the row with id `id` that `holder` holds.
pub open spec fn slot(rows: Seq<Booking>, id: u128, holder: u128) -> int {
    choose|i: int| held_at(rows, i, id, holder)
}

impl View for BookingTable {
    type V = Seq<Booking>;

    closed spec fn view(&self) -> Seq<Booking> {
        self.rows@
    }
}

impl BookingTable {
    /// The table's rows are consistent.
    pub open spec fn wf(&self) -> bool {
        consistent(self@)
    }

    /// A table without reservations.
    pub fn new() -> (table: Self)
        ensures
            table@ == Seq::<Booking>::empty(),
            table.wf(),
    {
        BookingTable { rows: Vec::new() }
    }

    /// The number of reservations.
    pub fn len(&self) -> (n: usize)
        ensures
            n == self@.len(),
    {
        self.rows.len()
    }

    /// The reservations, in the order in which they were entered.
    pub fn rows(&self) -> (rows: &Vec<Booking>)
        ensures
            rows@ == self@,
    {
        &self.rows
    }

    /// Builds a table from rows read from the store, or nothing where the
    /// rows are not consistent.
    pub fn from_rows(rows: Vec<Booking>) -> (table: Option<Self>)
        ensures
            match table {
                Some(t) => t@ == rows@ && t.wf(),
                None => !consistent(rows@),
            },
    {
        let n = rows.len();
        let mut i: usize = 0;
        while i < n
            invariant
                n == rows@.len(),
                i <= n,
                consistent(rows@.take(i as int)),
            decreases n - i,
        {
            let b = rows[i];
            if !is_valid_window(b.start_time, b.end_time) {
                return None;
            }
            let mut j: usize = 0;
            while j < i
                invariant
                    n == rows@.len(),
                    i < n,
                    j <= i,
                    b == rows@[i as int],
                    forall|k: int| 0 <= k < j ==> compatible(#[trigger] rows@[k], b),
                decreases i - j,
            {
                let a = rows[j];
                if a.booking_id == b.booking_id || (a.space_id == b.space_id && overlaps(
                    a.start_time,
                    a.end_time,
                    b.start_time,
                    b.end_time,
                )) {
                    return None;
                }
                j += 1;
            }
            i += 1;
        }
        assert(rows@.take(n as int) == rows@);
        Some(BookingTable { rows })
    }
}

/// Looks for the first row with id `id` that `holder` holds.
fn find_held(rows: &Vec<Booking>, id: u128, holder: u128) -> (at: Option<usize>)
    ensures
        match at {
            Some(i) => first_held_at(rows@, i as int, id, holder),
            None => !held(rows@, id, holder),
        },
{
    let n = rows.len();
    let mut i: usize = 0;
    while i < n
        invariant
            n == rows@.len(),
            i <= n,
            forall|k: int| 0 <= k < i ==> !held_at(rows@, k, id, holder),
        decreases n - i,
    {
        if rows[i].booking_id == id && rows[i].booked_by == holder {
            return Some(i);
        }
        i += 1;
    }
    None
}

/// Decides whether some row has the id `id`.
fn is_listed(rows: &Vec<Booking>, id: u128) -> (r: bool)
    ensures
        r == listed(rows@, id),
{
    let n = rows.len();
    let mut i: usize = 0;
    while i < n
        invariant
            n == rows@.len(),
            i <= n,
            forall|k: int| 0 <= k < i ==> (#[trigger] rows@[k]).booking_id != id,
        decreases n - i,
    {
        if rows[i].booking_id == id {
            return true;
        }
        i += 1;
    }
    false
}

/// The overlap check shared by create and extend: decides whether a row
/// other than `skip` lies on `space` and overlaps `[start, end)`.
pub fn has_conflict(
    rows: &Vec<Booking>,
    skip: Option<u128>,
    space: u128,
    start: i64,
    end: i64,
) -> (r: bool)
    ensures
        r == occupied(rows@, skip, space, start as int, end as int),
{
    let n = rows.len();
    let mut i: usize = 0;
    while i < n
        invariant
            n == rows@.len(),
            i <= n,
            forall|k: int|
                0 <= k < i ==> !(skip != Some((#[trigger] rows@[k]).booking_id) && blocks(
                    rows@[k],
                    space,
                    start as int,
                    end as int,
                )),
        decreases n - i,
    {
        let b = rows[i];
        let left_out = match skip {
            Some(s) => s == b.booking_id,
            None => false,
        };
        if !left_out && b.space_id == space && overlaps(b.start_time, b.end_time, start, end) {
            return true;
        }
        i += 1;
    }
    false
}

/// The row that a granted create request enters.
pub open spec fn created(req: CreateBookingReq, holder: u128, now: i64, id: u128) -> Booking {
    Booking {
        booking_id: id,
        space_id: req.space_id,
        booked_by: holder,
        start_time: req.start_time,
        end_time: req.end_time,
        created_at: now,
    }
}

/// Why a create request is refused, or `None` where it is granted. The
/// first rule that fails decides.
pub open spec fn create_refusal(
    rows: Seq<Booking>,
    role: AccessRole,
    req: CreateBookingReq,
    now: int,
    id: u128,
) -> Option<ErrorView> {
    if role != AccessRole::Employee {
        Some(access_denied(AccessRole::Employee))
    } else if !valid_window(req.start_time as int, req.end_time as int) {
        Some(failure(ErrorKind::ValidationError, "invalid timings"@))
    } else if !on_same_day(req.start_time as int, now) {
        Some(failure(ErrorKind::ValidationError, "you can only book for todays date"@))
    } else if req.start_time <= now {
        Some(failure(ErrorKind::ValidationError, "booking time must be in the future"@))
    } else if occupied(rows, None, req.space_id, req.start_time as int, req.end_time as int) {
        Some(failure(ErrorKind::Conflict, "slot is already filled"@))
    } else if listed(rows, id) {
        Some(failure(ErrorKind::DatabaseError, "Failed to create booking"@))
    } else {
        None
    }
}

/// The end that an extension by `extra` seconds gives the reservation `b`,
/// where the calendar can represent it.
pub open spec fn extended_end(b: Booking, extra: int) -> Option<int> {
    shifted(b.end_time as int, extra)
}

/// The latest end that the reservation `b` may ever have, where the
/// calendar can represent it.
pub open spec fn latest_end(b: Booking) -> Option<int> {
    shifted(b.start_time as int, MAX_DURATION as int)
}

/// Why an extension of the reservation `b` by `extra` seconds is refused,
/// or `None` where it is granted.
pub open spec fn extension_refusal(rows: Seq<Booking>, b: Booking, extra: int) -> Option<
    ErrorView,
> {
    if extended_end(b, extra) is None || latest_end(b) is None {
        Some(failure(ErrorKind::ValidationError, "Invalid time calculation"@))
    } else if extended_end(b, extra).unwrap() > latest_end(b).unwrap() {
        Some(failure(ErrorKind::ValidationError, "you can only book for max 2 hours"@))
    } else if extended_end(b, extra).unwrap() <= b.start_time {
        Some(failure(ErrorKind::ValidationError, "invalid timings"@))
    } else if occupied(
        rows,
        Some(b.booking_id),
        b.space_id,
        b.start_time as int,
        extended_end(b, extra).unwrap(),
    ) {
        Some(
            failure(
                ErrorKind::Conflict,
                "The requested extension conflicts with an existing reservation."@,
            ),
        )
    } else {
        None
    }
}

/// Why a request to extend the reservation `id` by `extra` seconds is
/// refused, or `None` where it is granted.
pub open spec fn extend_refusal(
    rows: Seq<Booking>,
    role: AccessRole,
    holder: u128,
    id: u128,
    extra: int,
) -> Option<ErrorView> {
    if role != AccessRole::Employee {
        Some(access_denied(AccessRole::Employee))
    } else if !held(rows, id, holder) {
        Some(failure(ErrorKind::NotFound, "booking not found"@))
    } else {
        extension_refusal(rows, rows[slot(rows, id, holder)], extra)
    }
}

/// The table after the reservation `id` of `holder` got `extra` seconds
/// more.
pub open spec fn extended(rows: Seq<Booking>, holder: u128, id: u128, extra: int) -> Seq<Booking> {
    let i = slot(rows, id, holder);
    rows.update(i, Booking { end_time: (rows[i].end_time + extra) as i64, ..rows[i] })
}

/// Why a request to cancel the reservation `id` is refused, or `None`
/// where it is granted.
pub open spec fn cancel_refusal(rows: Seq<Booking>, role: AccessRole, holder: u128, id: u128)
    -> Option<ErrorView> {
    if role != AccessRole::Employee {
        Some(access_denied(AccessRole::Employee))
    } else if !held(rows, id, holder) {
        Some(failure(ErrorKind::NotFound, "booking not found"@))
    } else {
        None
    }
}

/// The table after the reservation `id` of `holder` was cancelled.
pub open spec fn cancelled(rows: Seq<Booking>, holder: u128, id: u128) -> Seq<Booking> {
    rows.remove(slot(rows, id, holder))
}

/// In a consistent table an id names one row: whoever holds it at one
/// position holds it at `slot`.
pub proof fn lemma_slot_unique(rows: Seq<Booking>, i: int, id: u128, holder: u128)
    requires
        consistent(rows),
        held_at(rows, i, id, holder),
    ensures
        held(rows, id, holder),
        slot(rows, id, holder) == i,
{
}

/// The code with which the store rejects a row that breaks its exclusion
/// constraint.
pub open spec fn exclusion_violation() -> Seq<char> {
    "23P01"@
}

/// The code with which the store rejects a transaction that cannot be
/// serialized with another.
pub open spec fn serialization_failure() -> Seq<char> {
    "40001"@
}

/// The store turned a write away because a concurrent one got there
/// first.
pub open spec fn lost_race(code: Option<Seq<char>>) -> bool {
    code == Some(exclusion_violation()) || code == Some(serialization_failure())
}

/// What a failed write of a reservation is reported as: the conflict,
/// under the words `taken`, where the store says by its code that a
/// concurrent write got there first, and a failure of the store, under the
/// words `trouble`, otherwise.
pub open spec fn write_refusal(code: Option<Seq<char>>, taken: Seq<char>, trouble: Seq<char>)
    -> ErrorView {
    if lost_race(code) {
        failure(ErrorKind::Conflict, taken)
    } else {
        failure(ErrorKind::DatabaseError, trouble)
    }
}

/// Reports a write of a reservation that the store turned away. A write
/// that lost against a concurrent one is the same conflict as the one that
/// the engine finds itself.
pub fn write_failure(code: Option<&str>, taken: &str, trouble: &str) -> (e: AppError)
    ensures
        e@ == write_refusal(
            match code {
                Some(c) => Some(c@),
                None => None,
            },
            taken@,
            trouble@,
        ),
{
    let lost = match code {
        Some(c) => same_text(c, "23P01") || same_text(c, "40001"),
        None => false,
    };
    if lost {
        AppError::conflict(taken)
    } else {
        AppError::database(trouble)
    }
}

/// Reserves a space for a window on behalf of the caller.
///
/// The caller must be an employee. The window must be valid, start on the
/// date of `now` and after `now`, and overlap no reservation on the same
/// space. On success the row is entered under `booking_id` and the answer
/// carries status 201; on refusal the table is left as it was.
pub fn create_booking(
    table: &mut BookingTable,
    claims: &Claims,
    payload: &CreateBookingReq,
    now: i64,
    booking_id: u128,
) -> (r: Result<(u16, BookingId), AppError>)
    requires
        old(table).wf(),
    ensures
        final(table).wf(),
        match r {
            Ok((status, made)) => {
                &&& create_refusal(old(table)@, claims.role, *payload, now as int, booking_id)
                    is None
                &&& status == 201
                &&& made.booking_id == booking_id
                &&& final(table)@ == old(table)@.push(
                    created(*payload, claims.id, now, booking_id),
                )
            },
            Err(e) => {
                &&& create_refusal(old(table)@, claims.role, *payload, now as int, booking_id)
                    == Some(e@)
                &&& final(table)@ == old(table)@
            },
        },
{
    let holder = match require_role(claims, AccessRole::Employee) {
        Ok(id) => id,
        Err(e) => {
            return Err(e);
        },
    };
    if !is_valid_window(payload.start_time, payload.end_time) {
        return Err(AppError::validation("invalid timings"));
    }
    if !same_day(payload.start_time, now) {
        return Err(AppError::validation("you can only book for todays date"));
    }
    if payload.start_time <= now {
        return Err(AppError::validation("booking time must be in the future"));
    }
    if has_conflict(&table.rows, None, payload.space_id, payload.start_time, payload.end_time) {
        return Err(AppError::conflict("slot is already filled"));
    }
    if is_listed(&table.rows, booking_id) {
        return Err(AppError::database("Failed to create booking"));
    }
    let row = Booking {
        booking_id,
        space_id: payload.space_id,
        booked_by: holder,
        start_time: payload.start_time,
        end_time: payload.end_time,
        created_at: now,
    };
    table.rows.push(row);
    Ok((201, BookingId { booking_id }))
}

/// Moves the end of the caller's reservation `booking_id` by the requested
/// number of seconds.
///
/// The caller must be an employee and hold the reservation. The new end
/// must be representable, lie after the start and no more than two hours
/// after it, and the new window must overlap no other reservation on the
/// same space. On refusal the table is left as it was.
pub fn extend_booking(
    table: &mut BookingTable,
    claims: &Claims,
    booking_id: u128,
    payload: &UpdateBookingReq,
) -> (r: Result<BookingId, AppError>)
    requires
        old(table).wf(),
    ensures
        final(table).wf(),
        match r {
            Ok(kept) => {
                &&& extend_refusal(
                    old(table)@,
                    claims.role,
                    claims.id,
                    booking_id,
                    payload.extra_time as int,
                ) is None
                &&& kept.booking_id == booking_id
                &&& final(table)@ == extended(
                    old(table)@,
                    claims.id,
                    booking_id,
                    payload.extra_time as int,
                )
            },
            Err(e) => {
                &&& extend_refusal(
                    old(table)@,
                    claims.role,
                    claims.id,
                    booking_id,
                    payload.extra_time as int,
                ) == Some(e@)
                &&& final(table)@ == old(table)@
            },
        },
{
    let holder = match require_role(claims, AccessRole::Employee) {
        Ok(id) => id,
        Err(e) => {
            return Err(e);
        },
    };
    let at = match find_held(&table.rows, booking_id, holder) {
        Some(i) => i,
        None => {
            return Err(AppError::not_found("booking not found"));
        },
    };
    let row = table.rows[at];
    let new_end = match checked_shift(row.end_time, payload.extra_time) {
        Some(t) => t,
        None => {
            return Err(AppError::validation("Invalid time calculation"));
        },
    };
    let max_end = match checked_shift(row.start_time, MAX_DURATION) {
        Some(t) => t,
        None => {
            return Err(AppError::validation("Invalid time calculation"));
        },
    };
    if new_end > max_end {
        return Err(AppError::validation("you can only book for max 2 hours"));
    }
    if new_end <= row.start_time {
        return Err(AppError::validation("invalid timings"));
    }
    if has_conflict(&table.rows, Some(booking_id), row.space_id, row.start_time, new_end) {
        return Err(
            AppError::conflict("The requested extension conflicts with an existing reservation."),
        );
    }
    let moved = Booking { end_time: new_end, ..row };
    table.rows.set(at, moved);
    Ok(BookingId { booking_id })
}

/// Decides a cancel on rows as they stand in the store, consistent or
/// not, so that a row that should never have been entered can still be
/// removed: hands out the position of the first row with the id
/// `booking_id` that the caller holds.
///
/// The caller must be an employee and hold the reservation; a reservation
/// that is absent and one that another holds are refused alike.
pub fn cancel_row(rows: &Vec<Booking>, claims: &Claims, booking_id: u128) -> (r: Result<
    usize,
    AppError,
>)
    ensures
        match r {
            Ok(at) => {
                &&& cancel_refusal(rows@, claims.role, claims.id, booking_id) is None
                &&& first_held_at(rows@, at as int, booking_id, claims.id)
            },
            Err(e) => cancel_refusal(rows@, claims.role, claims.id, booking_id) == Some(e@),
        },
{
    let holder = match require_role(claims, AccessRole::Employee) {
        Ok(id) => id,
        Err(e) => {
            return Err(e);
        },
    };
    match find_held(rows, booking_id, holder) {
        Some(at) => Ok(at),
        None => Err(AppError::not_found("booking not found")),
    }
}

/// Removes the caller's reservation `booking_id`.
///
/// The caller must be an employee and hold the reservation; a reservation
/// that is absent and one that another holds are refused alike. On refusal
/// the table is left as it was.
pub fn cancel_booking(table: &mut BookingTable, claims: &Claims, booking_id: u128) -> (r: Result<
    (),
    AppError,
>)
    requires
        old(table).wf(),
    ensures
        final(table).wf(),
        match r {
            Ok(()) => {
                &&& cancel_refusal(old(table)@, claims.role, claims.id, booking_id) is None
                &&& final(table)@ == cancelled(old(table)@, claims.id, booking_id)
            },
            Err(e) => {
                &&& cancel_refusal(old(table)@, claims.role, claims.id, booking_id) == Some(e@)
                &&& final(table)@ == old(table)@
            },
        },
{
    let at = match cancel_row(&table.rows, claims, booking_id) {
        Ok(at) => at,
        Err(e) => {
            return Err(e);
        },
    };
    table.rows.remove(at);
    Ok(())
}

/// Taking a row out of a consistent table leaves a consistent table.
pub proof fn lemma_remove_keeps_consistent(rows: Seq<Booking>, at: int)
    requires
        consistent(rows),
        0 <= at < rows.len(),
    ensures
        consistent(rows.remove(at)),
{
}

/// What the holder of the reservation `b` is shown of it.
pub open spec fn summary(b: Booking) -> GetBooking {
    GetBooking {
        space_id: b.space_id,
        booked_by: b.booked_by,
        start_time: b.start_time,
        end_time: b.end_time,
    }
}

/// Picks the reservations of `holder`, as the holder is shown them.
pub open spec fn pick_own(holder: u128) -> spec_fn(Booking) -> Option<GetBooking> {
    |b: Booking|
        if b.booked_by == holder {
            Some(summary(b))
        } else {
            None
        }
}

/// The reservations of `holder`, in table order.
pub open spec fn own_bookings(rows: Seq<Booking>, holder: u128) -> Seq<GetBooking> {
    rows.filter_map(pick_own(holder))
}

/// Lists the caller's own reservations, in table order.
///
/// The caller must be an employee.
pub fn get_own_bookings(table: &BookingTable, claims: &Claims) -> (r: Result<
    Vec<GetBooking>,
    AppError,
>)
    ensures
        match r {
            Ok(list) => claims.role == AccessRole::Employee && list@ == own_bookings(
                table@,
                claims.id,
            ),
            Err(e) => claims.role != AccessRole::Employee && e@ == access_denied(
                AccessRole::Employee,
            ),
        },
{
    let holder = match require_role(claims, AccessRole::Employee) {
        Ok(id) => id,
        Err(e) => {
            return Err(e);
        },
    };
    let n = table.rows.len();
    let mut list: Vec<GetBooking> = Vec::new();
    let mut i: usize = 0;
    while i < n
        invariant
            n == table.rows@.len(),
            i <= n,
            list@ == table.rows@.take(i as int).filter_map(pick_own(holder)),
        decreases n - i,
    {
        let b = table.rows[i];
        proof {
            table.rows@.lemma_filter_map_take_succ(pick_own(holder), i as int);
        }
        if b.booked_by == holder {
            list.push(
                GetBooking {
                    space_id: b.space_id,
                    booked_by: b.booked_by,
                    start_time: b.start_time,
                    end_time: b.end_time,
                },
            );
        }
        i += 1;
    }
    assert(table.rows@.take(n as int) == table.rows@);
    Ok(list)
}

/// Why a request to read the reservation `id` is refused, or `None` where
/// it is granted.
pub open spec fn read_refusal(rows: Seq<Booking>, role: AccessRole, holder: u128, id: u128)
    -> Option<ErrorView> {
    cancel_refusal(rows, role, holder, id)
}

/// Shows the caller the reservation `booking_id`.
///
/// The caller must be an employee and hold the reservation; a reservation
/// that is absent and one that another holds are refused alike.
pub fn get_booking_by_id(table: &BookingTable, claims: &Claims, booking_id: u128) -> (r: Result<
    GetBooking,
    AppError,
>)
    requires
        table.wf(),
    ensures
        match r {
            Ok(shown) => {
                &&& read_refusal(table@, claims.role, claims.id, booking_id) is None
                &&& shown == summary(table@[slot(table@, booking_id, claims.id)])
            },
            Err(e) => read_refusal(table@, claims.role, claims.id, booking_id) == Some(e@),
        },
{
    let holder = match require_role(claims, AccessRole::Employee) {
        Ok(id) => id,
        Err(e) => {
            return Err(e);
        },
    };
    match find_held(&table.rows, booking_id, holder) {
        Some(at) => {
            let b = table.rows[at];
            Ok(
                GetBooking {
                    space_id: b.space_id,
                    booked_by: b.booked_by,
                    start_time: b.start_time,
                    end_time: b.end_time,
                },
            )
        },
        None => Err(AppError::not_found("booking not found")),
    }
}

/// In a consistent table no instant of a space is reserved twice: an
/// instant within one reservation lies within no other reservation on the
/// same space.
pub proof fn lemma_no_double_booking(rows: Seq<Booking>, i: int, j: int, t: int)
    requires
        consistent(rows),
        0 <= i < rows.len(),
        0 <= j < rows.len(),
        i != j,
        rows[i].space_id == rows[j].space_id,
        in_window(t, rows[i].start_time as int, rows[i].end_time as int),
    ensures
        !in_window(t, rows[j].start_time as int, rows[j].end_time as int),
{
}

/// Entering a granted create request leaves the table consistent.
pub proof fn lemma_create_keeps_consistent(
    rows: Seq<Booking>,
    role: AccessRole,
    holder: u128,
    req: CreateBookingReq,
    now: i64,
    id: u128,
)
    requires
        consistent(rows),
        create_refusal(rows, role, req, now as int, id) is None,
    ensures
        consistent(rows.push(created(req, holder, now, id))),
{
}

/// A granted extension keeps the reservation's start, ends it no later than
/// two hours after that start, overlaps no other reservation on the same
/// space, and leaves the table consistent.
pub proof fn lemma_extend_keeps_consistent(
    rows: Seq<Booking>,
    role: AccessRole,
    holder: u128,
    id: u128,
    extra: int,
)
    requires
        consistent(rows),
        extend_refusal(rows, role, holder, id, extra) is None,
    ensures
        held(rows, id, holder),
        ({
            let at = slot(rows, id, holder);
            let was = rows[at];
            let now_is = extended(rows, holder, id, extra)[at];
            &&& held_at(rows, at, id, holder)
            &&& now_is.end_time == was.end_time + extra
            &&& now_is == Booking { end_time: now_is.end_time, ..was }
            &&& was.start_time < now_is.end_time <= was.start_time + MAX_DURATION
            &&& !occupied(
                rows,
                Some(id),
                was.space_id,
                was.start_time as int,
                now_is.end_time as int,
            )
        }),
        consistent(extended(rows, holder, id, extra)),
{
}

/// An extension that would overlap another reservation on the same space
/// is refused as the conflict: where an employee holds the reservation,
/// the instants involved lie within the calendar, and the new end keeps
/// within two hours of the start, the row `other` that the new window
/// overlaps decides.
pub proof fn lemma_overlapping_extension_is_conflict(
    rows: Seq<Booking>,
    holder: u128,
    id: u128,
    extra: int,
    other: int,
)
    requires
        consistent(rows),
        held(rows, id, holder),
        ({
            let b = rows[slot(rows, id, holder)];
            &&& representable(b.start_time as int)
            &&& representable(b.start_time + MAX_DURATION)
            &&& representable(b.end_time + extra)
            &&& b.end_time + extra - b.start_time <= MAX_DURATION
            &&& 0 <= other < rows.len()
            &&& rows[other].booking_id != id
            &&& rows[other].space_id == b.space_id
            &&& windows_overlap(
                rows[other].start_time as int,
                rows[other].end_time as int,
                b.start_time as int,
                b.end_time + extra,
            )
        }),
    ensures
        extend_refusal(rows, AccessRole::Employee, holder, id, extra) == Some(
            failure(
                ErrorKind::Conflict,
                "The requested extension conflicts with an existing reservation."@,
            ),
        ),
{
}

/// Of two create requests for overlapping windows on one space, at most
/// one is granted: once the first is entered, the second is refused, and
/// where the second passes the rules on role and window, the refusal is the
/// conflict. This holds whichever of the two is decided first.
pub proof fn lemma_overlapping_creates_exclude(
    rows: Seq<Booking>,
    first_holder: u128,
    first: CreateBookingReq,
    first_now: i64,
    first_id: u128,
    second_role: AccessRole,
    second: CreateBookingReq,
    second_now: i64,
    second_id: u128,
)
    requires
        consistent(rows),
        first.space_id == second.space_id,
        windows_overlap(
            first.start_time as int,
            first.end_time as int,
            second.start_time as int,
            second.end_time as int,
        ),
        create_refusal(rows, AccessRole::Employee, first, first_now as int, first_id) is None,
    ensures
        ({
            let after = rows.push(created(first, first_holder, first_now, first_id));
            let verdict = create_refusal(after, second_role, second, second_now as int, second_id);
            &&& verdict is Some
            &&& verdict.unwrap().kind != ErrorKind::DatabaseError
            &&& (second_role == AccessRole::Employee && valid_window(
                second.start_time as int,
                second.end_time as int,
            ) && on_same_day(second.start_time as int, second_now as int) && second.start_time
                > second_now) ==> verdict == Some(
                failure(ErrorKind::Conflict, "slot is already filled"@),
            )
        }),
{
    let after = rows.push(created(first, first_holder, first_now, first_id));
    assert(blocks(
        after[rows.len() as int],
        second.space_id,
        second.start_time as int,
        second.end_time as int,
    ));
}

/// A create request is granted only for a window that is valid, starts on
/// the date of `now` and lies in the future; an employee's request that
/// breaks one of these is refused as a validation error.
pub proof fn lemma_create_validates_window(
    rows: Seq<Booking>,
    role: AccessRole,
    req: CreateBookingReq,
    now: i64,
    id: u128,
)
    ensures
        create_refusal(rows, role, req, now as int, id) is None ==> {
            &&& role == AccessRole::Employee
            &&& req.start_time < req.end_time
            &&& req.end_time - req.start_time <= MAX_DURATION
            &&& on_same_day(req.start_time as int, now as int)
            &&& now < req.start_time
        },
        role == AccessRole::Employee && !(valid_window(req.start_time as int, req.end_time as int)
            && on_same_day(req.start_time as int, now as int) && now < req.start_time) ==> {
            &&& create_refusal(rows, role, req, now as int, id) is Some
            &&& create_refusal(rows, role, req, now as int, id).unwrap().kind
                == ErrorKind::ValidationError
        },
{
}

/// Cancelling is final: after a granted cancel, a second cancel of the same
/// id is refused as not found for every employee, and as forbidden for
/// anyone else.
pub proof fn lemma_cancel_twice_not_found(
    rows: Seq<Booking>,
    holder: u128,
    id: u128,
    again_role: AccessRole,
    again_holder: u128,
)
    requires
        consistent(rows),
        cancel_refusal(rows, AccessRole::Employee, holder, id) is None,
    ensures
        !listed(cancelled(rows, holder, id), id),
        cancel_refusal(cancelled(rows, holder, id), again_role, again_holder, id) == Some(
            if again_role == AccessRole::Employee {
                failure(ErrorKind::NotFound, "booking not found"@)
            } else {
                access_denied(AccessRole::Employee)
            },
        ),
{
}

/// A reservation is invisible to everyone but its holder: another
/// employee's request to read it is refused as not found, and it is not
/// among the reservations listed for that employee.
pub proof fn lemma_foreign_booking_invisible(rows: Seq<Booking>, at: int, other: u128)
    requires
        consistent(rows),
        0 <= at < rows.len(),
        rows[at].booked_by != other,
    ensures
        read_refusal(rows, AccessRole::Employee, other, rows[at].booking_id) == Some(
            failure(ErrorKind::NotFound, "booking not found"@),
        ),
        cancel_refusal(rows, AccessRole::Employee, other, rows[at].booking_id) == Some(
            failure(ErrorKind::NotFound, "booking not found"@),
        ),
        extend_refusal(rows, AccessRole::Employee, other, rows[at].booking_id, 0) == Some(
            failure(ErrorKind::NotFound, "booking not found"@),
        ),
        !own_bookings(rows, other).contains(summary(rows[at])),
        forall|k: int|
            0 <= k < own_bookings(rows, other).len() ==> (#[trigger] own_bookings(
                rows,
                other,
            )[k]).booked_by == other,
{
    let mine = own_bookings(rows, other);
    assert forall|k: int| 0 <= k < mine.len() implies (#[trigger] mine[k]).booked_by
        == other by {
        rows.lemma_filter_map_contains(pick_own(other), mine[k]);
    }
}

/// What a manager of `company` is shown of the reservation `b`: nothing
/// unless its holder is an employee of that company.
pub open spec fn company_entry(staff: Seq<Employee>, company: u128, b: Booking) -> Option<
    GetCompanyBooking,
> {
    match found(staff, Quest::Member(b.booked_by, company)) {
        Some(i) => Some(
            GetCompanyBooking {
                booking_id: b.booking_id,
                space_id: b.space_id,
                emp_id: b.booked_by,
                employee_name: staff[i].name,
                email: staff[i].email,
                start_time: b.start_time,
                end_time: b.end_time,
            },
        ),
        None => None,
    }
}

/// Picks the reservations held by employees of `company`.
pub open spec fn pick_company(staff: Seq<Employee>, company: u128) -> spec_fn(Booking) -> Option<
    GetCompanyBooking,
> {
    |b: Booking| company_entry(staff, company, b)
}

/// The reservations held by employees of `company`, in table order.
pub open spec fn company_bookings(rows: Seq<Booking>, staff: Seq<Employee>, company: u128) -> Seq<
    GetCompanyBooking,
> {
    rows.filter_map(pick_company(staff, company))
}

/// Lists the reservations held by the employees of the caller's company,
/// each with its holder's name and address, in table order.
///
/// The caller must be a manager, and must still be in the directory.
pub fn get_company_bookings(table: &BookingTable, staff: &Vec<Employee>, claims: &Claims) -> (r:
    Result<Vec<GetCompanyBooking>, AppError>)
    ensures
        match r {
            Ok(list) => manager_refusal(staff@, claims.role, claims.id) is None && list@
                == company_bookings(table@, staff@, company_of(staff@, claims.id)),
            Err(e) => manager_refusal(staff@, claims.role, claims.id) == Some(e@),
        },
{
    let company = match manager_company(staff, claims) {
        Ok(company) => company,
        Err(e) => {
            return Err(e);
        },
    };
    let n = table.rows.len();
    let mut list: Vec<GetCompanyBooking> = Vec::new();
    let mut i: usize = 0;
    while i < n
        invariant
            n == table.rows@.len(),
            i <= n,
            list@ == table.rows@.take(i as int).filter_map(pick_company(staff@, company)),
        decreases n - i,
    {
        let b = table.rows[i];
        proof {
            table.rows@.lemma_filter_map_take_succ(pick_company(staff@, company), i as int);
        }
        match find_employee(staff, &Wanted::Member(b.booked_by, company)) {
            Some(at) => {
                list.push(
                    GetCompanyBooking {
                        booking_id: b.booking_id,
                        space_id: b.space_id,
                        emp_id: b.booked_by,
                        employee_name: staff[at].name.clone(),
                        email: staff[at].email.clone(),
                        start_time: b.start_time,
                        end_time: b.end_time,
                    },
                );
            },
            None => {},
        }
        i += 1;
    }
    assert(table.rows@.take(n as int) == table.rows@);
    Ok(list)
}

} // verus!
