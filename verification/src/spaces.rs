//! Spaces: the rooms and desks that can be reserved, and the questions
//! about when they are free.

use vstd::prelude::*;
use vstd::seq_lib::{to_multiset_build, to_multiset_insert};

use crate::booking::{
    create_refusal, has_conflict, occupied, AvailableBooking, Booking, BookingTable,
    CreateBookingReq,
};
use crate::employee::{filter_pattern, pattern_of};
use crate::error::{failure, AppError, ErrorKind, ErrorView};
use crate::guard::{access_denied, require_role};
use crate::instant::{on_same_day, same_day};
use crate::jwt::{AccessRole, Claims};
use crate::query::{page_of, paginate, Page};
use crate::search::{first, lemma_filter_map_keeps, lemma_first_found};
use crate::text::copy_text;

verus! {

/// A space as the store holds it.
#[derive(Debug)]
pub struct Space {
    pub space_id: u128,
    pub name: String,
    /// The number of people that the space takes; more than none.
    pub size: i32,
    pub description: Option<String>,
    pub created_at: i64,
}

/// A request to add a space.
#[derive(Debug)]
pub struct CreateSpaceReq {
    pub name: String,
    pub size: i32,
    pub description: Option<String>,
}

/// The id of a space.
#[derive(Clone, Copy, Debug, PartialEq, Eq, Structural)]
pub struct SpaceId {
    pub space_id: u128,
}

/// How the list of spaces is asked for.
#[derive(Debug)]
pub struct SpaceQueryParams {
    pub page: Option<i64>,
    pub limit: Option<i64>,
    pub name: Option<String>,
    pub size: Option<i32>,
}

/// What the administrator asks to change of a space.
#[derive(Debug)]
pub struct UpdateSpaceReq {
    pub name: Option<String>,
    pub size: Option<i32>,
}

/// The window `[start_time, end_time)` for which free spaces are sought.
#[derive(Clone, Copy, Debug, PartialEq, Eq, Structural)]
pub struct SpaceAvailableTimings {
    pub start_time: i64,
    pub end_time: i64,
}

/// A space that is free for a window.
#[derive(Debug)]
pub struct SpaceAvailable {
    pub space_id: u128,
    pub name: String,
    pub size: i32,
    pub description: Option<String>,
}

/// The listing of spaces that the store is asked for.
#[derive(Debug)]
pub struct SpaceListing {
    pub page: Page,
    pub name_pattern: Option<String>,
    pub size: Option<i32>,
}

/// The spaces with the id `id`.
pub open spec fn with_space_id(id: u128) -> spec_fn(Space) -> bool {
    |s: Space| s.space_id == id
}

/// The position in `spaces` of the first space with the id `id`.
pub open spec fn space_at(spaces: Seq<Space>, id: u128) -> Option<int> {
    first(spaces, with_space_id(id))
}

/// Looks in `spaces` for the first space with the id `id`.
pub fn find_space(spaces: &Vec<Space>, id: u128) -> (at: Option<usize>)
    ensures
        match at {
            Some(i) => space_at(spaces@, id) == Some(i as int) && i < spaces@.len()
                && spaces@[i as int].space_id == id,
            None => space_at(spaces@, id) is None,
        },
{
    let n = spaces.len();
    let mut i: usize = 0;
    while i < n
        invariant
            n == spaces@.len(),
            i <= n,
            forall|k: int| 0 <= k < i ==> !with_space_id(id)(#[trigger] spaces@[k]),
        decreases n - i,
    {
        if spaces[i].space_id == id {
            proof {
                lemma_first_found(spaces@, with_space_id(id), i as int);
            }
            return Some(i);
        }
        i += 1;
    }
    None
}

/// A copy of a space.
fn copy_space(s: &Space) -> (copy: Space)
    ensures
        copy == *s,
{
    Space {
        space_id: s.space_id,
        name: s.name.clone(),
        size: s.size,
        description: copy_text(&s.description),
        created_at: s.created_at,
    }
}

/// Why a request to add a space is refused, or `None` where it is
/// granted.
pub open spec fn space_creation_refusal(role: AccessRole, size: i32) -> Option<ErrorView> {
    if role != AccessRole::Admin {
        Some(access_denied(AccessRole::Admin))
    } else if size <= 0 {
        Some(failure(ErrorKind::BadRequest, "space size must be greater than 0"@))
    } else {
        None
    }
}

/// Adds a space.
///
/// The caller must be the administrator and the size must be more than
/// none. On success the answer carries status 201 and the space to enter
/// under `space_id`.
pub fn create_spaces(claims: &Claims, payload: &CreateSpaceReq, space_id: u128, now: i64) -> (r:
    Result<(u16, Space), AppError>)
    ensures
        match r {
            Ok((status, space)) => {
                &&& space_creation_refusal(claims.role, payload.size) is None
                &&& status == 201
                &&& space == Space {
                    space_id,
                    name: payload.name,
                    size: payload.size,
                    description: payload.description,
                    created_at: now,
                }
            },
            Err(e) => space_creation_refusal(claims.role, payload.size) == Some(e@),
        },
{
    if let Err(e) = require_role(claims, AccessRole::Admin) {
        return Err(e);
    }
    if payload.size <= 0 {
        return Err(AppError::bad_request("space size must be greater than 0"));
    }
    Ok(
        (
            201,
            Space {
                space_id,
                name: payload.name.clone(),
                size: payload.size,
                description: copy_text(&payload.description),
                created_at: now,
            },
        ),
    )
}

/// Shows the space `space_id` to anyone who asks.
pub fn get_spaces_by_id(spaces: &Vec<Space>, space_id: u128) -> (r: Result<Space, AppError>)
    ensures
        match r {
            Ok(shown) => space_at(spaces@, space_id) matches Some(i) && shown == spaces@[i],
            Err(e) => space_at(spaces@, space_id) is None && e@ == failure(
                ErrorKind::NotFound,
                "space not found"@,
            ),
        },
{
    match find_space(spaces, space_id) {
        Some(at) => Ok(copy_space(&spaces[at])),
        None => Err(AppError::not_found("space not found")),
    }
}

/// Works out the listing of spaces that the store is to be asked for: the
/// page, the pattern that the names must match, and the size asked for.
pub fn get_spaces(params: &SpaceQueryParams) -> (r: Result<SpaceListing, AppError>)
    ensures
        match r {
            Ok(listing) => {
                &&& Some(listing.page) == page_of(params.page, params.limit)
                &&& match listing.name_pattern {
                    Some(p) => pattern_of(params.name) == Some(p@),
                    None => pattern_of(params.name) is None,
                }
                &&& listing.size == params.size
            },
            Err(e) => page_of(params.page, params.limit) is None && e@ == failure(
                ErrorKind::BadRequest,
                "invalid page or limit"@,
            ),
        },
{
    match paginate(params.page, params.limit) {
        Some(page) => Ok(
            SpaceListing { page, name_pattern: filter_pattern(&params.name), size: params.size },
        ),
        None => Err(AppError::bad_request("invalid page or limit")),
    }
}

/// Why a request to change the space `id` is refused, or `None` where it
/// is granted.
pub open spec fn space_update_refusal(
    spaces: Seq<Space>,
    role: AccessRole,
    id: u128,
    req: UpdateSpaceReq,
) -> Option<ErrorView> {
    if role != AccessRole::Admin {
        Some(access_denied(AccessRole::Admin))
    } else if req.size is Some && req.size.unwrap() <= 0 {
        Some(failure(ErrorKind::BadRequest, "space size must be greater than 0"@))
    } else if req.name is None && req.size is None {
        Some(failure(ErrorKind::BadRequest, "no parameters provided"@))
    } else if space_at(spaces, id) is None {
        Some(failure(ErrorKind::NotFound, "space not found"@))
    } else {
        None
    }
}

/// The space `s` once the changes of `req` are made.
pub open spec fn updated_space(s: Space, req: UpdateSpaceReq) -> Space {
    Space {
        space_id: s.space_id,
        name: match req.name {
            Some(name) => name,
            None => s.name,
        },
        size: match req.size {
            Some(size) => size,
            None => s.size,
        },
        description: s.description,
        created_at: s.created_at,
    }
}

/// Changes the name or the size of the space `space_id`, and shows the
/// space as it then stands.
pub fn update_space(
    spaces: &Vec<Space>,
    claims: &Claims,
    space_id: u128,
    payload: &UpdateSpaceReq,
) -> (r: Result<Space, AppError>)
    ensures
        match r {
            Ok(shown) => space_update_refusal(spaces@, claims.role, space_id, *payload) is None
                && shown == updated_space(
                spaces@[space_at(spaces@, space_id).unwrap()],
                *payload,
            ),
            Err(e) => space_update_refusal(spaces@, claims.role, space_id, *payload) == Some(e@),
        },
{
    if let Err(e) = require_role(claims, AccessRole::Admin) {
        return Err(e);
    }
    if let Some(size) = payload.size {
        if size <= 0 {
            return Err(AppError::bad_request("space size must be greater than 0"));
        }
    }
    if payload.name.is_none() && payload.size.is_none() {
        return Err(AppError::bad_request("no parameters provided"));
    }
    let at = match find_space(spaces, space_id) {
        Some(at) => at,
        None => {
            return Err(AppError::not_found("space not found"));
        },
    };
    let s = &spaces[at];
    let name = match &payload.name {
        Some(name) => name.clone(),
        None => s.name.clone(),
    };
    let size = match payload.size {
        Some(size) => size,
        None => s.size,
    };
    Ok(
        Space {
            space_id: s.space_id,
            name,
            size,
            description: copy_text(&s.description),
            created_at: s.created_at,
        },
    )
}

/// Why a request to remove the space `id` is refused, or `None` where it
/// is granted.
pub open spec fn space_removal_refusal(spaces: Seq<Space>, role: AccessRole, id: u128) -> Option<
    ErrorView,
> {
    if role != AccessRole::Admin {
        Some(access_denied(AccessRole::Admin))
    } else if space_at(spaces, id) is None {
        Some(failure(ErrorKind::NotFound, "space not found"@))
    } else {
        None
    }
}

/// Grants the removal of the space `space_id`, with status 204.
pub fn delete_space(spaces: &Vec<Space>, claims: &Claims, space_id: u128) -> (r: Result<
    u16,
    AppError,
>)
    ensures
        match r {
            Ok(status) => space_removal_refusal(spaces@, claims.role, space_id) is None && status
                == 204,
            Err(e) => space_removal_refusal(spaces@, claims.role, space_id) == Some(e@),
        },
{
    if let Err(e) = require_role(claims, AccessRole::Admin) {
        return Err(e);
    }
    match find_space(spaces, space_id) {
        Some(_) => Ok(204),
        None => Err(AppError::not_found("space not found")),
    }
}

/// What is offered of the space `s` where it is free.
pub open spec fn offer(s: Space) -> SpaceAvailable {
    SpaceAvailable { space_id: s.space_id, name: s.name, size: s.size, description: s.description }
}

/// Picks the spaces on which no reservation overlaps `[start, end)`.
pub open spec fn pick_free(rows: Seq<Booking>, start: int, end: int) -> spec_fn(Space) -> Option<
    SpaceAvailable,
> {
    |s: Space|
        if occupied(rows, None, s.space_id, start, end) {
            None
        } else {
            Some(offer(s))
        }
}

/// The spaces that are free for `[start, end)`, in the order of `spaces`.
pub open spec fn available(spaces: Seq<Space>, rows: Seq<Booking>, start: int, end: int) -> Seq<
    SpaceAvailable,
> {
    spaces.filter_map(pick_free(rows, start, end))
}

/// Lists the spaces that are free for the window asked for: those on
/// which no reservation overlaps it, in the order of `spaces`.
pub fn get_available_spaces_at_given_time(
    spaces: &Vec<Space>,
    table: &BookingTable,
    payload: &SpaceAvailableTimings,
) -> (list: Vec<SpaceAvailable>)
    ensures
        list@ == available(spaces@, table@, payload.start_time as int, payload.end_time as int),
{
    let ghost pick = pick_free(table@, payload.start_time as int, payload.end_time as int);
    let n = spaces.len();
    let mut list: Vec<SpaceAvailable> = Vec::new();
    let mut i: usize = 0;
    while i < n
        invariant
            n == spaces@.len(),
            i <= n,
            pick == pick_free(table@, payload.start_time as int, payload.end_time as int),
            list@ == spaces@.take(i as int).filter_map(pick),
        decreases n - i,
    {
        let s = &spaces[i];
        proof {
            spaces@.lemma_filter_map_take_succ(pick, i as int);
        }
        if !has_conflict(table.rows(), None, s.space_id, payload.start_time, payload.end_time) {
            list.push(
                SpaceAvailable {
                    space_id: s.space_id,
                    name: s.name.clone(),
                    size: s.size,
                    description: copy_text(&s.description),
                },
            );
        }
        i += 1;
    }
    assert(spaces@.take(n as int) == spaces@);
    list
}

/// The free spaces are exactly the spaces without an overlapping
/// reservation: every space listed is one of `spaces` on which nothing
/// overlaps the window, and every such space is listed.
pub proof fn lemma_available_exactly_free(
    spaces: Seq<Space>,
    rows: Seq<Booking>,
    start: int,
    end: int,
)
    ensures
        forall|k: int|
            0 <= k < available(spaces, rows, start, end).len() ==> {
                let shown = #[trigger] available(spaces, rows, start, end)[k];
                &&& !occupied(rows, None, shown.space_id, start, end)
                &&& exists|i: int| 0 <= i < spaces.len() && shown == offer(#[trigger] spaces[i])
            },
        forall|i: int|
            0 <= i < spaces.len() && !occupied(
                rows,
                None,
                (#[trigger] spaces[i]).space_id,
                start,
                end,
            ) ==> available(spaces, rows, start, end).contains(offer(spaces[i])),
{
    let pick = pick_free(rows, start, end);
    let list = available(spaces, rows, start, end);
    assert forall|k: int| 0 <= k < list.len() implies {
        let shown = #[trigger] list[k];
        &&& !occupied(rows, None, shown.space_id, start, end)
        &&& exists|i: int| 0 <= i < spaces.len() && shown == offer(#[trigger] spaces[i])
    } by {
        spaces.lemma_filter_map_contains(pick, list[k]);
    }
    assert forall|i: int|
        0 <= i < spaces.len() && !occupied(
            rows,
            None,
            (#[trigger] spaces[i]).space_id,
            start,
            end,
        ) implies list.contains(offer(spaces[i])) by {
        lemma_filter_map_keeps(spaces, pick, i);
    }
}

/// What is listed as free can be reserved, as far as conflicts go: a
/// request for the window on a space that is listed is not refused as a
/// conflict.
pub proof fn lemma_available_is_free_to_reserve(
    spaces: Seq<Space>,
    rows: Seq<Booking>,
    k: int,
    req: CreateBookingReq,
    role: AccessRole,
    now: int,
    id: u128,
)
    requires
        0 <= k < available(spaces, rows, req.start_time as int, req.end_time as int).len(),
        req.space_id == available(
            spaces,
            rows,
            req.start_time as int,
            req.end_time as int,
        )[k].space_id,
    ensures
        create_refusal(rows, role, req, now, id) matches Some(refusal) ==> refusal.kind
            != ErrorKind::Conflict,
{
    lemma_available_exactly_free(spaces, rows, req.start_time as int, req.end_time as int);
}

/// The window of the reservation `b`.
pub open spec fn window_of(b: Booking) -> AvailableBooking {
    AvailableBooking { start_time: b.start_time, end_time: b.end_time }
}

/// Picks the windows of the reservations on `space` that start on the
/// date of `now`.
pub open spec fn pick_taken(space: u128, now: int) -> spec_fn(Booking) -> Option<
    AvailableBooking,
> {
    |b: Booking|
        if b.space_id == space && on_same_day(b.start_time as int, now) {
            Some(window_of(b))
        } else {
            None
        }
}

/// The windows taken on `space` on the date of `now`, in table order.
pub open spec fn taken_today(rows: Seq<Booking>, space: u128, now: int) -> Seq<AvailableBooking> {
    rows.filter_map(pick_taken(space, now))
}

/// The windows stand in the order of their starts.
pub open spec fn by_start(list: Seq<AvailableBooking>) -> bool {
    forall|i: int, j: int|
        0 <= i < j < list.len() ==> (#[trigger] list[i]).start_time <= (
        #[trigger] list[j]).start_time
}

/// Lists the windows that are taken on the space `space_id` on the date
/// of `now`, earliest start first.
pub fn get_booked_time_spaces_by_id(table: &BookingTable, space_id: u128, now: i64) -> (list: Vec<
    AvailableBooking,
>)
    ensures
        by_start(list@),
        list@.to_multiset() == taken_today(table@, space_id, now as int).to_multiset(),
{
    let ghost pick = pick_taken(space_id, now as int);
    let rows = table.rows();
    let n = rows.len();
    let mut list: Vec<AvailableBooking> = Vec::new();
    let mut i: usize = 0;
    while i < n
        invariant
            n == rows@.len(),
            i <= n,
            pick == pick_taken(space_id, now as int),
            by_start(list@),
            list@.to_multiset() == rows@.take(i as int).filter_map(pick).to_multiset(),
        decreases n - i,
    {
        let b = rows[i];
        proof {
            rows@.lemma_filter_map_take_succ(pick, i as int);
        }
        if b.space_id == space_id && same_day(b.start_time, now) {
            let w = AvailableBooking { start_time: b.start_time, end_time: b.end_time };
            let m = list.len();
            let mut k: usize = 0;
            while k < m && list[k].start_time <= w.start_time
                invariant
                    m == list@.len(),
                    k <= m,
                    forall|j: int| 0 <= j < k ==> (#[trigger] list@[j]).start_time <= w.start_time,
                decreases m - k,
            {
                k += 1;
            }
            let ghost before = list@;
            list.insert(k, w);
            proof {
                to_multiset_insert(before, k as int, w);
                let prev = rows@.take(i as int).filter_map(pick);
                assert(prev + seq![w] =~= prev.push(w));
                to_multiset_build(prev, w);
            }
        }
        i += 1;
    }
    assert(rows@.take(n as int) == rows@);
    list
}

} // verus!
