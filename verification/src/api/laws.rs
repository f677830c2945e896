//! Properties of the API that hold across its operations.

use vstd::prelude::*;
use crate::api::auth::{mock_user_named};
use crate::api::dto::{
    create_event_check, event_from_request, pagination_info, query_limit, query_offset, user_updated,
    CreateEventRequest, UpdateUserRequest,
};
use crate::api::errors::{api_error_code, api_status, error_body, ApiErrorView};
use crate::api::services::{count_in, StatusGroup};
use crate::domain::models::{event_creation_check, pagination_check, Event, EventRegistration, User};

verus! {

/// Every error is answered with a client-error or server-error status.
pub proof fn law_error_status_is_an_error(e: ApiErrorView)
    ensures
        400 <= api_status(e) <= 599,
{
}

/// The body of an error response carries the error's code.
pub proof fn law_error_body_carries_code(e: ApiErrorView)
    ensures
        error_body(e).code == api_error_code(e),
{
}

/// Whatever page and limit a listing asks for, the page it gets is valid.
pub proof fn law_query_gives_valid_page(page: Option<u32>, limit: Option<u32>)
    ensures
        pagination_check(query_offset(page, limit), query_limit(limit)) is Ok,
{
    let p: int = match page {
        Some(p) => p as int,
        None => 1,
    };
    let before: int = if p == 0 {
        0
    } else {
        p - 1
    };
    let l = query_limit(limit);
    assert(0 <= before * l <= 4294967295 * 1000) by (nonlinear_arith)
        requires
            0 <= before <= 4294967295,
            1 <= l <= 1000,
    ;
}

/// The page a listing asks for by number is the page its answer reports:
/// for every page from 1 on (whose offset fits), the position computed
/// from the offset gives back the page number.
pub proof fn law_page_number_round_trip(page: u32, limit: Option<u32>, total_count: i64, has_next: bool)
    requires
        page >= 1,
    ensures
        pagination_info(query_offset(Some(page), limit), query_limit(limit), total_count, has_next).page == page,
        pagination_info(query_offset(Some(page), limit), query_limit(limit), total_count, has_next).has_prev == (
        page > 1),
{
    let l: int = query_limit(limit) as int;
    let before = (page - 1) as int;
    assert(0 <= before * l <= 4294967295 * 1000) by (nonlinear_arith)
        requires
            0 <= before <= 4294967295,
            1 <= l <= 1000,
    ;
    assert((before * l) / l == before) by (nonlinear_arith)
        requires
            1 <= l,
            0 <= before,
    ;
}

/// The request rules for a new event include the domain's: an event made
/// from a request that passes them also passes the domain's rules.
pub proof fn law_request_rules_imply_domain_rules(e: Event, request: CreateEventRequest, organizer_id: u128)
    requires
        create_event_check(request) is Ok,
        event_from_request(e, request, organizer_id),
    ensures
        event_creation_check(e) is Ok,
{
}

/// An update that asks for nothing changes nothing but the instant of the
/// last change.
pub proof fn law_empty_user_update(user: User, now: i64)
    ensures
        ({
            let nothing = UpdateUserRequest { email: None, name: None, company_id: None, role: None, is_active: None };
            user_updated(user, nothing, now) == User { updated_at: now, ..user }
        }),
{
}

/// The token of a mock login names the user who logged in: presented as
/// `Bearer <token>`, it authenticates that user.
pub proof fn law_mock_login_round_trip(user: Seq<char>)
    ensures
        mock_user_named(Some("Bearer "@ + ("mock-"@ + user))) == Some(user),
{
    reveal_strlit("Bearer ");
    reveal_strlit("mock-");
    reveal_strlit("Bearer mock-");
    let header = "Bearer "@ + ("mock-"@ + user);
    assert("Bearer mock-"@.is_prefix_of(header)) by {
        assert(header.subrange(0, 12) =~= "Bearer mock-"@);
    }
    assert(header.subrange(12, header.len() as int) =~= user);
}

/// Attendees are counted among the registrations that hold a place, and no
/// two of the groups registered, waitlisted and cancelled hold together
/// more registrations than there are.
pub proof fn law_stats_are_consistent(regs: Seq<EventRegistration>)
    ensures
        count_in(regs, StatusGroup::Attended) <= count_in(regs, StatusGroup::HoldingPlace),
        count_in(regs, StatusGroup::HoldingPlace) + count_in(regs, StatusGroup::Waitlisted) + count_in(
            regs,
            StatusGroup::Cancelled,
        ) <= regs.len(),
    decreases regs.len(),
{
    if regs.len() > 0 {
        law_stats_are_consistent(regs.drop_last());
    }
}

} // verus!
