//! The decisions of the API's application services and handlers: who may
//! do what, what an operation stores, and how lookups and probes are
//! reported. The services fetch and store through the repositories and hand
//! what they got to these functions.

use vstd::prelude::*;
use crate::api::auth::{has_role, Claims};
use crate::api::dto::{
    create_event_check, event_from_request, CreateEventRequest, EventRegistrationStatsResponse, HealthResponse,
};
use crate::api::errors::{ApiError, ApiErrorView, ApiResult};
use crate::clock::now_millis;
use crate::domain::errors::{domain_error_text, DomainError, DomainErrorView};
use crate::domain::models::{Event, EventInvitation, EventRegistration, RegistrationStatus, User};
use crate::domain::services::EventService;
use crate::ids::{parse_uuid_text, parsed_uuid, uuid_text, uuid_to_string};
use crate::text::concat;

verus! {

// ============================================================================
// Who may do what
// ============================================================================

/// The user id a token's subject denotes; a subject that is no UUID is an
/// authentication failure.
pub fn requesting_user_id(claims: &Claims) -> (r: ApiResult<u128>)
    ensures
        match r {
            Ok(id) => parsed_uuid(claims.sub@) == Some(id),
            Err(e) => parsed_uuid(claims.sub@) is None && e@ == (ApiErrorView::Authentication {
                message: "Invalid user ID format"@,
            }),
        },
{
    match parse_uuid_text(claims.sub.as_str()) {
        Ok(id) => Ok(id),
        Err(_) => Err(ApiError::authentication("Invalid user ID format")),
    }
}

/// Only administrators may go on; others are refused with `message`.
pub fn require_admin(claims: &Claims, message: &str) -> (r: ApiResult<()>)
    ensures
        match r {
            Ok(_) => has_role(claims.roles, "admin"@),
            Err(e) => !has_role(claims.roles, "admin"@) && e@ == (ApiErrorView::Authorization { message: message@ }),
        },
{
    if !claims.is_admin() {
        return Err(ApiError::authorization(message));
    }
    Ok(())
}

/// Only administrators and organisers may go on; others are refused with
/// `message`.
pub fn require_staff(claims: &Claims, message: &str) -> (r: ApiResult<()>)
    ensures
        match r {
            Ok(_) => has_role(claims.roles, "admin"@) || has_role(claims.roles, "organizer"@),
            Err(e) => !has_role(claims.roles, "admin"@) && !has_role(claims.roles, "organizer"@) && e@ == (
            ApiErrorView::Authorization { message: message@ }),
        },
{
    if !claims.is_admin() && !claims.is_organizer() {
        return Err(ApiError::authorization(message));
    }
    Ok(())
}

/// A user's own data may be seen and changed by that user and by
/// administrators; a subject that is no UUID is an authentication failure.
pub fn require_self_or_admin(claims: &Claims, user_id: u128) -> (r: ApiResult<()>)
    ensures
        match r {
            Ok(_) => parsed_uuid(claims.sub@) is Some && (parsed_uuid(claims.sub@) == Some(user_id) || has_role(
                claims.roles,
                "admin"@,
            )),
            Err(e) => match parsed_uuid(claims.sub@) {
                None => e@ == (ApiErrorView::Authentication { message: "Invalid user ID format"@ }),
                Some(me) => me != user_id && !has_role(claims.roles, "admin"@) && e@ == (
                ApiErrorView::Authorization { message: "Access denied"@ }),
            },
        },
{
    let me = requesting_user_id(claims)?;
    if user_id != me && !claims.is_admin() {
        return Err(ApiError::authorization("Access denied"));
    }
    Ok(())
}

/// A registration may be seen by its registrant and by administrators; a
/// subject that is no UUID is an authentication failure.
pub fn require_registration_viewer(claims: &Claims, registration: &EventRegistration) -> (r: ApiResult<()>)
    ensures
        match r {
            Ok(_) => parsed_uuid(claims.sub@) is Some && (registration.user_id == parsed_uuid(claims.sub@)
                || has_role(claims.roles, "admin"@)),
            Err(e) => match parsed_uuid(claims.sub@) {
                None => e@ == (ApiErrorView::Authentication { message: "Invalid user ID format"@ }),
                Some(me) => registration.user_id != Some(me) && !has_role(claims.roles, "admin"@) && e@ == (
                ApiErrorView::Authorization { message: "Access denied"@ }),
            },
        },
{
    let me = requesting_user_id(claims)?;
    if registration.user_id != Some(me) && !claims.is_admin() {
        return Err(ApiError::authorization("Access denied"));
    }
    Ok(())
}

/// Only the registrant, `me`, may change or cancel a registration; others
/// are refused with `message`.
pub fn require_registrant(me: u128, registration: &EventRegistration, message: &str) -> (r: ApiResult<()>)
    ensures
        match r {
            Ok(_) => registration.user_id == Some(me),
            Err(e) => registration.user_id != Some(me) && e@ == (ApiErrorView::Authorization { message: message@ }),
        },
{
    if registration.user_id != Some(me) {
        return Err(ApiError::authorization(message));
    }
    Ok(())
}

/// A registration may be deleted by its registrant, `me`, and by
/// administrators and organisers.
pub fn require_registration_remover(claims: &Claims, me: u128, registration: &EventRegistration) -> (r: ApiResult<
    (),
>)
    ensures
        match r {
            Ok(_) => has_role(claims.roles, "admin"@) || has_role(claims.roles, "organizer"@)
                || registration.user_id == Some(me),
            Err(e) => !has_role(claims.roles, "admin"@) && !has_role(claims.roles, "organizer"@)
                && registration.user_id != Some(me) && e@ == (ApiErrorView::Authorization {
                message: "You can only delete your own registration"@,
            }),
        },
{
    let staff = claims.is_admin() || claims.is_organizer();
    if !staff && registration.user_id != Some(me) {
        return Err(ApiError::authorization("You can only delete your own registration"));
    }
    Ok(())
}

// ============================================================================
// Lookups
// ============================================================================

/// The answer to a lookup of `what` with id `id` that found nothing:
/// "<what> with ID <id>" is not found.
pub fn missing(what: &str, id: u128) -> (r: ApiError)
    ensures
        r@ == (ApiErrorView::NotFound { resource: what@ + " with ID "@ + uuid_text(id) }),
{
    let text = uuid_to_string(id);
    let label = concat(what, " with ID ");
    ApiError::NotFound { resource: concat(label.as_str(), text.as_str()) }
}

/// What a lookup by id answers: the entity found, the storage failure, or
/// `missing(what, id)`.
pub fn found<T>(lookup: Result<Option<T>, DomainError>, what: &str, id: u128) -> (r: ApiResult<T>)
    ensures
        match lookup {
            Ok(Some(x)) => r == Ok::<T, ApiError>(x),
            Ok(None) => r matches Err(e) && e@ == (ApiErrorView::NotFound {
                resource: what@ + " with ID "@ + uuid_text(id),
            }),
            Err(d) => r matches Err(e) && e@ == (ApiErrorView::Domain { source: d@ }),
        },
{
    match lookup {
        Ok(Some(x)) => Ok(x),
        Ok(None) => Err(missing(what, id)),
        Err(d) => Err(ApiError::Domain { source: d }),
    }
}

/// The id of the user acting under a token with subject `subject`, given
/// the lookup of the stored user with that identity-provider id: the id of
/// the user found; where none is stored, the subject itself read as a UUID
/// (the identity provider's subject is the user's id); where it is no UUID
/// either, "User not found" as an authentication failure; and a storage
/// failure as it came.
pub fn signed_in_user(lookup: Result<Option<User>, DomainError>, subject: &str) -> (r: ApiResult<u128>)
    ensures
        match lookup {
            Ok(Some(u)) => r == Ok::<u128, ApiError>(u.id),
            Ok(None) => match parsed_uuid(subject@) {
                Some(id) => r == Ok::<u128, ApiError>(id),
                None => r matches Err(e) && e@ == (ApiErrorView::Authentication { message: "User not found"@ }),
            },
            Err(d) => r matches Err(e) && e@ == (ApiErrorView::Domain { source: d@ }),
        },
{
    match lookup {
        Ok(Some(u)) => Ok(u.id),
        Ok(None) => match parse_uuid_text(subject) {
            Ok(id) => Ok(id),
            Err(_) => Err(ApiError::authentication("User not found")),
        },
        Err(d) => Err(ApiError::Domain { source: d }),
    }
}

// ============================================================================
// Events
// ============================================================================

/// The event a creation request makes, organised by `organizer_id`, with
/// id `id`, created at `now`: the request's rules and the domain's rules
/// for new events decide whether it may be made.
pub fn prepare_new_event_at(request: &CreateEventRequest, organizer_id: u128, id: u128, now: i64) -> (r: ApiResult<
    Event,
>)
    ensures
        match r {
            Ok(e) => create_event_check(*request) is Ok && event_from_request(e, *request, organizer_id) && e.id == id
                && e.created_at == now && e.updated_at == now,
            Err(err) => create_event_check(*request) == Err::<(), ApiErrorView>(err@),
        },
{
    let event = request.to_domain_event_at(organizer_id, id, now)?;
    let rules = EventService::new();
    match rules.validate_event(&event) {
        Ok(_) => Ok(event),
        Err(e) => Err(ApiError::Domain { source: e }),
    }
}

/// The event a creation request makes, with a fresh id, created now.
pub fn prepare_new_event(request: &CreateEventRequest, organizer_id: u128) -> (r: ApiResult<Event>)
    ensures
        match r {
            Ok(e) => create_event_check(*request) is Ok && event_from_request(e, *request, organizer_id)
                && e.created_at == e.updated_at,
            Err(err) => create_event_check(*request) == Err::<(), ApiErrorView>(err@),
        },
{
    prepare_new_event_at(request, organizer_id, fresh_event_id(), now_millis())
}

/// A fresh id for an event.
fn fresh_event_id() -> (r: u128) {
    crate::ids::fresh_id()
}

/// The outcome of replacing `existing` by what `request` describes, asked
/// by `organizer_id` at `now`.
pub open spec fn event_update_check(existing: Event, request: CreateEventRequest, organizer_id: u128) -> Result<
    (),
    ApiErrorView,
> {
    if existing.organizer_id != organizer_id {
        Err(ApiErrorView::Authorization { message: "Only the event organizer can update this event"@ })
    } else {
        create_event_check(request)
    }
}

/// The event that replaces `existing` on a request by `organizer_id` at
/// `now`: only the organiser may update it; the new event keeps the old id
/// and creation instant.
pub fn prepare_event_update_at(
    existing: &Event,
    request: &CreateEventRequest,
    organizer_id: u128,
    fresh: u128,
    now: i64,
) -> (r: ApiResult<Event>)
    ensures
        match r {
            Ok(e) => event_update_check(*existing, *request, organizer_id) is Ok && event_from_request(
                e,
                *request,
                organizer_id,
            ) && e.id == existing.id && e.created_at == existing.created_at && e.updated_at == now,
            Err(err) => event_update_check(*existing, *request, organizer_id) == Err::<(), ApiErrorView>(err@),
        },
{
    if existing.organizer_id != organizer_id {
        return Err(ApiError::authorization("Only the event organizer can update this event"));
    }
    let mut updated = request.to_domain_event_at(organizer_id, fresh, now)?;
    updated.id = existing.id;
    updated.created_at = existing.created_at;
    updated.updated_at = now;
    let rules = EventService::new();
    match rules.validate_event(&updated) {
        Ok(_) => Ok(updated),
        Err(e) => Err(ApiError::Domain { source: e }),
    }
}

/// The event that replaces `existing`, updated now.
pub fn prepare_event_update(existing: &Event, request: &CreateEventRequest, organizer_id: u128) -> (r: ApiResult<
    Event,
>)
    ensures
        match r {
            Ok(e) => event_update_check(*existing, *request, organizer_id) is Ok && event_from_request(
                e,
                *request,
                organizer_id,
            ) && e.id == existing.id && e.created_at == existing.created_at,
            Err(err) => event_update_check(*existing, *request, organizer_id) == Err::<(), ApiErrorView>(err@),
        },
{
    prepare_event_update_at(existing, request, organizer_id, fresh_event_id(), now_millis())
}

/// The outcome of deleting `existing` on a request by `organizer_id` at
/// `now`: only the organiser may, and only before the event starts.
pub open spec fn event_deletion_check(existing: Event, organizer_id: u128, now: i64) -> Result<(), ApiErrorView> {
    if existing.organizer_id != organizer_id {
        Err(ApiErrorView::Authorization { message: "Only the event organizer can delete this event"@ })
    } else if existing.start_date <= now {
        Err(
            ApiErrorView::Domain {
                source: DomainErrorView::BusinessRuleViolation {
                    message: "Cannot delete an event that has already started"@,
                },
            },
        )
    } else {
        Ok(())
    }
}

/// Whether `existing` may be deleted on a request by `organizer_id` at
/// `now`.
pub fn check_event_deletion(existing: &Event, organizer_id: u128, now: i64) -> (r: ApiResult<()>)
    ensures
        match r {
            Ok(_) => event_deletion_check(*existing, organizer_id, now) is Ok,
            Err(e) => event_deletion_check(*existing, organizer_id, now) == Err::<(), ApiErrorView>(e@),
        },
{
    if existing.organizer_id != organizer_id {
        return Err(ApiError::authorization("Only the event organizer can delete this event"));
    }
    if existing.start_date <= now {
        return Err(
            ApiError::Domain { source: DomainError::business_rule("Cannot delete an event that has already started") },
        );
    }
    Ok(())
}

// ============================================================================
// Health, users, invitations, registrations
// ============================================================================

/// The health report after probing the database at `timestamp`: healthy
/// when the probe succeeded, and otherwise unhealthy with the failure.
pub fn health_report(probe: &Result<(), DomainError>, timestamp: i64, version: &str) -> (r: HealthResponse)
    ensures
        r.timestamp == timestamp,
        r.version@ == version@,
        match probe {
            Ok(_) => r.status@ == "healthy"@ && r.services.database.details is None,
            Err(e) => r.status@ == "unhealthy"@ && (r.services.database.details matches Some(d) && d@
                == "Database error: "@ + domain_error_text(e@)),
        },
{
    match probe {
        Ok(_) => HealthResponse::healthy(timestamp, version),
        Err(e) => {
            let text = e.to_text();
            let details = concat("Database error: ", text.as_str());
            HealthResponse::unhealthy(timestamp, version, details.as_str())
        },
    }
}

/// A new user's email address must not be taken.
pub fn check_new_user(email_taken: bool) -> (r: ApiResult<()>)
    ensures
        match r {
            Ok(_) => !email_taken,
            Err(e) => email_taken && e@ == (ApiErrorView::Validation {
                field: "email"@,
                message: "Email already exists"@,
            }),
        },
{
    if email_taken {
        return Err(ApiError::validation("email", "Email already exists"));
    }
    Ok(())
}

/// Nobody is invited twice to an event: `user_invited` answers whether the
/// invited user (where there is one) already is, and `email_invited`
/// whether the invited address (where there is one) already is; the user
/// is checked first.
pub fn check_new_invitation(
    invitation: &EventInvitation,
    user_invited: Option<bool>,
    email_invited: Option<bool>,
) -> (r: ApiResult<()>)
    requires
        invitation.invited_user_id is Some <==> user_invited is Some,
        invitation.invited_email is Some && user_invited != Some(true) ==> email_invited is Some,
    ensures
        match r {
            Ok(_) => user_invited != Some(true) && (invitation.invited_email is Some ==> email_invited == Some(false)),
            Err(e) => if user_invited == Some(true) {
                e@ == (ApiErrorView::Validation { field: "user_id"@, message: "User already invited to this event"@ })
            } else {
                invitation.invited_email is Some && email_invited == Some(true) && e@ == (ApiErrorView::Validation {
                    field: "email"@,
                    message: "Email already invited to this event"@,
                })
            },
        },
{
    if let Some(true) = user_invited {
        return Err(ApiError::validation("user_id", "User already invited to this event"));
    }
    if invitation.invited_email.is_some() {
        if let Some(true) = email_invited {
            return Err(ApiError::validation("email", "Email already invited to this event"));
        }
    }
    Ok(())
}

/// A user registers once for an event: `already_registered` answers
/// whether the registrant (a signed-in user) already is.
pub fn check_new_registration(already_registered: bool) -> (r: ApiResult<()>)
    ensures
        match r {
            Ok(_) => !already_registered,
            Err(e) => already_registered && e@ == (ApiErrorView::Validation {
                field: "user_id"@,
                message: "User is already registered for this event"@,
            }),
        },
{
    if already_registered {
        return Err(ApiError::validation("user_id", "User is already registered for this event"));
    }
    Ok(())
}

/// `registration` with status `status` set at `now`: a cancellation records
/// when, a check-in records when, and any change updates the instant of the
/// last change.
pub open spec fn with_status(registration: EventRegistration, status: RegistrationStatus, now: i64) -> EventRegistration {
    EventRegistration {
        status,
        cancelled_at: if status == RegistrationStatus::Cancelled {
            Some(now)
        } else {
            registration.cancelled_at
        },
        checked_in_at: if status == RegistrationStatus::Attended {
            Some(now)
        } else {
            registration.checked_in_at
        },
        updated_at: now,
        ..registration
    }
}

/// Sets the status of `registration` at `now`.
pub fn change_registration_status(registration: EventRegistration, status: RegistrationStatus, now: i64) -> (r:
    EventRegistration)
    ensures
        r == with_status(registration, status, now),
{
    let mut registration = registration;
    match status {
        RegistrationStatus::Cancelled => {
            registration.cancelled_at = Some(now);
        },
        RegistrationStatus::Attended => {
            registration.checked_in_at = Some(now);
        },
        _ => {},
    }
    registration.status = status;
    registration.updated_at = now;
    registration
}

/// Groups of registrations counted in an event's statistics.
pub ghost enum StatusGroup {
    /// Registered or attended: they hold a place.
    HoldingPlace,
    Attended,
    Waitlisted,
    Cancelled,
}

/// A registration with `status` counts in `group`.
pub open spec fn in_group(status: RegistrationStatus, group: StatusGroup) -> bool {
    match group {
        StatusGroup::HoldingPlace => status == RegistrationStatus::Registered || status
            == RegistrationStatus::Attended,
        StatusGroup::Attended => status == RegistrationStatus::Attended,
        StatusGroup::Waitlisted => status == RegistrationStatus::Waitlisted,
        StatusGroup::Cancelled => status == RegistrationStatus::Cancelled,
    }
}

/// How many of `regs` count in `group`.
pub open spec fn count_in(regs: Seq<EventRegistration>, group: StatusGroup) -> nat
    decreases regs.len(),
{
    if regs.len() == 0 {
        0
    } else {
        count_in(regs.drop_last(), group) + (if in_group(regs.last().status, group) {
            1nat
        } else {
            0nat
        })
    }
}

/// The counts of `regs` by status.
pub open spec fn stats_of(regs: Seq<EventRegistration>) -> EventRegistrationStatsResponse {
    EventRegistrationStatsResponse {
        total_registered: count_in(regs, StatusGroup::HoldingPlace) as usize,
        total_attended: count_in(regs, StatusGroup::Attended) as usize,
        total_waitlisted: count_in(regs, StatusGroup::Waitlisted) as usize,
        total_cancelled: count_in(regs, StatusGroup::Cancelled) as usize,
    }
}

/// No group counts more registrations than there are.
pub proof fn count_in_bound(regs: Seq<EventRegistration>, group: StatusGroup)
    ensures
        count_in(regs, group) <= regs.len(),
    decreases regs.len(),
{
    if regs.len() > 0 {
        count_in_bound(regs.drop_last(), group);
    }
}

/// The registrations of an event counted by status: places held
/// (registered or attended), attended, waitlisted and cancelled.
pub fn registration_stats(regs: &Vec<EventRegistration>) -> (r: EventRegistrationStatsResponse)
    ensures
        r == stats_of(regs@),
        r.total_registered == count_in(regs@, StatusGroup::HoldingPlace),
        r.total_attended == count_in(regs@, StatusGroup::Attended),
        r.total_waitlisted == count_in(regs@, StatusGroup::Waitlisted),
        r.total_cancelled == count_in(regs@, StatusGroup::Cancelled),
{
    let mut registered: usize = 0;
    let mut present: usize = 0;
    let mut waiting: usize = 0;
    let mut gone: usize = 0;
    let mut i: usize = 0;
    while i < regs.len()
        invariant
            i <= regs.len(),
            registered == count_in(regs@.subrange(0, i as int), StatusGroup::HoldingPlace),
            present == count_in(regs@.subrange(0, i as int), StatusGroup::Attended),
            waiting == count_in(regs@.subrange(0, i as int), StatusGroup::Waitlisted),
            gone == count_in(regs@.subrange(0, i as int), StatusGroup::Cancelled),
        decreases regs.len() - i,
    {
        let ghost before = regs@.subrange(0, i as int);
        let ghost after = regs@.subrange(0, i + 1);
        assert(after.drop_last() =~= before);
        proof {
            count_in_bound(before, StatusGroup::HoldingPlace);
            count_in_bound(before, StatusGroup::Attended);
            count_in_bound(before, StatusGroup::Waitlisted);
            count_in_bound(before, StatusGroup::Cancelled);
        }
        let status = regs[i].status;
        match status {
            RegistrationStatus::Registered => {
                registered = registered + 1;
            },
            RegistrationStatus::Attended => {
                registered = registered + 1;
                present = present + 1;
            },
            RegistrationStatus::Waitlisted => {
                waiting = waiting + 1;
            },
            RegistrationStatus::Cancelled => {
                gone = gone + 1;
            },
            RegistrationStatus::NoShow => {},
        }
        i = i + 1;
    }
    assert(regs@.subrange(0, regs@.len() as int) =~= regs@);
    EventRegistrationStatsResponse {
        total_registered: registered,
        total_attended: present,
        total_waitlisted: waiting,
        total_cancelled: gone,
    }
}

/// How many of an event's registrations hold a place (registered or
/// attended).
pub fn attendance_count(regs: &Vec<EventRegistration>) -> (r: usize)
    ensures
        r == count_in(regs@, StatusGroup::HoldingPlace),
{
    registration_stats(regs).total_registered
}

/// How many of an event's registrations are on the waiting list.
pub fn waitlist_count(regs: &Vec<EventRegistration>) -> (r: usize)
    ensures
        r == count_in(regs@, StatusGroup::Waitlisted),
{
    registration_stats(regs).total_waitlisted
}

} // verus!
