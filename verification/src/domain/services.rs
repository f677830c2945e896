//! Domain services: the business rules of events, invitations, registrations
//! and users, free of any storage.

use vstd::prelude::*;
use crate::clock::{now_millis, LATEST_MILLIS, MILLIS_PER_DAY};
use crate::domain::errors::{unit_outcome, DomainError, DomainErrorView, DomainResult};
use crate::domain::models::{
    event_creation_check, invitation_creation_check, DomainValidation, Event, EventDomainValidation,
    EventInvitation, EventRegistration, InvitationDomainValidation, InvitationStatus, RegistrationStatus, User,
    registration_open_check, user_creation_check,
};
use crate::ids::{fresh_id, uuid_text, uuid_to_string};

verus! {

// ============================================================================
// Events
// ============================================================================

#[derive(Debug, Clone, Copy)]
pub struct EventService;

/// The places left when `current_registrations` are taken of `max`
/// (computed as `(max as usize).saturating_sub(current) as i32`).
pub open spec fn available_spots(max: i32, current_registrations: usize) -> i32 {
    let capacity = max as usize;
    (if capacity >= current_registrations {
        (capacity - current_registrations) as usize
    } else {
        0usize
    }) as i32
}

/// A registration goes on the waitlist when the event keeps one, has a
/// capacity, and that capacity is reached.
pub open spec fn waitlist_needed(event: Event, current_registrations: usize) -> bool {
    event.allow_waitlist && match event.max_attendees {
        Some(max) => current_registrations >= max as usize,
        None => false,
    }
}

/// Waitlisting: an event that keeps no waitlist, or has no capacity, never
/// puts a registration on one; an event that keeps one puts registrations
/// there exactly from the moment its capacity is reached, and once it does,
/// it does so for every larger count of registrations (a capacity below
/// zero is read as the unsigned count it converts to).
pub proof fn law_waitlist_only_where_kept(event: Event, count: usize, more: usize)
    ensures
        waitlist_needed(event, count) ==> event.allow_waitlist,
        event.max_attendees is None ==> !waitlist_needed(event, count),
        event.max_attendees matches Some(m) ==> (event.allow_waitlist && 0 <= m ==> (waitlist_needed(
            event,
            count,
        ) <==> m <= count)),
        waitlist_needed(event, count) && count <= more ==> waitlist_needed(event, more),
{
}

impl EventService {
    pub fn new() -> Self {
        EventService
    }

    /// The rules an event must meet to be created.
    pub fn validate_event(&self, event: &Event) -> (r: DomainResult<()>)
        ensures
            unit_outcome(r, event_creation_check(*event)),
    {
        event.validate_for_creation()
    }

    /// Whether the event takes registrations now: it does until it starts.
    /// The outcome is that of `can_be_registered_for` at the instant read
    /// from the clock.
    pub fn can_register_for_event(&self, event: &Event) -> (r: DomainResult<()>)
        ensures
            exists|now: i64|
                0 <= now < LATEST_MILLIS && #[trigger] unit_outcome(r, registration_open_check(*event, now)),
            r is Err ==> r->Err_0@ == (DomainErrorView::BusinessRuleViolation {
                message: "Cannot register for an event that has already started"@,
            }),
            r is Err ==> event.start_date < LATEST_MILLIS,
    {
        let now = now_millis();
        event.can_be_registered_for(now)
    }

    /// How many places are left when `current_registrations` are taken;
    /// `None` when the event has no capacity.
    pub fn calculate_available_spots(&self, event: &Event, current_registrations: usize) -> (r: Option<i32>)
        ensures
            match event.max_attendees {
                Some(max) => r == Some(available_spots(max, current_registrations)),
                None => r is None,
            },
            match event.max_attendees {
                Some(max) => max >= 0 ==> r == Some(
                    if current_registrations >= max { 0i32 } else { (max - current_registrations) as i32 },
                ),
                None => true,
            },
    {
        match event.max_attendees {
            Some(max) => {
                let capacity = max as usize;
                let left: usize = if capacity >= current_registrations {
                    capacity - current_registrations
                } else {
                    0
                };
                Some(left as i32)
            },
            None => None,
        }
    }

    /// Whether a new registration goes on the waitlist.
    pub fn should_add_to_waitlist(&self, event: &Event, current_registrations: usize) -> (r: bool)
        ensures
            r == waitlist_needed(*event, current_registrations),
    {
        if !event.allow_waitlist {
            return false;
        }
        match event.max_attendees {
            Some(max) => current_registrations >= max as usize,
            None => false,
        }
    }
}

// ============================================================================
// Invitations
// ============================================================================

#[derive(Debug, Clone, Copy)]
pub struct InvitationService;

/// An invitation can be answered while it is pending and not past its expiry.
pub open spec fn response_check(invitation: EventInvitation, now: i64) -> Result<(), DomainErrorView> {
    if invitation.status != InvitationStatus::Pending {
        Err(DomainErrorView::BusinessRuleViolation { message: "Can only respond to pending invitations"@ })
    } else if invitation.expires_at matches Some(expires_at) && now > expires_at {
        Err(DomainErrorView::BusinessRuleViolation { message: "Invitation has expired"@ })
    } else {
        Ok(())
    }
}

impl InvitationService {
    pub fn new() -> Self {
        InvitationService
    }

    /// The rules an invitation must meet to be created.
    pub fn validate_invitation(&self, invitation: &EventInvitation) -> (r: DomainResult<()>)
        ensures
            unit_outcome(r, invitation_creation_check(*invitation)),
    {
        invitation.validate_for_creation()
    }

    /// Whether the invitation can be answered at the instant `now`.
    pub fn can_respond_at(&self, invitation: &EventInvitation, now: i64) -> (r: DomainResult<()>)
        ensures
            unit_outcome(r, response_check(*invitation, now)),
    {
        invitation.can_respond(now)?;
        if let Some(expires_at) = invitation.expires_at {
            if now > expires_at {
                return Err(DomainError::business_rule("Invitation has expired"));
            }
        }
        Ok(())
    }

    /// Whether the invitation can be answered now.
    pub fn can_respond_to_invitation(&self, invitation: &EventInvitation) -> (r: DomainResult<()>)
        ensures
            exists|now: i64| 0 <= now < LATEST_MILLIS && #[trigger] unit_outcome(r, response_check(*invitation, now)),
    {
        let now = now_millis();
        self.can_respond_at(invitation, now)
    }

    /// A fresh token for RSVP links: the text of a newly drawn UUID.
    pub fn generate_invitation_token(&self) -> (r: String)
        ensures
            exists|id: u128| r@ == uuid_text(id),
    {
        let id = fresh_id();
        uuid_to_string(id)
    }

    /// The instant `days_from_now` days after now.
    pub fn calculate_expiry(&self, days_from_now: i64) -> (r: i64)
        requires
            -90_000_000 <= days_from_now <= 90_000_000,
        ensures
            0 <= r - days_from_now * MILLIS_PER_DAY < LATEST_MILLIS,
    {
        let now = now_millis();
        now + days_from_now * MILLIS_PER_DAY
    }

    /// Marks the invitation as sent at `now`.
    pub fn mark_as_sent_at(&self, invitation: &mut EventInvitation, now: i64)
        ensures
            *final(invitation) == marked_sent(*old(invitation), now),
    {
        invitation.status = InvitationStatus::Sent;
        invitation.sent_at = Some(now);
        invitation.updated_at = now;
    }

    /// Marks the invitation as sent now.
    pub fn mark_as_sent(&self, invitation: &mut EventInvitation)
        ensures
            exists|now: i64| 0 <= now < LATEST_MILLIS && *final(invitation) == #[trigger] marked_sent(*old(invitation), now),
    {
        let now = now_millis();
        self.mark_as_sent_at(invitation, now);
    }

    /// Marks a sent or delivered invitation as opened at `now`; any other
    /// invitation is left as it is.
    pub fn mark_as_opened_at(&self, invitation: &mut EventInvitation, now: i64)
        ensures
            *final(invitation) == marked_opened(*old(invitation), now),
    {
        if invitation.status == InvitationStatus::Sent || invitation.status == InvitationStatus::Delivered {
            invitation.status = InvitationStatus::Opened;
            invitation.opened_at = Some(now);
            invitation.updated_at = now;
        }
    }

    /// Marks a sent or delivered invitation as opened now; any other
    /// invitation is left as it is.
    pub fn mark_as_opened(&self, invitation: &mut EventInvitation)
        ensures
            exists|now: i64|
                0 <= now < LATEST_MILLIS && *final(invitation) == #[trigger] marked_opened(*old(invitation), now),
    {
        let now = now_millis();
        self.mark_as_opened_at(invitation, now);
    }

    /// Answers the invitation with `status` at `now`, if it can be answered
    /// then.
    fn answer_at(&self, invitation: &mut EventInvitation, status: InvitationStatus, now: i64) -> (r: DomainResult<
        (),
    >)
        ensures
            answered_at(*old(invitation), *final(invitation), status, now, r),
    {
        self.can_respond_at(invitation, now)?;
        invitation.status = status;
        invitation.responded_at = Some(now);
        invitation.updated_at = now;
        Ok(())
    }

    /// Accepts the invitation if it can be answered at `now`.
    pub fn accept_invitation_at(&self, invitation: &mut EventInvitation, now: i64) -> (r: DomainResult<()>)
        ensures
            answered_at(*old(invitation), *final(invitation), InvitationStatus::Accepted, now, r),
    {
        self.answer_at(invitation, InvitationStatus::Accepted, now)
    }

    /// Accepts the invitation if it can be answered now.
    pub fn accept_invitation(&self, invitation: &mut EventInvitation) -> (r: DomainResult<()>)
        ensures
            exists|now: i64|
                0 <= now < LATEST_MILLIS && #[trigger] answered_at(
                    *old(invitation),
                    *final(invitation),
                    InvitationStatus::Accepted,
                    now,
                    r,
                ),
    {
        let now = now_millis();
        self.accept_invitation_at(invitation, now)
    }

    /// Declines the invitation if it can be answered at `now`.
    pub fn decline_invitation_at(&self, invitation: &mut EventInvitation, now: i64) -> (r: DomainResult<()>)
        ensures
            answered_at(*old(invitation), *final(invitation), InvitationStatus::Declined, now, r),
    {
        self.answer_at(invitation, InvitationStatus::Declined, now)
    }

    /// Declines the invitation if it can be answered now.
    pub fn decline_invitation(&self, invitation: &mut EventInvitation) -> (r: DomainResult<()>)
        ensures
            exists|now: i64|
                0 <= now < LATEST_MILLIS && #[trigger] answered_at(
                    *old(invitation),
                    *final(invitation),
                    InvitationStatus::Declined,
                    now,
                    r,
                ),
    {
        let now = now_millis();
        self.decline_invitation_at(invitation, now)
    }
}

/// `i` marked as sent at `now`.
pub open spec fn marked_sent(i: EventInvitation, now: i64) -> EventInvitation {
    EventInvitation { status: InvitationStatus::Sent, sent_at: Some(now), updated_at: now, ..i }
}

/// `i` marked as opened at `now` if it was sent or delivered; otherwise `i`.
pub open spec fn marked_opened(i: EventInvitation, now: i64) -> EventInvitation {
    if i.status == InvitationStatus::Sent || i.status == InvitationStatus::Delivered {
        EventInvitation { status: InvitationStatus::Opened, opened_at: Some(now), updated_at: now, ..i }
    } else {
        i
    }
}

/// `r` is the outcome of answering `before` with `status` at `now`, giving
/// `after`: refused as `response_check` says and unchanged, or successful
/// with the answer and the response stamped at `now`.
pub open spec fn answered_at(
    before: EventInvitation,
    after: EventInvitation,
    status: InvitationStatus,
    now: i64,
    r: DomainResult<()>,
) -> bool {
    &&& unit_outcome(r, response_check(before, now))
    &&& r is Ok ==> after == (EventInvitation { status, responded_at: Some(now), updated_at: now, ..before })
    &&& r is Err ==> after == before
}

// ============================================================================
// Registrations
// ============================================================================

#[derive(Debug, Clone, Copy)]
pub struct RegistrationService;

/// The changes a registration's status can undergo after it is made.
pub ghost enum RegistrationChange {
    Cancel,
    Promote,
    CheckIn,
    MarkNoShow,
}

/// The status a change leads to from `status`, or `None` where the change
/// is not allowed: a registration can be cancelled unless it already is,
/// only a waitlisted one can be promoted (to registered), and only a
/// registered one can be checked in (attended) or marked as a no-show.
pub open spec fn registration_step(change: RegistrationChange, status: RegistrationStatus) -> Option<
    RegistrationStatus,
> {
    match change {
        RegistrationChange::Cancel => if status == RegistrationStatus::Cancelled {
            None
        } else {
            Some(RegistrationStatus::Cancelled)
        },
        RegistrationChange::Promote => if status == RegistrationStatus::Waitlisted {
            Some(RegistrationStatus::Registered)
        } else {
            None
        },
        RegistrationChange::CheckIn => if status == RegistrationStatus::Registered {
            Some(RegistrationStatus::Attended)
        } else {
            None
        },
        RegistrationChange::MarkNoShow => if status == RegistrationStatus::Registered {
            Some(RegistrationStatus::NoShow)
        } else {
            None
        },
    }
}

/// The business rule a refused change reports.
pub open spec fn refused_change(change: RegistrationChange) -> DomainErrorView {
    DomainErrorView::BusinessRuleViolation {
        message: match change {
            RegistrationChange::Cancel => "Registration is already cancelled"@,
            RegistrationChange::Promote => "Only waitlisted registrations can be promoted"@,
            RegistrationChange::CheckIn => "Only registered participants can be checked in"@,
            RegistrationChange::MarkNoShow => "Only registered participants can be marked as no-show"@,
        },
    }
}

impl RegistrationService {
    pub fn new() -> Self {
        RegistrationService
    }

    /// The place on the waitlist after `existing_waitlist_count` others.
    pub fn calculate_waitlist_position(&self, existing_waitlist_count: usize) -> (r: i32)
        requires
            existing_waitlist_count < usize::MAX,
        ensures
            r == (existing_waitlist_count + 1) as i32,
            existing_waitlist_count < i32::MAX ==> r == existing_waitlist_count + 1,
    {
        (existing_waitlist_count + 1) as i32
    }

    /// Records the registration as made at `now`, on the waitlist or not.
    pub fn register_for_event_at(&self, registration: &mut EventRegistration, should_waitlist: bool, now: i64)
        ensures
            *final(registration) == registered_at_instant(*old(registration), should_waitlist, now),
    {
        if should_waitlist {
            registration.status = RegistrationStatus::Waitlisted;
            registration.waitlist_added_at = Some(now);
        } else {
            registration.status = RegistrationStatus::Registered;
        }
        registration.registered_at = now;
        registration.updated_at = now;
    }

    /// Records the registration as made now, on the waitlist or not.
    pub fn register_for_event(&self, registration: &mut EventRegistration, should_waitlist: bool)
        ensures
            exists|now: i64|
                0 <= now < LATEST_MILLIS && *final(registration) == #[trigger] registered_at_instant(
                    *old(registration),
                    should_waitlist,
                    now,
                ),
    {
        let now = now_millis();
        self.register_for_event_at(registration, should_waitlist, now);
    }

    /// Cancels the registration at `now`, unless it already is cancelled.
    pub fn cancel_registration_at(&self, registration: &mut EventRegistration, now: i64) -> (r: DomainResult<()>)
        ensures
            registration_changed_at(RegistrationChange::Cancel, *old(registration), *final(registration), r, now),
    {
        if registration.status == RegistrationStatus::Cancelled {
            return Err(DomainError::business_rule("Registration is already cancelled"));
        }
        registration.status = RegistrationStatus::Cancelled;
        registration.cancelled_at = Some(now);
        registration.updated_at = now;
        Ok(())
    }

    /// Cancels the registration now, unless it already is cancelled.
    pub fn cancel_registration(&self, registration: &mut EventRegistration) -> (r: DomainResult<()>)
        ensures
            exists|now: i64|
                0 <= now < LATEST_MILLIS && #[trigger] registration_changed_at(
                    RegistrationChange::Cancel,
                    *old(registration),
                    *final(registration),
                    r,
                    now,
                ),
    {
        let now = now_millis();
        self.cancel_registration_at(registration, now)
    }

    /// Moves a waitlisted registration to registered, off the waitlist, at
    /// `now`.
    pub fn promote_from_waitlist_at(&self, registration: &mut EventRegistration, now: i64) -> (r: DomainResult<()>)
        ensures
            registration_changed_at(RegistrationChange::Promote, *old(registration), *final(registration), r, now),
    {
        if registration.status != RegistrationStatus::Waitlisted {
            return Err(DomainError::business_rule("Only waitlisted registrations can be promoted"));
        }
        registration.status = RegistrationStatus::Registered;
        registration.waitlist_position = None;
        registration.waitlist_added_at = None;
        registration.updated_at = now;
        Ok(())
    }

    /// Moves a waitlisted registration to registered, off the waitlist.
    pub fn promote_from_waitlist(&self, registration: &mut EventRegistration) -> (r: DomainResult<()>)
        ensures
            exists|now: i64|
                0 <= now < LATEST_MILLIS && #[trigger] registration_changed_at(
                    RegistrationChange::Promote,
                    *old(registration),
                    *final(registration),
                    r,
                    now,
                ),
    {
        let now = now_millis();
        self.promote_from_waitlist_at(registration, now)
    }

    /// Checks a registered participant in at `now`.
    pub fn check_in_at(&self, registration: &mut EventRegistration, now: i64) -> (r: DomainResult<()>)
        ensures
            registration_changed_at(RegistrationChange::CheckIn, *old(registration), *final(registration), r, now),
    {
        if registration.status != RegistrationStatus::Registered {
            return Err(DomainError::business_rule("Only registered participants can be checked in"));
        }
        registration.status = RegistrationStatus::Attended;
        registration.checked_in_at = Some(now);
        registration.updated_at = now;
        Ok(())
    }

    /// Checks a registered participant in now.
    pub fn check_in(&self, registration: &mut EventRegistration) -> (r: DomainResult<()>)
        ensures
            exists|now: i64|
                0 <= now < LATEST_MILLIS && #[trigger] registration_changed_at(
                    RegistrationChange::CheckIn,
                    *old(registration),
                    *final(registration),
                    r,
                    now,
                ),
    {
        let now = now_millis();
        self.check_in_at(registration, now)
    }

    /// Marks a registered participant as not having come, at `now`.
    pub fn mark_no_show_at(&self, registration: &mut EventRegistration, now: i64) -> (r: DomainResult<()>)
        ensures
            registration_changed_at(RegistrationChange::MarkNoShow, *old(registration), *final(registration), r, now),
    {
        if registration.status != RegistrationStatus::Registered {
            return Err(DomainError::business_rule("Only registered participants can be marked as no-show"));
        }
        registration.status = RegistrationStatus::NoShow;
        registration.updated_at = now;
        Ok(())
    }

    /// Marks a registered participant as not having come.
    pub fn mark_no_show(&self, registration: &mut EventRegistration) -> (r: DomainResult<()>)
        ensures
            exists|now: i64|
                0 <= now < LATEST_MILLIS && #[trigger] registration_changed_at(
                    RegistrationChange::MarkNoShow,
                    *old(registration),
                    *final(registration),
                    r,
                    now,
                ),
    {
        let now = now_millis();
        self.mark_no_show_at(registration, now)
    }
}

/// `r` recorded as made at `now`: waitlisted (added to the list at `now`)
/// or registered.
pub open spec fn registered_at_instant(r: EventRegistration, should_waitlist: bool, now: i64) -> EventRegistration {
    EventRegistration {
        status: if should_waitlist {
            RegistrationStatus::Waitlisted
        } else {
            RegistrationStatus::Registered
        },
        waitlist_added_at: if should_waitlist {
            Some(now)
        } else {
            r.waitlist_added_at
        },
        registered_at: now,
        updated_at: now,
        ..r
    }
}

/// `before` after `change` to `status` at `now`: a cancellation is stamped
/// `cancelled_at`, a check-in `checked_in_at`, a promotion leaves the
/// waitlist, and every change is stamped `updated_at`.
pub open spec fn changed_registration(
    change: RegistrationChange,
    before: EventRegistration,
    status: RegistrationStatus,
    now: i64,
) -> EventRegistration {
    EventRegistration {
        status,
        cancelled_at: if change == RegistrationChange::Cancel {
            Some(now)
        } else {
            before.cancelled_at
        },
        checked_in_at: if change == RegistrationChange::CheckIn {
            Some(now)
        } else {
            before.checked_in_at
        },
        waitlist_position: if change == RegistrationChange::Promote {
            None
        } else {
            before.waitlist_position
        },
        waitlist_added_at: if change == RegistrationChange::Promote {
            None
        } else {
            before.waitlist_added_at
        },
        updated_at: now,
        ..before
    }
}

/// `r` is the outcome of applying `change` to `before` at `now`, giving
/// `after`: refused and unchanged where the change is not allowed,
/// otherwise successful with the change made and stamped at `now`.
pub open spec fn registration_changed_at(
    change: RegistrationChange,
    before: EventRegistration,
    after: EventRegistration,
    r: DomainResult<()>,
    now: i64,
) -> bool {
    match registration_step(change, before.status) {
        None => r is Err && r->Err_0@ == refused_change(change) && after == before,
        Some(status) => r is Ok && after == changed_registration(change, before, status, now),
    }
}

// ============================================================================
// Users
// ============================================================================

#[derive(Debug, Clone, Copy)]
pub struct UserService;

impl UserService {
    pub fn new() -> Self {
        UserService
    }

    /// The rules a user must meet to be created.
    pub fn validate_user(&self, user: &User) -> (r: DomainResult<()>)
        ensures
            unit_outcome(r, user_creation_check(*user)),
    {
        user.validate_for_creation()
    }

    /// Deactivates the user at `now`.
    pub fn deactivate_user_at(&self, user: &mut User, now: i64)
        ensures
            *final(user) == with_activity(*old(user), false, now),
    {
        user.is_active = false;
        user.updated_at = now;
    }

    /// Deactivates the user now.
    pub fn deactivate_user(&self, user: &mut User)
        ensures
            exists|now: i64| 0 <= now < LATEST_MILLIS && *final(user) == #[trigger] with_activity(*old(user), false, now),
    {
        let now = now_millis();
        self.deactivate_user_at(user, now);
    }

    /// Activates the user at `now`.
    pub fn activate_user_at(&self, user: &mut User, now: i64)
        ensures
            *final(user) == with_activity(*old(user), true, now),
    {
        user.is_active = true;
        user.updated_at = now;
    }

    /// Activates the user now.
    pub fn activate_user(&self, user: &mut User)
        ensures
            exists|now: i64| 0 <= now < LATEST_MILLIS && *final(user) == #[trigger] with_activity(*old(user), true, now),
    {
        let now = now_millis();
        self.activate_user_at(user, now);
    }
}

/// `u` made active or inactive at `now`.
pub open spec fn with_activity(u: User, is_active: bool, now: i64) -> User {
    User { is_active, updated_at: now, ..u }
}

// ============================================================================
// Laws
// ============================================================================

/// Registration closes when the event starts: it is open exactly up to and
/// including the start instant, and open at an instant means open at every
/// earlier one.
pub proof fn law_registration_closes_at_start(e: Event, now: i64, earlier: i64)
    ensures
        registration_open_check(e, now) is Ok <==> now <= e.start_date,
        registration_open_check(e, now) is Ok && earlier <= now ==> registration_open_check(e, earlier) is Ok,
{
}

/// Answering an invitation: a pending invitation can be answered up to and
/// including its expiry instant (at any time when it has none), and no
/// longer after; an invitation that is not pending cannot be answered.
pub proof fn law_response_window(i: EventInvitation, now: i64, earlier: i64)
    ensures
        response_check(i, now) is Ok <==> (i.status == InvitationStatus::Pending && (i.expires_at matches Some(x)
            ==> now <= x)),
        response_check(i, now) is Ok && earlier <= now ==> response_check(i, earlier) is Ok,
{
}

/// Registration changes: every allowed change changes the status; a
/// cancellation is allowed from every status but cancelled; a promotion
/// leads from waitlisted to registered, a check-in from registered to
/// attended and a no-show from registered to no-show, and nothing else.
pub proof fn law_registration_steps(change: RegistrationChange, status: RegistrationStatus)
    ensures
        registration_step(change, status) matches Some(next) ==> next != status,
        status != RegistrationStatus::Cancelled ==> registration_step(RegistrationChange::Cancel, status) == Some(
            RegistrationStatus::Cancelled,
        ),
        registration_step(RegistrationChange::Promote, status) is Some ==> status == RegistrationStatus::Waitlisted
            && registration_step(RegistrationChange::Promote, status) == Some(RegistrationStatus::Registered),
        registration_step(RegistrationChange::CheckIn, RegistrationStatus::Registered) == Some(
            RegistrationStatus::Attended,
        ),
        registration_step(RegistrationChange::MarkNoShow, RegistrationStatus::Registered) == Some(
            RegistrationStatus::NoShow,
        ),
        registration_step(RegistrationChange::Promote, RegistrationStatus::Waitlisted) is Some,
{
}

/// A new registration is waitlisted exactly when it should be, and then
/// joins the waitlist at the instant it is made; it is stamped made and
/// updated then, and keeps who, what and how many guests it is for.
pub proof fn law_new_registration_placement(r: EventRegistration, should_waitlist: bool, now: i64)
    ensures
        ({
            let made = registered_at_instant(r, should_waitlist, now);
            &&& (made.status == RegistrationStatus::Waitlisted <==> should_waitlist)
            &&& (!should_waitlist ==> made.status == RegistrationStatus::Registered)
            &&& (should_waitlist ==> made.waitlist_added_at == Some(now))
            &&& made.registered_at == now && made.updated_at == now
            &&& made.id == r.id && made.event_id == r.event_id && made.user_id == r.user_id
            &&& made.guest_count == r.guest_count && made.guest_names == r.guest_names
        }),
{
}

/// An invitation is answered at most once: once accepted or declined, every
/// further answer is refused, whatever the time.
pub proof fn law_invitation_answered_once(invitation: EventInvitation, now: i64)
    requires
        invitation.status == InvitationStatus::Accepted || invitation.status
            == InvitationStatus::Declined,
    ensures
        response_check(invitation, now) == Err::<(), DomainErrorView>(
            DomainErrorView::BusinessRuleViolation { message: "Can only respond to pending invitations"@ },
        ),
{
}

/// A registration is cancelled at most once: after a cancellation, cancelling
/// again is refused.
pub proof fn law_cancel_once(status: RegistrationStatus)
    requires
        registration_step(RegistrationChange::Cancel, status) is Some,
    ensures
        registration_step(
            RegistrationChange::Cancel,
            registration_step(RegistrationChange::Cancel, status)->0,
        ) is None,
{
}

/// Only a registered participant ends up attended or marked as a no-show.
pub proof fn law_attendance_needs_registration(change: RegistrationChange, status: RegistrationStatus)
    requires
        change == RegistrationChange::CheckIn || change == RegistrationChange::MarkNoShow,
        registration_step(change, status) is Some,
    ensures
        status == RegistrationStatus::Registered,
{
}

/// A promoted registration can be checked in.
pub proof fn law_promoted_can_check_in(status: RegistrationStatus)
    requires
        registration_step(RegistrationChange::Promote, status) is Some,
    ensures
        registration_step(
            RegistrationChange::CheckIn,
            registration_step(RegistrationChange::Promote, status)->0,
        ) == Some(RegistrationStatus::Attended),
{
}

/// Every change other than a cancellation is refused for a cancelled
/// registration, and a cancellation too: a cancelled registration stays so.
pub proof fn law_cancelled_is_terminal(change: RegistrationChange)
    ensures
        registration_step(change, RegistrationStatus::Cancelled) is None,
{
}

} // verus!
