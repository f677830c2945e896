//! Core domain models, their validation rules and pagination.
//!
//! Ids are the 128-bit values of UUIDs and instants are milliseconds since
//! the Unix epoch (UTC).

use vstd::prelude::*;
use crate::domain::errors::{unit_outcome, DomainError, DomainErrorView, DomainResult};
use crate::text::{byte_len, contains_char, is_blank, is_blank_text};

verus! {

#[derive(Debug, Clone, Copy, PartialEq, Eq, Structural)]
pub enum UserRole {
    Admin,
    Organizer,
    Participant,
}

#[derive(Debug, Clone)]
pub struct User {
    pub id: u128,
    pub keycloak_id: String,
    pub email: String,
    pub name: String,
    pub company_id: Option<u128>,
    pub role: UserRole,
    pub is_active: bool,
    pub created_at: i64,
    pub updated_at: i64,
}

#[derive(Debug, Clone)]
pub enum IndustryType {
    Salmon,
    Trout,
    Other(String),
}

#[derive(Debug, Clone)]
pub struct Company {
    pub id: u128,
    pub name: String,
    pub org_number: Option<String>,
    pub location: Option<String>,
    pub industry_type: IndustryType,
    pub website: Option<String>,
    pub phone: Option<String>,
    pub created_at: i64,
    pub updated_at: i64,
}

#[derive(Debug, Clone)]
pub struct UserProfile {
    pub user_id: u128,
    pub phone: Option<String>,
    pub title: Option<String>,
    pub bio: Option<String>,
    pub profile_image_url: Option<String>,
    pub timezone: String,
    pub language: String,
    pub dietary_restrictions: Option<String>,
    pub accessibility_needs: Option<String>,
    pub emergency_contact_name: Option<String>,
    pub emergency_contact_phone: Option<String>,
    pub linkedin_url: Option<String>,
    pub twitter_handle: Option<String>,
    pub created_at: i64,
    pub updated_at: i64,
}

#[derive(Debug, Clone)]
pub struct EventCategory {
    pub id: String,
    pub name: String,
    pub description: Option<String>,
    pub color_hex: Option<String>,
    pub icon_name: Option<String>,
    pub is_active: bool,
    pub created_at: i64,
}

#[derive(Debug, Clone, Copy, PartialEq, Eq, Structural)]
pub enum LocationType {
    Physical,
    Virtual,
    Hybrid,
}

#[derive(Debug, Clone, Copy, PartialEq, Eq, Structural)]
pub enum EventStatus {
    Draft,
    Published,
    Cancelled,
    Completed,
}

#[derive(Debug, Clone)]
pub struct Event {
    pub id: u128,
    pub title: String,
    pub description: String,
    pub category_id: String,
    // Timing
    pub start_date: i64,
    pub end_date: i64,
    pub timezone: String,
    // Location
    pub location_type: LocationType,
    pub location_name: Option<String>,
    pub address: Option<String>,
    pub virtual_link: Option<String>,
    pub virtual_access_code: Option<String>,
    // Organizer and permissions
    pub organizer_id: u128,
    pub co_organizers: Vec<u128>,
    // Event settings
    pub is_private: bool,
    pub requires_approval: bool,
    pub max_attendees: Option<i32>,
    pub allow_guests: bool,
    pub max_guests_per_person: Option<i32>,
    // Registration settings
    pub registration_opens: Option<i64>,
    pub registration_closes: Option<i64>,
    pub registration_required: bool,
    // Additional settings
    pub allow_waitlist: bool,
    pub send_reminders: bool,
    pub collect_dietary_info: bool,
    pub collect_accessibility_info: bool,
    // Event image and branding
    pub image_url: Option<String>,
    /// JSON text.
    pub custom_fields: Option<String>,
    pub status: EventStatus,
    pub created_at: i64,
    pub updated_at: i64,
}

#[derive(Debug, Clone, Copy, PartialEq, Eq, Structural)]
pub enum InvitationMethod {
    Email,
    Sms,
    Manual,
    BulkImport,
}

#[derive(Debug, Clone, Copy, PartialEq, Eq, Structural)]
pub enum InvitationStatus {
    Pending,
    Sent,
    Delivered,
    Opened,
    Accepted,
    Declined,
    Cancelled,
}

#[derive(Debug, Clone)]
pub struct EventInvitation {
    pub id: u128,
    pub event_id: u128,
    // Who is invited (a registered user or an external contact)
    pub invited_user_id: Option<u128>,
    pub invited_contact_id: Option<u128>,
    // Manual invitation data (for one-off invites)
    pub invited_email: Option<String>,
    pub invited_name: Option<String>,
    // Invitation metadata
    pub inviter_id: u128,
    pub invitation_method: InvitationMethod,
    pub personal_message: Option<String>,
    // Status tracking
    pub status: InvitationStatus,
    pub sent_at: Option<i64>,
    pub opened_at: Option<i64>,
    pub responded_at: Option<i64>,
    // Token for secure RSVP links
    pub invitation_token: Option<String>,
    pub expires_at: Option<i64>,
    pub created_at: i64,
    pub updated_at: i64,
}

#[derive(Debug, Clone, Copy, PartialEq, Eq, Structural)]
pub enum RegistrationStatus {
    Registered,
    Waitlisted,
    Cancelled,
    Attended,
    NoShow,
}

#[derive(Debug, Clone, Copy, PartialEq, Eq, Structural)]
pub enum RegistrationSource {
    Invitation,
    Direct,
    WaitlistPromotion,
}

#[derive(Debug, Clone)]
pub struct EventRegistration {
    pub id: u128,
    pub event_id: u128,
    pub invitation_id: Option<u128>,
    // Registrant
    pub user_id: Option<u128>,
    pub external_contact_id: Option<u128>,
    // Manual registration data
    pub registrant_email: Option<String>,
    pub registrant_name: Option<String>,
    pub registrant_phone: Option<String>,
    pub registrant_company: Option<String>,
    pub status: RegistrationStatus,
    pub registration_source: RegistrationSource,
    // Guests
    pub guest_count: i32,
    pub guest_names: Vec<String>,
    // Special requirements
    pub dietary_restrictions: Option<String>,
    pub accessibility_needs: Option<String>,
    pub special_requests: Option<String>,
    /// JSON text.
    pub custom_responses: Option<String>,
    // Status tracking
    pub registered_at: i64,
    pub cancelled_at: Option<i64>,
    pub checked_in_at: Option<i64>,
    // Waitlist management
    pub waitlist_position: Option<i32>,
    pub waitlist_added_at: Option<i64>,
    pub created_at: i64,
    pub updated_at: i64,
}

#[derive(Debug, Clone)]
pub struct ExternalContact {
    pub id: u128,
    pub email: Option<String>,
    pub first_name: Option<String>,
    pub last_name: Option<String>,
    pub full_name: Option<String>,
    pub phone: Option<String>,
    pub company_name: Option<String>,
    pub notes: Option<String>,
    pub created_by: u128,
    pub created_at: i64,
    pub updated_at: i64,
}

/// Criteria for selecting events; `None` leaves a criterion out.
#[derive(Debug, Clone)]
pub struct EventFilter {
    pub title_contains: Option<String>,
    pub category_id: Option<String>,
    pub organizer_id: Option<u128>,
    pub is_private: Option<bool>,
    pub status: Option<EventStatus>,
    pub location_type: Option<LocationType>,
    pub start_date_from: Option<i64>,
    pub start_date_to: Option<i64>,
}

#[derive(Debug, Clone, Copy)]
pub struct PaginationParams {
    pub offset: i64,
    pub limit: i64,
}

/// Largest page that may be asked for.
pub const MAX_PAGE_LIMIT: i64 = 1000;

/// A validation error on `field` with `message` and nothing more.
pub open spec fn validation_view(field: Seq<char>, message: Seq<char>) -> DomainErrorView {
    DomainErrorView::ValidationError { field, message, constraint: None, value: None }
}

/// The outcome `PaginationParams::new` owes for its arguments.
pub open spec fn pagination_check(offset: i64, limit: i64) -> Result<(), DomainErrorView> {
    if offset < 0 {
        Err(validation_view("offset"@, "Offset must be non-negative"@))
    } else if limit <= 0 || limit > MAX_PAGE_LIMIT {
        Err(validation_view("limit"@, "Limit must be between 1 and 1000"@))
    } else {
        Ok(())
    }
}

impl PaginationParams {
    /// A page starting `offset` items in, holding at most `limit` items.
    pub fn new(offset: i64, limit: i64) -> (r: DomainResult<Self>)
        ensures
            match r {
                Ok(p) => pagination_check(offset, limit) is Ok && p.offset == offset && p.limit == limit,
                Err(e) => pagination_check(offset, limit) == Err::<(), DomainErrorView>(e@),
            },
    {
        if offset < 0 {
            return Err(DomainError::validation("offset", "Offset must be non-negative"));
        }
        if limit <= 0 || limit > MAX_PAGE_LIMIT {
            return Err(DomainError::validation("limit", "Limit must be between 1 and 1000"));
        }
        Ok(PaginationParams { offset, limit })
    }
}

impl Default for PaginationParams {
    /// The first page of 50 items.
    fn default() -> (r: Self)
        ensures
            r.offset == 0 && r.limit == 50,
    {
        PaginationParams { offset: 0, limit: 50 }
    }
}

/// One page of a listing.
#[derive(Debug, Clone)]
pub struct PaginatedResult<T> {
    pub items: Vec<T>,
    pub total_count: i64,
    pub offset: i64,
    pub limit: i64,
    pub has_next: bool,
}

impl<T> PaginatedResult<T> {
    /// The page `items` of a listing of `total_count` items; there is a next
    /// page when the page ends before the listing does.
    pub fn new(items: Vec<T>, total_count: i64, pagination: PaginationParams) -> (r: Self)
        requires
            i64::MIN <= pagination.offset + pagination.limit <= i64::MAX,
        ensures
            r.items@ == items@,
            r.total_count == total_count,
            r.offset == pagination.offset,
            r.limit == pagination.limit,
            r.has_next == (pagination.offset + pagination.limit < total_count),
    {
        let has_next = pagination.offset + pagination.limit < total_count;
        PaginatedResult { items, total_count, offset: pagination.offset, limit: pagination.limit, has_next }
    }
}

// ============================================================================
// Domain validation
// ============================================================================

/// Validation that an entity passes before it is created.
pub trait DomainValidation {
    /// The outcome the rules owe for this entity.
    spec fn creation_check(&self) -> Result<(), DomainErrorView>;

    fn validate_for_creation(&self) -> (r: DomainResult<()>)
        ensures
            unit_outcome(r, self.creation_check());
}

/// Whether an event still takes registrations at a given instant.
pub trait EventDomainValidation {
    fn can_be_registered_for(&self, current_time: i64) -> (r: DomainResult<()>);
}

/// Whether an invitation can still be answered at a given instant.
pub trait InvitationDomainValidation {
    fn can_respond(&self, current_time: i64) -> (r: DomainResult<()>);
}

/// The rules an event must meet to be created.
pub open spec fn event_creation_check(e: Event) -> Result<(), DomainErrorView> {
    if is_blank(e.title@) {
        Err(validation_view("title"@, "Title cannot be empty"@))
    } else if byte_len(e.title@) > 200 {
        Err(validation_view("title"@, "Title cannot exceed 200 characters"@))
    } else if is_blank(e.description@) {
        Err(validation_view("description"@, "Description cannot be empty"@))
    } else if e.start_date >= e.end_date {
        Err(validation_view("dates"@, "End date must be after start date"@))
    } else {
        Ok(())
    }
}

impl DomainValidation for Event {
    open spec fn creation_check(&self) -> Result<(), DomainErrorView> {
        event_creation_check(*self)
    }

    fn validate_for_creation(&self) -> (r: DomainResult<()>) {
        if is_blank_text(self.title.as_str()) {
            return Err(DomainError::validation("title", "Title cannot be empty"));
        }
        if self.title.as_str().len() > 200 {
            return Err(DomainError::validation("title", "Title cannot exceed 200 characters"));
        }
        if is_blank_text(self.description.as_str()) {
            return Err(DomainError::validation("description", "Description cannot be empty"));
        }
        if self.start_date >= self.end_date {
            return Err(DomainError::validation("dates", "End date must be after start date"));
        }
        Ok(())
    }
}

/// Registration is open until the event starts.
pub open spec fn registration_open_check(e: Event, current_time: i64) -> Result<(), DomainErrorView> {
    if current_time > e.start_date {
        Err(DomainErrorView::BusinessRuleViolation {
            message: "Cannot register for an event that has already started"@,
        })
    } else {
        Ok(())
    }
}

impl EventDomainValidation for Event {
    fn can_be_registered_for(&self, current_time: i64) -> (r: DomainResult<()>)
        ensures
            unit_outcome(r, registration_open_check(*self, current_time)),
    {
        if current_time > self.start_date {
            return Err(DomainError::business_rule("Cannot register for an event that has already started"));
        }
        Ok(())
    }
}

/// The rules a user must meet to be created.
pub open spec fn user_creation_check(u: User) -> Result<(), DomainErrorView> {
    if is_blank(u.name@) {
        Err(validation_view("name"@, "Name cannot be empty"@))
    } else if byte_len(u.name@) > 100 {
        Err(validation_view("name"@, "Name cannot exceed 100 characters"@))
    } else if is_blank(u.email@) {
        Err(validation_view("email"@, "Email cannot be empty"@))
    } else if !u.email@.contains('@') || !u.email@.contains('.') {
        Err(validation_view("email"@, "Invalid email format"@))
    } else if is_blank(u.keycloak_id@) {
        Err(validation_view("keycloak_id"@, "Keycloak ID cannot be empty"@))
    } else {
        Ok(())
    }
}

impl DomainValidation for User {
    open spec fn creation_check(&self) -> Result<(), DomainErrorView> {
        user_creation_check(*self)
    }

    fn validate_for_creation(&self) -> (r: DomainResult<()>) {
        if is_blank_text(self.name.as_str()) {
            return Err(DomainError::validation("name", "Name cannot be empty"));
        }
        if self.name.as_str().len() > 100 {
            return Err(DomainError::validation("name", "Name cannot exceed 100 characters"));
        }
        if is_blank_text(self.email.as_str()) {
            return Err(DomainError::validation("email", "Email cannot be empty"));
        }
        if !contains_char(self.email.as_str(), '@') || !contains_char(self.email.as_str(), '.') {
            return Err(DomainError::validation("email", "Invalid email format"));
        }
        if is_blank_text(self.keycloak_id.as_str()) {
            return Err(DomainError::validation("keycloak_id", "Keycloak ID cannot be empty"));
        }
        Ok(())
    }
}

/// The rules an invitation must meet to be created: it names a user, or
/// both an email address and a name; an email address given holds `@` and
/// more than white space; a name given holds more than white space.
pub open spec fn invitation_creation_check(i: EventInvitation) -> Result<(), DomainErrorView> {
    if i.invited_user_id is None && (i.invited_email is None || i.invited_name is None) {
        Err(validation_view(
            "invitation_target"@,
            "Must specify either invited_user_id or both invited_email and invited_name"@,
        ))
    } else if i.invited_email is Some && (is_blank(i.invited_email->0@) || !i.invited_email->0@.contains('@')) {
        Err(validation_view("invited_email"@, "Invalid email format"@))
    } else if i.invited_name is Some && is_blank(i.invited_name->0@) {
        Err(validation_view("invited_name"@, "Invited name cannot be empty"@))
    } else {
        Ok(())
    }
}

impl DomainValidation for EventInvitation {
    open spec fn creation_check(&self) -> Result<(), DomainErrorView> {
        invitation_creation_check(*self)
    }

    fn validate_for_creation(&self) -> (r: DomainResult<()>) {
        if self.invited_user_id.is_none() && (self.invited_email.is_none() || self.invited_name.is_none()) {
            return Err(DomainError::validation(
                "invitation_target",
                "Must specify either invited_user_id or both invited_email and invited_name",
            ));
        }
        if let Some(email) = &self.invited_email {
            if is_blank_text(email.as_str()) || !contains_char(email.as_str(), '@') {
                return Err(DomainError::validation("invited_email", "Invalid email format"));
            }
        }
        if let Some(name) = &self.invited_name {
            if is_blank_text(name.as_str()) {
                return Err(DomainError::validation("invited_name", "Invited name cannot be empty"));
            }
        }
        Ok(())
    }
}

/// Only a pending invitation can be answered.
pub open spec fn respond_check(i: EventInvitation) -> Result<(), DomainErrorView> {
    if i.status != InvitationStatus::Pending {
        Err(DomainErrorView::BusinessRuleViolation { message: "Can only respond to pending invitations"@ })
    } else {
        Ok(())
    }
}

impl InvitationDomainValidation for EventInvitation {
    fn can_respond(&self, current_time: i64) -> (r: DomainResult<()>)
        ensures
            unit_outcome(r, respond_check(*self)),
    {
        if self.status != InvitationStatus::Pending {
            return Err(DomainError::business_rule("Can only respond to pending invitations"));
        }
        Ok(())
    }
}

} // verus!
