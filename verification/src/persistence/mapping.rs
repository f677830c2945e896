//! How domain values are stored as column values and read back.

use vstd::prelude::*;
use crate::domain::models::{
    Event, EventInvitation, EventStatus, InvitationMethod, InvitationStatus, LocationType, RegistrationSource,
    RegistrationStatus, User, UserRole,
};
use crate::ids::{parse_uuid_text, parsed_uuid};
use crate::persistence::errors::{InfrastructureError, InfrastructureErrorView, InfrastructureResult};
use crate::text::{ascii_lowercase, is_ascii_text, lowercase_of, own, text_eq, to_lowercase};

verus! {

// ============================================================================
// Identifiers
// ============================================================================

/// `value` read as a UUID: `Err` exactly where the text is no UUID.
pub open spec fn uuid_read(value: Seq<char>, r: InfrastructureResult<u128>) -> bool {
    match r {
        Ok(id) => parsed_uuid(value) == Some(id),
        Err(e) => parsed_uuid(value) is None && (e@ matches InfrastructureErrorView::UuidParsingError { value: v, .. }
            && v == value),
    }
}

/// The UUID a stored text denotes; a text that is none is a
/// `UuidParsingError` holding it.
pub fn parse_uuid(value: &str) -> (r: InfrastructureResult<u128>)
    ensures
        uuid_read(value@, r),
{
    match parse_uuid_text(value) {
        Ok(id) => Ok(id),
        Err(e) => Err(InfrastructureError::uuid_parsing_error(value, e)),
    }
}

/// An optional stored UUID: `None` stays `None`, a text is read as by
/// `parse_uuid`.
pub fn parse_optional_uuid(value: Option<&String>) -> (r: InfrastructureResult<Option<u128>>)
    ensures
        value is None ==> r == Ok::<Option<u128>, InfrastructureError>(None),
        value matches Some(text) ==> match r {
            Ok(Some(id)) => uuid_read(text@, Ok(id)),
            Ok(None) => false,
            Err(e) => uuid_read(text@, Err(e)),
        },
{
    match value {
        Some(text) => match parse_uuid(text.as_str()) {
            Ok(id) => Ok(Some(id)),
            Err(e) => Err(e),
        },
        None => Ok(None),
    }
}

// ============================================================================
// Enumerations
// ============================================================================

/// The stored name of an invitation status.
pub open spec fn invitation_status_name(status: InvitationStatus) -> Seq<char> {
    match status {
        InvitationStatus::Pending => "pending"@,
        InvitationStatus::Sent => "sent"@,
        InvitationStatus::Delivered => "delivered"@,
        InvitationStatus::Opened => "opened"@,
        InvitationStatus::Accepted => "accepted"@,
        InvitationStatus::Declined => "declined"@,
        InvitationStatus::Cancelled => "cancelled"@,
    }
}

/// The invitation status a stored name denotes; an unknown name is read as
/// `Pending`.
pub open spec fn invitation_status_named(text: Seq<char>) -> InvitationStatus {
    if text == "sent"@ {
        InvitationStatus::Sent
    } else if text == "delivered"@ {
        InvitationStatus::Delivered
    } else if text == "opened"@ {
        InvitationStatus::Opened
    } else if text == "accepted"@ {
        InvitationStatus::Accepted
    } else if text == "declined"@ {
        InvitationStatus::Declined
    } else if text == "cancelled"@ {
        InvitationStatus::Cancelled
    } else {
        InvitationStatus::Pending
    }
}

pub fn map_invitation_status(status_str: &str) -> (r: InvitationStatus)
    ensures
        r == invitation_status_named(status_str@),
{
    if text_eq(status_str, "sent") {
        InvitationStatus::Sent
    } else if text_eq(status_str, "delivered") {
        InvitationStatus::Delivered
    } else if text_eq(status_str, "opened") {
        InvitationStatus::Opened
    } else if text_eq(status_str, "accepted") {
        InvitationStatus::Accepted
    } else if text_eq(status_str, "declined") {
        InvitationStatus::Declined
    } else if text_eq(status_str, "cancelled") {
        InvitationStatus::Cancelled
    } else {
        InvitationStatus::Pending
    }
}

pub fn invitation_status_to_string(status: &InvitationStatus) -> (r: String)
    ensures
        r@ == invitation_status_name(*status),
{
    match status {
        InvitationStatus::Pending => own("pending"),
        InvitationStatus::Sent => own("sent"),
        InvitationStatus::Delivered => own("delivered"),
        InvitationStatus::Opened => own("opened"),
        InvitationStatus::Accepted => own("accepted"),
        InvitationStatus::Declined => own("declined"),
        InvitationStatus::Cancelled => own("cancelled"),
    }
}

/// The stored name of an invitation method.
pub open spec fn invitation_method_name(method: InvitationMethod) -> Seq<char> {
    match method {
        InvitationMethod::Email => "email"@,
        InvitationMethod::Sms => "sms"@,
        InvitationMethod::Manual => "manual"@,
        InvitationMethod::BulkImport => "bulk_import"@,
    }
}

/// The invitation method a stored name denotes; an unknown name is read as
/// `Email`.
pub open spec fn invitation_method_named(text: Seq<char>) -> InvitationMethod {
    if text == "sms"@ {
        InvitationMethod::Sms
    } else if text == "manual"@ {
        InvitationMethod::Manual
    } else if text == "bulk_import"@ {
        InvitationMethod::BulkImport
    } else {
        InvitationMethod::Email
    }
}

pub fn map_invitation_method(method_str: &str) -> (r: InvitationMethod)
    ensures
        r == invitation_method_named(method_str@),
{
    if text_eq(method_str, "sms") {
        InvitationMethod::Sms
    } else if text_eq(method_str, "manual") {
        InvitationMethod::Manual
    } else if text_eq(method_str, "bulk_import") {
        InvitationMethod::BulkImport
    } else {
        InvitationMethod::Email
    }
}

pub fn invitation_method_to_string(method: &InvitationMethod) -> (r: String)
    ensures
        r@ == invitation_method_name(*method),
{
    match method {
        InvitationMethod::Email => own("email"),
        InvitationMethod::Sms => own("sms"),
        InvitationMethod::Manual => own("manual"),
        InvitationMethod::BulkImport => own("bulk_import"),
    }
}

/// The stored name of a user role.
pub open spec fn user_role_name(role: UserRole) -> Seq<char> {
    match role {
        UserRole::Admin => "admin"@,
        UserRole::Organizer => "organizer"@,
        UserRole::Participant => "participant"@,
    }
}

/// The user role a stored name denotes; an unknown name is read as
/// `Participant`.
pub open spec fn user_role_named(text: Seq<char>) -> UserRole {
    if text == "admin"@ {
        UserRole::Admin
    } else if text == "organizer"@ {
        UserRole::Organizer
    } else {
        UserRole::Participant
    }
}

pub fn map_user_role(role_str: &str) -> (r: UserRole)
    ensures
        r == user_role_named(role_str@),
{
    if text_eq(role_str, "admin") {
        UserRole::Admin
    } else if text_eq(role_str, "organizer") {
        UserRole::Organizer
    } else {
        UserRole::Participant
    }
}

pub fn user_role_to_string(role: &UserRole) -> (r: String)
    ensures
        r@ == user_role_name(*role),
{
    match role {
        UserRole::Admin => own("admin"),
        UserRole::Organizer => own("organizer"),
        UserRole::Participant => own("participant"),
    }
}

/// The stored name of a location type.
pub open spec fn location_type_name(location_type: LocationType) -> Seq<char> {
    match location_type {
        LocationType::Physical => "physical"@,
        LocationType::Virtual => "virtual"@,
        LocationType::Hybrid => "hybrid"@,
    }
}

/// The location type a stored name denotes, if any.
pub open spec fn location_type_named(text: Seq<char>) -> Option<LocationType> {
    if text == "physical"@ {
        Some(LocationType::Physical)
    } else if text == "virtual"@ {
        Some(LocationType::Virtual)
    } else if text == "hybrid"@ {
        Some(LocationType::Hybrid)
    } else {
        None
    }
}

/// The stored name of a location type.
pub fn location_type_to_string(location_type: &LocationType) -> (r: &'static str)
    ensures
        r@ == location_type_name(*location_type),
{
    match location_type {
        LocationType::Physical => "physical",
        LocationType::Virtual => "virtual",
        LocationType::Hybrid => "hybrid",
    }
}

/// The location type a stored name denotes, if it is one of the names.
pub fn location_type_from_name(text: &str) -> (r: Option<LocationType>)
    ensures
        r == location_type_named(text@),
{
    if text_eq(text, "physical") {
        Some(LocationType::Physical)
    } else if text_eq(text, "virtual") {
        Some(LocationType::Virtual)
    } else if text_eq(text, "hybrid") {
        Some(LocationType::Hybrid)
    } else {
        None
    }
}

/// The stored name of an event status.
pub open spec fn event_status_name(status: EventStatus) -> Seq<char> {
    match status {
        EventStatus::Draft => "draft"@,
        EventStatus::Published => "published"@,
        EventStatus::Cancelled => "cancelled"@,
        EventStatus::Completed => "completed"@,
    }
}

/// The event status a stored name denotes, if any.
pub open spec fn event_status_named(text: Seq<char>) -> Option<EventStatus> {
    if text == "draft"@ {
        Some(EventStatus::Draft)
    } else if text == "published"@ {
        Some(EventStatus::Published)
    } else if text == "cancelled"@ {
        Some(EventStatus::Cancelled)
    } else if text == "completed"@ {
        Some(EventStatus::Completed)
    } else {
        None
    }
}

/// The stored name of an event status.
pub fn event_status_to_string(status: &EventStatus) -> (r: &'static str)
    ensures
        r@ == event_status_name(*status),
{
    match status {
        EventStatus::Draft => "draft",
        EventStatus::Published => "published",
        EventStatus::Cancelled => "cancelled",
        EventStatus::Completed => "completed",
    }
}

/// The event status a stored name denotes, if it is one of the names.
pub fn event_status_from_name(text: &str) -> (r: Option<EventStatus>)
    ensures
        r == event_status_named(text@),
{
    if text_eq(text, "draft") {
        Some(EventStatus::Draft)
    } else if text_eq(text, "published") {
        Some(EventStatus::Published)
    } else if text_eq(text, "cancelled") {
        Some(EventStatus::Cancelled)
    } else if text_eq(text, "completed") {
        Some(EventStatus::Completed)
    } else {
        None
    }
}

/// The stored name of a registration status.
pub open spec fn registration_status_name(status: RegistrationStatus) -> Seq<char> {
    match status {
        RegistrationStatus::Registered => "registered"@,
        RegistrationStatus::Waitlisted => "waitlisted"@,
        RegistrationStatus::Cancelled => "cancelled"@,
        RegistrationStatus::Attended => "attended"@,
        RegistrationStatus::NoShow => "no_show"@,
    }
}

/// The registration status a (lowercased) stored name denotes, if any.
pub open spec fn registration_status_named(text: Seq<char>) -> Option<RegistrationStatus> {
    if text == "registered"@ {
        Some(RegistrationStatus::Registered)
    } else if text == "waitlisted"@ {
        Some(RegistrationStatus::Waitlisted)
    } else if text == "cancelled"@ {
        Some(RegistrationStatus::Cancelled)
    } else if text == "attended"@ {
        Some(RegistrationStatus::Attended)
    } else if text == "no_show"@ {
        Some(RegistrationStatus::NoShow)
    } else {
        None
    }
}

/// The stored name of a registration status.
pub fn registration_status_to_string(status: &RegistrationStatus) -> (r: &'static str)
    ensures
        r@ == registration_status_name(*status),
{
    match status {
        RegistrationStatus::Registered => "registered",
        RegistrationStatus::Waitlisted => "waitlisted",
        RegistrationStatus::Cancelled => "cancelled",
        RegistrationStatus::Attended => "attended",
        RegistrationStatus::NoShow => "no_show",
    }
}

/// The registration status a stored name denotes, whatever its case.
pub fn registration_status_from_name(text: &str) -> (r: Option<RegistrationStatus>)
    ensures
        r == registration_status_named(lowercase_of(text@)),
        is_ascii_text(text@) ==> r == registration_status_named(ascii_lowercase(text@)),
{
    let lowered = to_lowercase(text);
    let t = lowered.as_str();
    if text_eq(t, "registered") {
        Some(RegistrationStatus::Registered)
    } else if text_eq(t, "waitlisted") {
        Some(RegistrationStatus::Waitlisted)
    } else if text_eq(t, "cancelled") {
        Some(RegistrationStatus::Cancelled)
    } else if text_eq(t, "attended") {
        Some(RegistrationStatus::Attended)
    } else if text_eq(t, "no_show") {
        Some(RegistrationStatus::NoShow)
    } else {
        None
    }
}

/// The stored name of a registration source.
pub open spec fn registration_source_name(source: RegistrationSource) -> Seq<char> {
    match source {
        RegistrationSource::Invitation => "invitation"@,
        RegistrationSource::Direct => "direct"@,
        RegistrationSource::WaitlistPromotion => "waitlist_promotion"@,
    }
}

/// The registration source a (lowercased) stored name denotes, if any.
pub open spec fn registration_source_named(text: Seq<char>) -> Option<RegistrationSource> {
    if text == "invitation"@ {
        Some(RegistrationSource::Invitation)
    } else if text == "direct"@ {
        Some(RegistrationSource::Direct)
    } else if text == "waitlist_promotion"@ {
        Some(RegistrationSource::WaitlistPromotion)
    } else {
        None
    }
}

/// The stored name of a registration source.
pub fn registration_source_to_string(source: &RegistrationSource) -> (r: &'static str)
    ensures
        r@ == registration_source_name(*source),
{
    match source {
        RegistrationSource::Invitation => "invitation",
        RegistrationSource::Direct => "direct",
        RegistrationSource::WaitlistPromotion => "waitlist_promotion",
    }
}

/// The registration source a stored name denotes, whatever its case.
pub fn registration_source_from_name(text: &str) -> (r: Option<RegistrationSource>)
    ensures
        r == registration_source_named(lowercase_of(text@)),
        is_ascii_text(text@) ==> r == registration_source_named(ascii_lowercase(text@)),
{
    let lowered = to_lowercase(text);
    let t = lowered.as_str();
    if text_eq(t, "invitation") {
        Some(RegistrationSource::Invitation)
    } else if text_eq(t, "direct") {
        Some(RegistrationSource::Direct)
    } else if text_eq(t, "waitlist_promotion") {
        Some(RegistrationSource::WaitlistPromotion)
    } else {
        None
    }
}

// ============================================================================
// Laws: what is stored is read back
// ============================================================================

/// Every invitation status is read back from its stored name.
pub proof fn law_invitation_status_round_trip(status: InvitationStatus)
    ensures
        invitation_status_named(invitation_status_name(status)) == status,
{
    reveal_strlit("pending");
    assert("pending"@.len() == 7 && "pending"@[0] == 'p');
    reveal_strlit("sent");
    assert("sent"@.len() == 4 && "sent"@[0] == 's');
    reveal_strlit("delivered");
    assert("delivered"@.len() == 9 && "delivered"@[0] == 'd');
    reveal_strlit("opened");
    assert("opened"@.len() == 6 && "opened"@[0] == 'o');
    reveal_strlit("accepted");
    assert("accepted"@.len() == 8 && "accepted"@[0] == 'a');
    reveal_strlit("declined");
    assert("declined"@.len() == 8 && "declined"@[0] == 'd');
    reveal_strlit("cancelled");
    assert("cancelled"@.len() == 9 && "cancelled"@[0] == 'c');
}

/// Every invitation method is read back from its stored name.
pub proof fn law_invitation_method_round_trip(method: InvitationMethod)
    ensures
        invitation_method_named(invitation_method_name(method)) == method,
{
    reveal_strlit("email");
    assert("email"@.len() == 5 && "email"@[0] == 'e');
    reveal_strlit("sms");
    assert("sms"@.len() == 3 && "sms"@[0] == 's');
    reveal_strlit("manual");
    assert("manual"@.len() == 6 && "manual"@[0] == 'm');
    reveal_strlit("bulk_import");
    assert("bulk_import"@.len() == 11 && "bulk_import"@[0] == 'b');
}

/// Every user role is read back from its stored name.
pub proof fn law_user_role_round_trip(role: UserRole)
    ensures
        user_role_named(user_role_name(role)) == role,
{
    reveal_strlit("admin");
    assert("admin"@.len() == 5 && "admin"@[0] == 'a');
    reveal_strlit("organizer");
    assert("organizer"@.len() == 9 && "organizer"@[0] == 'o');
    reveal_strlit("participant");
    assert("participant"@.len() == 11 && "participant"@[0] == 'p');
}

/// Every location type and event status is read back from its stored name.
pub proof fn law_event_enums_round_trip(location_type: LocationType, status: EventStatus)
    ensures
        location_type_named(location_type_name(location_type)) == Some(location_type),
        event_status_named(event_status_name(status)) == Some(status),
{
    reveal_strlit("physical");
    assert("physical"@.len() == 8 && "physical"@[0] == 'p');
    reveal_strlit("virtual");
    assert("virtual"@.len() == 7 && "virtual"@[0] == 'v');
    reveal_strlit("hybrid");
    assert("hybrid"@.len() == 6 && "hybrid"@[0] == 'h');
    reveal_strlit("draft");
    assert("draft"@.len() == 5 && "draft"@[0] == 'd');
    reveal_strlit("published");
    assert("published"@.len() == 9 && "published"@[0] == 'p');
    reveal_strlit("cancelled");
    assert("cancelled"@.len() == 9 && "cancelled"@[0] == 'c');
    reveal_strlit("completed");
    assert("completed"@.len() == 9 && "completed"@[1] == 'o' && "cancelled"@[1] == 'a');
}

/// Every registration status and source is read back from its stored name.
pub proof fn law_registration_enums_round_trip(status: RegistrationStatus, source: RegistrationSource)
    ensures
        registration_status_named(registration_status_name(status)) == Some(status),
        registration_source_named(registration_source_name(source)) == Some(source),
{
    reveal_strlit("registered");
    assert("registered"@.len() == 10 && "registered"@[0] == 'r');
    reveal_strlit("waitlisted");
    assert("waitlisted"@.len() == 10 && "waitlisted"@[0] == 'w');
    reveal_strlit("cancelled");
    assert("cancelled"@.len() == 9 && "cancelled"@[0] == 'c');
    reveal_strlit("attended");
    assert("attended"@.len() == 8 && "attended"@[0] == 'a');
    reveal_strlit("no_show");
    assert("no_show"@.len() == 7 && "no_show"@[0] == 'n');
    reveal_strlit("invitation");
    assert("invitation"@.len() == 10 && "invitation"@[0] == 'i');
    reveal_strlit("direct");
    assert("direct"@.len() == 6 && "direct"@[0] == 'd');
    reveal_strlit("waitlist_promotion");
    assert("waitlist_promotion"@.len() == 18 && "waitlist_promotion"@[0] == 'w');
}

// ============================================================================
// Rows of the earlier schema
// ============================================================================

/// An event row of the earlier schema.
#[derive(Debug)]
pub struct EventRow {
    pub id: Option<String>,
    pub title: String,
    pub description: String,
    pub event_type: String,
    pub event_type_other: Option<String>,
    pub start_date: i64,
    pub end_date: i64,
    pub location: String,
    pub organizer_id: String,
    pub max_attendees: Option<i64>,
    pub registration_deadline: Option<i64>,
    pub is_private: bool,
    pub created_at: i64,
    pub updated_at: i64,
}

/// The text of an id column that may be `NULL` (the empty text when it is).
pub open spec fn id_text(id: Option<String>) -> Seq<char> {
    match id {
        Some(s) => s@,
        None => Seq::empty(),
    }
}

/// The stored text of an optional id, borrowed.
fn id_text_of(id: &Option<String>) -> (r: &str)
    ensures
        r@ == id_text(*id),
{
    match id {
        Some(s) => s.as_str(),
        None => {
            proof {
                reveal_strlit("");
            }
            ""
        },
    }
}

/// `e` is the event of the earlier schema's `row`: a physical draft in the
/// `general` category, in UTC, at the row's location, whose registration
/// closes at the row's deadline; every setting the row lacks has its
/// default (reminders sent, all else off).
pub open spec fn event_of_row(e: Event, row: EventRow) -> bool {
    &&& parsed_uuid(id_text(row.id)) == Some(e.id)
    &&& parsed_uuid(row.organizer_id@) == Some(e.organizer_id)
    &&& e.title == row.title
    &&& e.description == row.description
    &&& e.category_id@ == "general"@
    &&& e.start_date == row.start_date
    &&& e.end_date == row.end_date
    &&& e.timezone@ == "UTC"@
    &&& e.location_type == LocationType::Physical
    &&& e.location_name == Some(row.location)
    &&& e.address is None
    &&& e.virtual_link is None
    &&& e.virtual_access_code is None
    &&& e.co_organizers@ == Seq::<u128>::empty()
    &&& e.is_private == row.is_private
    &&& !e.requires_approval
    &&& e.max_attendees == (match row.max_attendees {
        Some(m) => Some(m as i32),
        None => None,
    })
    &&& !e.allow_guests
    &&& e.max_guests_per_person is None
    &&& e.registration_opens is None
    &&& e.registration_closes == row.registration_deadline
    &&& !e.registration_required
    &&& !e.allow_waitlist
    &&& e.send_reminders
    &&& !e.collect_dietary_info
    &&& !e.collect_accessibility_info
    &&& e.image_url is None
    &&& e.custom_fields is None
    &&& e.status == EventStatus::Draft
    &&& e.created_at == row.created_at
    &&& e.updated_at == row.updated_at
}

/// An id that holds no UUID is refused with a `UuidParsingError` holding it.
pub open spec fn refused_id(e: InfrastructureError, text: Seq<char>) -> bool {
    parsed_uuid(text) is None && (e@ matches InfrastructureErrorView::UuidParsingError { value, .. } && value
        == text)
}

impl EventRow {
    /// The event this row holds; an id that is no UUID (its own, then the
    /// organiser's) is refused.
    pub fn into_event(self) -> (r: InfrastructureResult<Event>)
        ensures
            match r {
                Ok(e) => event_of_row(e, self),
                Err(err) => refused_id(err, id_text(self.id)) || (parsed_uuid(id_text(self.id)) is Some
                    && refused_id(err, self.organizer_id@)),
            },
    {
        let id = parse_uuid(id_text_of(&self.id))?;
        let organizer_id = parse_uuid(self.organizer_id.as_str())?;
        Ok(
            Event {
                id,
                title: self.title,
                description: self.description,
                category_id: own("general"),
                start_date: self.start_date,
                end_date: self.end_date,
                timezone: own("UTC"),
                location_type: LocationType::Physical,
                location_name: Some(self.location),
                address: None,
                virtual_link: None,
                virtual_access_code: None,
                organizer_id,
                co_organizers: Vec::new(),
                is_private: self.is_private,
                requires_approval: false,
                max_attendees: match self.max_attendees {
                    Some(m) => Some(m as i32),
                    None => None,
                },
                allow_guests: false,
                max_guests_per_person: None,
                registration_opens: None,
                registration_closes: self.registration_deadline,
                registration_required: false,
                allow_waitlist: false,
                send_reminders: true,
                collect_dietary_info: false,
                collect_accessibility_info: false,
                image_url: None,
                custom_fields: None,
                status: EventStatus::Draft,
                created_at: self.created_at,
                updated_at: self.updated_at,
            },
        )
    }
}

/// A user row of the earlier schema.
#[derive(Debug)]
pub struct UserRow {
    pub id: Option<String>,
    pub keycloak_id: String,
    pub email: String,
    pub name: String,
    pub company_id: Option<String>,
    pub role: String,
    pub is_active: bool,
    pub created_at: i64,
    pub updated_at: i64,
}

impl UserRow {
    /// The user this row holds; an id that is no UUID (its own, then the
    /// company's) is refused; an unknown role is read as participant.
    pub fn into_user(self) -> (r: InfrastructureResult<User>)
        ensures
            match r {
                Ok(u) => parsed_uuid(id_text(self.id)) == Some(u.id) && u.keycloak_id == self.keycloak_id && u.email
                    == self.email && u.name == self.name && match self.company_id {
                    Some(t) => parsed_uuid(t@) == u.company_id && u.company_id is Some,
                    None => u.company_id is None,
                } && u.role == user_role_named(self.role@) && u.is_active == self.is_active && u.created_at
                    == self.created_at && u.updated_at == self.updated_at,
                Err(err) => refused_id(err, id_text(self.id)) || (parsed_uuid(id_text(self.id)) is Some && (
                self.company_id matches Some(t) && refused_id(err, t@))),
            },
    {
        let id = parse_uuid(id_text_of(&self.id))?;
        let company_id = parse_optional_uuid(self.company_id.as_ref())?;
        let role = map_user_role(self.role.as_str());
        Ok(
            User {
                id,
                keycloak_id: self.keycloak_id,
                email: self.email,
                name: self.name,
                company_id,
                role,
                is_active: self.is_active,
                created_at: self.created_at,
                updated_at: self.updated_at,
            },
        )
    }
}

/// An invitation row of the earlier schema.
#[derive(Debug)]
pub struct InvitationRow {
    pub id: Option<String>,
    pub event_id: String,
    pub invited_user_id: Option<String>,
    pub invited_email: Option<String>,
    pub invited_name: Option<String>,
    pub inviter_id: String,
    pub status: String,
    pub invitation_message: Option<String>,
    pub invited_at: i64,
    pub responded_at: Option<i64>,
}

impl InvitationRow {
    /// The invitation this row holds, sent by email when it was invited;
    /// it was created when invited and last changed when answered (or when
    /// invited). An id that is no UUID is refused (its own, the event's,
    /// the invited user's, then the inviter's); an unknown status is read
    /// as pending.
    pub fn into_invitation(self) -> (r: InfrastructureResult<EventInvitation>)
        ensures
            match r {
                Ok(i) => parsed_uuid(id_text(self.id)) == Some(i.id) && parsed_uuid(self.event_id@) == Some(
                    i.event_id,
                ) && match self.invited_user_id {
                    Some(t) => parsed_uuid(t@) == i.invited_user_id && i.invited_user_id is Some,
                    None => i.invited_user_id is None,
                } && parsed_uuid(self.inviter_id@) == Some(i.inviter_id) && i.invited_contact_id is None
                    && i.invited_email == self.invited_email && i.invited_name == self.invited_name
                    && i.invitation_method == InvitationMethod::Email && i.personal_message == self.invitation_message
                    && i.status == invitation_status_named(self.status@) && i.sent_at == Some(self.invited_at)
                    && i.opened_at is None && i.responded_at == self.responded_at && i.invitation_token is None
                    && i.expires_at is None && i.created_at == self.invited_at && i.updated_at
                    == self.responded_at.unwrap_or(self.invited_at),
                Err(err) => refused_id(err, id_text(self.id)) || refused_id(err, self.event_id@) || (
                self.invited_user_id matches Some(t) && refused_id(err, t@)) || refused_id(err, self.inviter_id@),
            },
    {
        let id = parse_uuid(id_text_of(&self.id))?;
        let event_id = parse_uuid(self.event_id.as_str())?;
        let invited_user_id = parse_optional_uuid(self.invited_user_id.as_ref())?;
        let inviter_id = parse_uuid(self.inviter_id.as_str())?;
        let status = map_invitation_status(self.status.as_str());
        Ok(
            EventInvitation {
                id,
                event_id,
                invited_user_id,
                invited_contact_id: None,
                invited_email: self.invited_email,
                invited_name: self.invited_name,
                inviter_id,
                invitation_method: InvitationMethod::Email,
                personal_message: self.invitation_message,
                status,
                sent_at: Some(self.invited_at),
                opened_at: None,
                responded_at: self.responded_at,
                invitation_token: None,
                expires_at: None,
                created_at: self.invited_at,
                updated_at: match self.responded_at {
                    Some(t) => t,
                    None => self.invited_at,
                },
            },
        )
    }
}

} // verus!
