//! Builders of the entities, requests and claims that the application's
//! tests work with. Each starts from fixed values; where it needs fresh ids
//! or the current time, a variant ending in `_at` takes them as arguments.

use vstd::prelude::*;
use crate::api::auth::{now_seconds, Claims, LATEST_SECONDS};
use crate::api::mocks::categories::copy_category;
use crate::api::mocks::events::{copy_event, image};
use crate::api::mocks::users::{copy_user, EmailEntry};
use crate::api::mocks::{MockEventCategoryRepository, MockEventRepository, MockUserRepository};
use crate::api::dto::{CreateEventRequest, CreateUserRequest};
use crate::clock::{now_millis, LATEST_MILLIS};
use crate::domain::models::{
    Event, EventCategory, EventRegistration, EventStatus, LocationType, RegistrationSource, RegistrationStatus,
    User, UserRole,
};
use crate::ids::{fresh_id, parsed_uuid, uuid_text, uuid_to_string};
use crate::text::{concat, own};

verus! {

/// One hour in milliseconds.
pub const MILLIS_PER_HOUR: i64 = 3_600_000;

/// How long the test claims stay valid, in seconds.
pub const TEST_TOKEN_SECONDS: i64 = 3600;

// ============================================================================
// Events
// ============================================================================

/// The event a builder starts from: a virtual draft starting an hour after
/// `now` and lasting an hour.
pub open spec fn starting_event(e: Event, id: u128, organizer_id: u128, now: i64) -> bool {
    &&& e.id == id
    &&& e.title@ == "Test Event"@
    &&& e.description@ == "A test event"@
    &&& e.category_id@ == "general"@
    &&& e.organizer_id == organizer_id
    &&& e.co_organizers@ == Seq::<u128>::empty()
    &&& e.start_date == now + MILLIS_PER_HOUR
    &&& e.end_date == now + 2 * MILLIS_PER_HOUR
    &&& e.timezone@ == "UTC"@
    &&& e.location_type == LocationType::Virtual
    &&& e.location_name is None
    &&& e.address is None
    &&& e.virtual_link matches Some(l) && l@ == "https://example.com"@
    &&& e.virtual_access_code is None
    &&& !e.is_private
    &&& !e.requires_approval
    &&& e.max_attendees == Some(100i32)
    &&& !e.allow_guests
    &&& e.max_guests_per_person is None
    &&& e.registration_opens is None
    &&& e.registration_closes is None
    &&& e.registration_required
    &&& !e.allow_waitlist
    &&& e.send_reminders
    &&& !e.collect_dietary_info
    &&& !e.collect_accessibility_info
    &&& e.image_url is None
    &&& e.custom_fields is None
    &&& e.status == EventStatus::Draft
    &&& e.created_at == now
    &&& e.updated_at == now
}

/// Builds a test event.
pub struct TestEventBuilder {
    event: Event,
}

impl View for TestEventBuilder {
    type V = Event;

    closed spec fn view(&self) -> Event {
        self.event
    }
}

impl TestEventBuilder {
    /// The starting event with `id`, organised by `organizer_id`, created
    /// at `now`.
    pub fn new_at(id: u128, organizer_id: u128, now: i64) -> (r: Self)
        requires
            0 <= now < LATEST_MILLIS,
        ensures
            starting_event(r@, id, organizer_id, now),
    {
        TestEventBuilder {
            event: Event {
                id,
                title: own("Test Event"),
                description: own("A test event"),
                category_id: own("general"),
                organizer_id,
                co_organizers: Vec::new(),
                start_date: now + MILLIS_PER_HOUR,
                end_date: now + 2 * MILLIS_PER_HOUR,
                timezone: own("UTC"),
                location_type: LocationType::Virtual,
                location_name: None,
                address: None,
                virtual_link: Some(own("https://example.com")),
                virtual_access_code: None,
                is_private: false,
                requires_approval: false,
                max_attendees: Some(100),
                allow_guests: false,
                max_guests_per_person: None,
                registration_opens: None,
                registration_closes: None,
                registration_required: true,
                allow_waitlist: false,
                send_reminders: true,
                collect_dietary_info: false,
                collect_accessibility_info: false,
                image_url: None,
                custom_fields: None,
                status: EventStatus::Draft,
                created_at: now,
                updated_at: now,
            },
        }
    }

    /// The starting event with fresh ids, created now.
    pub fn new() -> (r: Self)
        ensures
            exists|id: u128, organizer_id: u128, now: i64|
                0 <= now < LATEST_MILLIS && #[trigger] starting_event(r@, id, organizer_id, now),
    {
        let id = fresh_id();
        let organizer_id = fresh_id();
        TestEventBuilder::new_at(id, organizer_id, now_millis())
    }

    pub fn with_id(self, id: u128) -> (r: Self)
        ensures
            r@ == (Event { id, ..self@ }),
    {
        let mut b = self;
        b.event.id = id;
        b
    }

    pub fn with_title(self, title: String) -> (r: Self)
        ensures
            r@ == (Event { title, ..self@ }),
    {
        let mut b = self;
        b.event.title = title;
        b
    }

    pub fn with_organizer(self, organizer_id: u128) -> (r: Self)
        ensures
            r@ == (Event { organizer_id, ..self@ }),
    {
        let mut b = self;
        b.event.organizer_id = organizer_id;
        b
    }

    pub fn with_category(self, category_id: String) -> (r: Self)
        ensures
            r@ == (Event { category_id, ..self@ }),
    {
        let mut b = self;
        b.event.category_id = category_id;
        b
    }

    pub fn published(self) -> (r: Self)
        ensures
            r@ == (Event { status: EventStatus::Published, ..self@ }),
    {
        let mut b = self;
        b.event.status = EventStatus::Published;
        b
    }

    pub fn private(self) -> (r: Self)
        ensures
            r@ == (Event { is_private: true, ..self@ }),
    {
        let mut b = self;
        b.event.is_private = true;
        b
    }

    pub fn build(self) -> (r: Event)
        ensures
            r == self@,
    {
        self.event
    }
}

// ============================================================================
// Users
// ============================================================================

/// The user a builder starts from: an active participant.
pub open spec fn starting_user(u: User, id: u128, keycloak_key: u128, now: i64) -> bool {
    &&& u.id == id
    &&& u.keycloak_id@ == "keycloak_"@ + uuid_text(keycloak_key)
    &&& u.email@ == "test@example.com"@
    &&& u.name@ == "Test User"@
    &&& u.company_id is None
    &&& u.role == UserRole::Participant
    &&& u.is_active
    &&& u.created_at == now
    &&& u.updated_at == now
}

/// Builds a test user.
pub struct TestUserBuilder {
    user: User,
}

impl View for TestUserBuilder {
    type V = User;

    closed spec fn view(&self) -> User {
        self.user
    }
}

impl TestUserBuilder {
    /// The starting user with `id`, whose Keycloak id is made of
    /// `keycloak_key`, created at `now`.
    pub fn new_at(id: u128, keycloak_key: u128, now: i64) -> (r: Self)
        ensures
            starting_user(r@, id, keycloak_key, now),
    {
        let key = uuid_to_string(keycloak_key);
        TestUserBuilder {
            user: User {
                id,
                keycloak_id: concat("keycloak_", key.as_str()),
                email: own("test@example.com"),
                name: own("Test User"),
                company_id: None,
                role: UserRole::Participant,
                is_active: true,
                created_at: now,
                updated_at: now,
            },
        }
    }

    /// The starting user with fresh ids, created now.
    pub fn new() -> (r: Self)
        ensures
            exists|id: u128, keycloak_key: u128, now: i64| #[trigger] starting_user(r@, id, keycloak_key, now),
    {
        let id = fresh_id();
        let keycloak_key = fresh_id();
        TestUserBuilder::new_at(id, keycloak_key, now_millis())
    }

    pub fn with_id(self, id: u128) -> (r: Self)
        ensures
            r@ == (User { id, ..self@ }),
    {
        let mut b = self;
        b.user.id = id;
        b
    }

    pub fn with_email(self, email: String) -> (r: Self)
        ensures
            r@ == (User { email, ..self@ }),
    {
        let mut b = self;
        b.user.email = email;
        b
    }

    pub fn with_name(self, name: String) -> (r: Self)
        ensures
            r@ == (User { name, ..self@ }),
    {
        let mut b = self;
        b.user.name = name;
        b
    }

    pub fn admin(self) -> (r: Self)
        ensures
            r@ == (User { role: UserRole::Admin, ..self@ }),
    {
        let mut b = self;
        b.user.role = UserRole::Admin;
        b
    }

    pub fn organizer(self) -> (r: Self)
        ensures
            r@ == (User { role: UserRole::Organizer, ..self@ }),
    {
        let mut b = self;
        b.user.role = UserRole::Organizer;
        b
    }

    pub fn inactive(self) -> (r: Self)
        ensures
            r@ == (User { is_active: false, ..self@ }),
    {
        let mut b = self;
        b.user.is_active = false;
        b
    }

    pub fn build(self) -> (r: User)
        ensures
            r == self@,
    {
        self.user
    }
}

// ============================================================================
// Categories
// ============================================================================

/// The category a builder starts from: an active test category.
pub open spec fn starting_category(c: EventCategory, now: i64) -> bool {
    &&& c.id@ == "test-category"@
    &&& c.name@ == "Test Category"@
    &&& c.description matches Some(d) && d@ == "A test category"@
    &&& c.color_hex matches Some(h) && h@ == "#FF0000"@
    &&& c.icon_name matches Some(i) && i@ == "test-icon"@
    &&& c.is_active
    &&& c.created_at == now
}

/// What every test category holds besides its id, name and activity.
pub open spec fn test_category_details(c: EventCategory, now: i64) -> bool {
    &&& c.description matches Some(d) && d@ == "A test category"@
    &&& c.color_hex matches Some(h) && h@ == "#FF0000"@
    &&& c.icon_name matches Some(i) && i@ == "test-icon"@
    &&& c.created_at == now
}

/// Builds a test category.
pub struct TestCategoryBuilder {
    category: EventCategory,
}

impl View for TestCategoryBuilder {
    type V = EventCategory;

    closed spec fn view(&self) -> EventCategory {
        self.category
    }
}

impl TestCategoryBuilder {
    /// The starting category, created at `now`.
    pub fn new_at(now: i64) -> (r: Self)
        ensures
            starting_category(r@, now),
    {
        TestCategoryBuilder {
            category: EventCategory {
                id: own("test-category"),
                name: own("Test Category"),
                description: Some(own("A test category")),
                color_hex: Some(own("#FF0000")),
                icon_name: Some(own("test-icon")),
                is_active: true,
                created_at: now,
            },
        }
    }

    /// The starting category, created now.
    pub fn new() -> (r: Self)
        ensures
            exists|now: i64| #[trigger] starting_category(r@, now),
    {
        TestCategoryBuilder::new_at(now_millis())
    }

    pub fn with_id(self, id: String) -> (r: Self)
        ensures
            r@ == (EventCategory { id, ..self@ }),
    {
        let mut b = self;
        b.category.id = id;
        b
    }

    pub fn with_name(self, name: String) -> (r: Self)
        ensures
            r@ == (EventCategory { name, ..self@ }),
    {
        let mut b = self;
        b.category.name = name;
        b
    }

    pub fn inactive(self) -> (r: Self)
        ensures
            r@ == (EventCategory { is_active: false, ..self@ }),
    {
        let mut b = self;
        b.category.is_active = false;
        b
    }

    pub fn build(self) -> (r: EventCategory)
        ensures
            r == self@,
    {
        self.category
    }
}

// ============================================================================
// Registrations
// ============================================================================

/// The registration a builder starts from: a direct registration by a
/// user, with no guests.
pub open spec fn starting_registration(r: EventRegistration, id: u128, event_id: u128, user_id: u128, now: i64) -> bool {
    &&& r.id == id
    &&& r.event_id == event_id
    &&& r.invitation_id is None
    &&& r.user_id == Some(user_id)
    &&& r.external_contact_id is None
    &&& r.registrant_email matches Some(e) && e@ == "test@example.com"@
    &&& r.registrant_name matches Some(n) && n@ == "Test User"@
    &&& r.registrant_phone is None
    &&& r.registrant_company is None
    &&& r.status == RegistrationStatus::Registered
    &&& r.registration_source == RegistrationSource::Direct
    &&& r.guest_count == 0
    &&& r.guest_names@ == Seq::<String>::empty()
    &&& r.dietary_restrictions is None
    &&& r.accessibility_needs is None
    &&& r.special_requests is None
    &&& r.custom_responses is None
    &&& r.registered_at == now
    &&& r.cancelled_at is None
    &&& r.checked_in_at is None
    &&& r.waitlist_position is None
    &&& r.waitlist_added_at is None
    &&& r.created_at == now
    &&& r.updated_at == now
}

/// `r` put on the waiting list, first in line, at `now`.
pub open spec fn put_on_waitlist(r: EventRegistration, now: i64) -> EventRegistration {
    EventRegistration {
        status: RegistrationStatus::Waitlisted,
        waitlist_added_at: Some(now),
        waitlist_position: Some(1i32),
        ..r
    }
}

/// `r` cancelled at `now`.
pub open spec fn cancelled_on(r: EventRegistration, now: i64) -> EventRegistration {
    EventRegistration { status: RegistrationStatus::Cancelled, cancelled_at: Some(now), ..r }
}

/// `r` attended, checked in at `now`.
pub open spec fn attended_on(r: EventRegistration, now: i64) -> EventRegistration {
    EventRegistration { status: RegistrationStatus::Attended, checked_in_at: Some(now), ..r }
}

/// Builds a test registration.
pub struct TestRegistrationBuilder {
    registration: EventRegistration,
}

impl View for TestRegistrationBuilder {
    type V = EventRegistration;

    closed spec fn view(&self) -> EventRegistration {
        self.registration
    }
}

impl TestRegistrationBuilder {
    /// The starting registration with `id` for event `event_id` by user
    /// `user_id`, made at `now`.
    pub fn new_at(id: u128, event_id: u128, user_id: u128, now: i64) -> (r: Self)
        ensures
            starting_registration(r@, id, event_id, user_id, now),
    {
        TestRegistrationBuilder {
            registration: EventRegistration {
                id,
                event_id,
                invitation_id: None,
                user_id: Some(user_id),
                external_contact_id: None,
                registrant_email: Some(own("test@example.com")),
                registrant_name: Some(own("Test User")),
                registrant_phone: None,
                registrant_company: None,
                status: RegistrationStatus::Registered,
                registration_source: RegistrationSource::Direct,
                guest_count: 0,
                guest_names: Vec::new(),
                dietary_restrictions: None,
                accessibility_needs: None,
                special_requests: None,
                custom_responses: None,
                registered_at: now,
                cancelled_at: None,
                checked_in_at: None,
                waitlist_position: None,
                waitlist_added_at: None,
                created_at: now,
                updated_at: now,
            },
        }
    }

    /// The starting registration with fresh ids, made now.
    pub fn new() -> (r: Self)
        ensures
            exists|id: u128, event_id: u128, user_id: u128, now: i64| #[trigger]
                starting_registration(r@, id, event_id, user_id, now),
    {
        let id = fresh_id();
        let event_id = fresh_id();
        let user_id = fresh_id();
        TestRegistrationBuilder::new_at(id, event_id, user_id, now_millis())
    }

    pub fn with_id(self, id: u128) -> (r: Self)
        ensures
            r@ == (EventRegistration { id, ..self@ }),
    {
        let mut b = self;
        b.registration.id = id;
        b
    }

    pub fn with_event(self, event_id: u128) -> (r: Self)
        ensures
            r@ == (EventRegistration { event_id, ..self@ }),
    {
        let mut b = self;
        b.registration.event_id = event_id;
        b
    }

    pub fn with_user(self, user_id: u128) -> (r: Self)
        ensures
            r@ == (EventRegistration { user_id: Some(user_id), ..self@ }),
    {
        let mut b = self;
        b.registration.user_id = Some(user_id);
        b
    }

    pub fn with_email(self, email: String) -> (r: Self)
        ensures
            r@ == (EventRegistration { registrant_email: Some(email), ..self@ }),
    {
        let mut b = self;
        b.registration.registrant_email = Some(email);
        b
    }

    pub fn with_status(self, status: RegistrationStatus) -> (r: Self)
        ensures
            r@ == (EventRegistration { status, ..self@ }),
    {
        let mut b = self;
        b.registration.status = status;
        b
    }

    /// On the waiting list, first in line, since `now`.
    pub fn waitlisted_at(self, now: i64) -> (r: Self)
        ensures
            r@ == put_on_waitlist(self@, now),
    {
        let mut b = self;
        b.registration.status = RegistrationStatus::Waitlisted;
        b.registration.waitlist_added_at = Some(now);
        b.registration.waitlist_position = Some(1);
        b
    }

    /// On the waiting list, first in line, since now.
    pub fn waitlisted(self) -> (r: Self)
        ensures
            exists|now: i64| r@ == #[trigger] put_on_waitlist(self@, now),
    {
        let now = now_millis();
        self.waitlisted_at(now)
    }

    /// Cancelled at `now`.
    pub fn cancelled_at(self, now: i64) -> (r: Self)
        ensures
            r@ == cancelled_on(self@, now),
    {
        let mut b = self;
        b.registration.status = RegistrationStatus::Cancelled;
        b.registration.cancelled_at = Some(now);
        b
    }

    /// Cancelled now.
    pub fn cancelled(self) -> (r: Self)
        ensures
            exists|now: i64| r@ == #[trigger] cancelled_on(self@, now),
    {
        let now = now_millis();
        self.cancelled_at(now)
    }

    /// Attended, checked in at `now`.
    pub fn attended_at(self, now: i64) -> (r: Self)
        ensures
            r@ == attended_on(self@, now),
    {
        let mut b = self;
        b.registration.status = RegistrationStatus::Attended;
        b.registration.checked_in_at = Some(now);
        b
    }

    /// Attended, checked in now.
    pub fn attended(self) -> (r: Self)
        ensures
            exists|now: i64| r@ == #[trigger] attended_on(self@, now),
    {
        let now = now_millis();
        self.attended_at(now)
    }

    pub fn with_guests(self, count: i32, names: Vec<String>) -> (r: Self)
        ensures
            r@ == (EventRegistration { guest_count: count, guest_names: names, ..self@ }),
    {
        let mut b = self;
        b.registration.guest_count = count;
        b.registration.guest_names = names;
        b
    }

    pub fn build(self) -> (r: EventRegistration)
        ensures
            r == self@,
    {
        self.registration
    }
}

// ============================================================================
// Requests
// ============================================================================

/// The event request the tests start from: a virtual event an hour after
/// `now`, lasting an hour, with every choice given.
pub open spec fn starting_event_request(r: CreateEventRequest, now: i64) -> bool {
    &&& r.title@ == "Test Event"@
    &&& r.description@ == "A test event"@
    &&& r.category_id@ == "general"@
    &&& r.start_date == now + MILLIS_PER_HOUR
    &&& r.end_date == now + 2 * MILLIS_PER_HOUR
    &&& r.timezone@ == "UTC"@
    &&& r.location_type == LocationType::Virtual
    &&& r.location_name is None
    &&& r.address is None
    &&& r.virtual_link matches Some(l) && l@ == "https://example.com"@
    &&& r.virtual_access_code is None
    &&& r.is_private == Some(false)
    &&& r.requires_approval == Some(false)
    &&& r.max_attendees == Some(100i32)
    &&& r.allow_guests == Some(false)
    &&& r.max_guests_per_person is None
    &&& r.registration_opens is None
    &&& r.registration_closes is None
    &&& r.registration_required == Some(true)
    &&& r.allow_waitlist == Some(false)
    &&& r.send_reminders == Some(true)
    &&& r.collect_dietary_info == Some(false)
    &&& r.collect_accessibility_info == Some(false)
    &&& r.image_url is None
    &&& r.custom_fields is None
}

/// The event request of the tests, for an event an hour after `now`.
pub fn create_event_request_at(now: i64) -> (r: CreateEventRequest)
    requires
        0 <= now < LATEST_MILLIS,
    ensures
        starting_event_request(r, now),
{
    CreateEventRequest {
        title: own("Test Event"),
        description: own("A test event"),
        category_id: own("general"),
        start_date: now + MILLIS_PER_HOUR,
        end_date: now + 2 * MILLIS_PER_HOUR,
        timezone: own("UTC"),
        location_type: LocationType::Virtual,
        location_name: None,
        address: None,
        virtual_link: Some(own("https://example.com")),
        virtual_access_code: None,
        is_private: Some(false),
        requires_approval: Some(false),
        max_attendees: Some(100),
        allow_guests: Some(false),
        max_guests_per_person: None,
        registration_opens: None,
        registration_closes: None,
        registration_required: Some(true),
        allow_waitlist: Some(false),
        send_reminders: Some(true),
        collect_dietary_info: Some(false),
        collect_accessibility_info: Some(false),
        image_url: None,
        custom_fields: None,
    }
}

/// The event request of the tests, for an event an hour from now.
pub fn create_event_request() -> (r: CreateEventRequest)
    ensures
        exists|now: i64| 0 <= now < LATEST_MILLIS && #[trigger] starting_event_request(r, now),
{
    create_event_request_at(now_millis())
}

/// The user request of the tests, whose Keycloak id is made of
/// `keycloak_key`.
pub fn create_user_request_at(keycloak_key: u128) -> (r: CreateUserRequest)
    ensures
        r.keycloak_id@ == "keycloak_"@ + uuid_text(keycloak_key),
        r.email@ == "test@example.com"@,
        r.name@ == "Test User"@,
        r.company_id is None,
        r.role == Some(UserRole::Participant),
{
    let key = uuid_to_string(keycloak_key);
    CreateUserRequest {
        keycloak_id: concat("keycloak_", key.as_str()),
        email: own("test@example.com"),
        name: own("Test User"),
        company_id: None,
        role: Some(UserRole::Participant),
    }
}

/// The user request of the tests, with a fresh Keycloak id.
pub fn create_user_request() -> (r: CreateUserRequest)
    ensures
        exists|k: u128| r.keycloak_id@ == "keycloak_"@ + #[trigger] uuid_text(k),
        r.email@ == "test@example.com"@,
        r.name@ == "Test User"@,
        r.company_id is None,
        r.role == Some(UserRole::Participant),
{
    create_user_request_at(fresh_id())
}

// ============================================================================
// Claims
// ============================================================================

/// Claims of subject `sub` with `email`, `name` and the one role `role`,
/// issued at `now` (seconds) and valid for an hour.
pub open spec fn test_claims(c: Claims, sub: u128, email: Seq<char>, name: Seq<char>, role: Seq<char>, now: i64) -> bool {
    &&& c.sub@ == uuid_text(sub)
    &&& parsed_uuid(c.sub@) == Some(sub)
    &&& c.email@ == email
    &&& c.name@ == name
    &&& c.roles matches Some(roles) && roles@.len() == 1 && roles@[0]@ == role
    &&& c.exp == (now + TEST_TOKEN_SECONDS) as usize
    &&& c.iat == now as usize
}

fn claims_with_role(sub: u128, email: &str, name: &str, role: &str, now: i64) -> (r: Claims)
    requires
        0 <= now <= LATEST_SECONDS,
    ensures
        test_claims(r, sub, email@, name@, role@, now),
{
    let mut roles: Vec<String> = Vec::new();
    roles.push(own(role));
    Claims {
        sub: uuid_to_string(sub),
        email: own(email),
        name: own(name),
        roles: Some(roles),
        exp: (now + TEST_TOKEN_SECONDS) as usize,
        iat: now as usize,
    }
}

/// Claims of an administrator with subject `sub`, issued at `now`.
pub fn create_admin_claims_at(sub: u128, now: i64) -> (r: Claims)
    requires
        0 <= now <= LATEST_SECONDS,
    ensures
        test_claims(r, sub, "admin@example.com"@, "Admin User"@, "admin"@, now),
{
    claims_with_role(sub, "admin@example.com", "Admin User", "admin", now)
}

/// Claims of an administrator with a fresh subject, issued now.
pub fn create_admin_claims() -> (r: Claims)
    ensures
        exists|sub: u128, now: i64|
            0 <= now <= LATEST_SECONDS && #[trigger] test_claims(
                r,
                sub,
                "admin@example.com"@,
                "Admin User"@,
                "admin"@,
                now,
            ),
{
    create_admin_claims_at(fresh_id(), now_seconds())
}

/// Claims of an organiser with subject `sub`, issued at `now`.
pub fn create_organizer_claims_at(sub: u128, now: i64) -> (r: Claims)
    requires
        0 <= now <= LATEST_SECONDS,
    ensures
        test_claims(r, sub, "organizer@example.com"@, "Organizer User"@, "organizer"@, now),
{
    claims_with_role(sub, "organizer@example.com", "Organizer User", "organizer", now)
}

/// Claims of an organiser with a fresh subject, issued now.
pub fn create_organizer_claims() -> (r: Claims)
    ensures
        exists|sub: u128, now: i64|
            0 <= now <= LATEST_SECONDS && #[trigger] test_claims(
                r,
                sub,
                "organizer@example.com"@,
                "Organizer User"@,
                "organizer"@,
                now,
            ),
{
    create_organizer_claims_at(fresh_id(), now_seconds())
}

/// Claims of a participant with subject `sub`, issued at `now`.
pub fn create_participant_claims_at(sub: u128, now: i64) -> (r: Claims)
    requires
        0 <= now <= LATEST_SECONDS,
    ensures
        test_claims(r, sub, "participant@example.com"@, "Participant User"@, "participant"@, now),
{
    claims_with_role(sub, "participant@example.com", "Participant User", "participant", now)
}

/// Claims of a participant with a fresh subject, issued now.
pub fn create_participant_claims() -> (r: Claims)
    ensures
        exists|sub: u128, now: i64|
            0 <= now <= LATEST_SECONDS && #[trigger] test_claims(
                r,
                sub,
                "participant@example.com"@,
                "Participant User"@,
                "participant"@,
                now,
            ),
{
    create_participant_claims_at(fresh_id(), now_seconds())
}

// ============================================================================
// Scenarios
// ============================================================================

/// An organiser and a published event of theirs, created at `now`, each
/// stored in a repository of its own.
pub fn setup_event_with_organizer_at(event_id: u128, organizer_id: u128, keycloak_key: u128, now: i64) -> (r: (
    Event,
    User,
    MockEventRepository,
    MockUserRepository,
))
    requires
        0 <= now < LATEST_MILLIS,
    ensures
        ({
            let (event, organizer, events, users) = r;
            &&& organizer.id == organizer_id
            &&& organizer.keycloak_id@ == "keycloak_"@ + uuid_text(keycloak_key)
            &&& organizer.email@ == "organizer@example.com"@
            &&& organizer.name@ == "Test User"@
            &&& organizer.company_id is None
            &&& organizer.role == UserRole::Organizer
            &&& organizer.is_active
            &&& organizer.created_at == now && organizer.updated_at == now
            &&& starting_event(Event { status: EventStatus::Draft, ..event }, event_id, organizer_id, now)
            &&& event.status == EventStatus::Published
            &&& events.well_formed() && !events.failing()
            &&& events@ == Map::<u128, Event>::empty().insert(event_id, image(event))
            &&& users.well_formed() && !users.failing()
            &&& users.users() == Map::<u128, User>::empty().insert(organizer_id, organizer)
            &&& users.emails() == Map::<Seq<char>, EmailEntry>::empty().insert(
                organizer.email@,
                EmailEntry { email: organizer.email, user_id: organizer_id },
            )
        }),
{
    let organizer = TestUserBuilder::new_at(organizer_id, keycloak_key, now).organizer().with_email(
        own("organizer@example.com"),
    ).build();
    let event = TestEventBuilder::new_at(event_id, organizer_id, now).with_organizer(organizer.id).published().build();
    let mut events = MockEventRepository::new();
    let mut users = MockUserRepository::new();
    events.add_event(copy_event(&event));
    users.add_user(copy_user(&organizer));
    (event, organizer, events, users)
}

/// The categories `general`, `workshop` and the inactive `inactive`,
/// created at `now`: listed in that order, and stored in a repository.
pub fn setup_categories_at(now: i64) -> (r: (Vec<EventCategory>, MockEventCategoryRepository))
    ensures
        ({
            let (categories, repo) = r;
            &&& categories@.len() == 3
            &&& categories@[0].id@ == "general"@ && categories@[0].name@ == "General"@
            &&& categories@[1].id@ == "workshop"@ && categories@[1].name@ == "Workshop"@
            &&& categories@[2].id@ == "inactive"@ && categories@[2].name@ == "Inactive Category"@
            &&& categories@[0].is_active && categories@[1].is_active && !categories@[2].is_active
            &&& forall|i: int| 0 <= i < 3 ==> #[trigger] test_category_details(categories@[i], now)
            &&& repo.well_formed() && !repo.failing()
            &&& repo@ == Map::<Seq<char>, EventCategory>::empty().insert(categories@[0].id@, categories@[0]).insert(
                categories@[1].id@,
                categories@[1],
            ).insert(categories@[2].id@, categories@[2])
        }),
{
    let mut categories: Vec<EventCategory> = Vec::new();
    categories.push(TestCategoryBuilder::new_at(now).with_id(own("general")).with_name(own("General")).build());
    categories.push(TestCategoryBuilder::new_at(now).with_id(own("workshop")).with_name(own("Workshop")).build());
    categories.push(
        TestCategoryBuilder::new_at(now).with_id(own("inactive")).with_name(own("Inactive Category")).inactive().build(),
    );
    let mut repo = MockEventCategoryRepository::new();
    let mut i: usize = 0;
    while i < categories.len()
        invariant
            i <= categories.len(),
            categories.len() == 3,
            repo.well_formed(),
            !repo.failing(),
            i == 0 ==> repo@ == Map::<Seq<char>, EventCategory>::empty(),
            i == 1 ==> repo@ == Map::<Seq<char>, EventCategory>::empty().insert(categories@[0].id@, categories@[0]),
            i == 2 ==> repo@ == Map::<Seq<char>, EventCategory>::empty().insert(categories@[0].id@, categories@[0]).insert(
                categories@[1].id@,
                categories@[1],
            ),
            i == 3 ==> repo@ == Map::<Seq<char>, EventCategory>::empty().insert(categories@[0].id@, categories@[0]).insert(
                categories@[1].id@,
                categories@[1],
            ).insert(categories@[2].id@, categories@[2]),
        decreases categories.len() - i,
    {
        repo.add_category(copy_category(&categories[i]));
        i = i + 1;
    }
    (categories, repo)
}

} // verus!
