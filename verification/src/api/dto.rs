//! What the API exchanges: query parameters and pages, response envelopes,
//! health reports, and the requests that create and change entities.

use vstd::prelude::*;
use crate::api::errors::{ApiError, ApiErrorView, ApiResult};
use crate::clock::now_millis;
use crate::domain::errors::DomainErrorView;
use crate::domain::models::{
    invitation_creation_check, DomainValidation, Event, EventCategory, EventFilter, EventInvitation,
    EventRegistration, EventStatus, InvitationMethod, InvitationStatus, LocationType, PaginatedResult,
    PaginationParams, RegistrationSource, RegistrationStatus, User, UserRole,
};
use crate::ids::fresh_id;
use crate::text::{byte_len, clone_opt, clone_strings, is_blank, is_blank_text, own};

verus! {

// ============================================================================
// Query parameters and pages
// ============================================================================

/// A validation error of the API on `field`.
pub open spec fn api_validation(field: Seq<char>, message: Seq<char>) -> ApiErrorView {
    ApiErrorView::Validation { field, message }
}

/// The page size asked for: 50 when none is given, and kept between 1 and
/// 1000.
pub open spec fn query_limit(limit: Option<u32>) -> i64 {
    let l = match limit {
        Some(l) => l,
        None => 50u32,
    };
    if l > 1000 {
        1000
    } else if l < 1 {
        1
    } else {
        l as i64
    }
}

/// The offset of the page asked for: pages count from 1 (the default), and
/// page 0 is read as page 1.
pub open spec fn query_offset(page: Option<u32>, limit: Option<u32>) -> i64 {
    let p = match page {
        Some(p) => p,
        None => 1u32,
    };
    ((if p == 0 { 0 } else { p - 1 }) * query_limit(limit)) as i64
}

/// The page size and offset that `page` and `limit` ask for.
fn page_window(page: Option<u32>, limit: Option<u32>) -> (r: (i64, i64))
    ensures
        r.0 == query_offset(page, limit),
        r.1 == query_limit(limit),
        0 <= r.0,
        1 <= r.1 <= 1000,
{
    let p: u32 = match page {
        Some(p) => p,
        None => 1,
    };
    let asked: u32 = match limit {
        Some(l) => l,
        None => 50,
    };
    let l: u32 = if asked > 1000 {
        1000
    } else if asked < 1 {
        1
    } else {
        asked
    };
    let before: u32 = if p == 0 {
        0
    } else {
        p - 1
    };
    assert((before as int) * (l as int) <= 4294967295 * 1000) by (nonlinear_arith)
        requires
            before <= 4294967295,
            l <= 1000,
    ;
    assert(0 <= (before as int) * (l as int)) by (nonlinear_arith);
    let offset: i64 = (before as i64) * (l as i64);
    (offset, l as i64)
}

/// Paging parameters of a listing request.
#[derive(Debug, Clone)]
pub struct PaginationQuery {
    pub page: Option<u32>,
    pub limit: Option<u32>,
}

impl PaginationQuery {
    /// The page asked for; it is always a valid page.
    pub fn to_pagination_params(&self) -> (r: ApiResult<PaginationParams>)
        ensures
            r matches Ok(p) && p.offset == query_offset(self.page, self.limit) && p.limit == query_limit(
                self.limit,
            ),
    {
        let (offset, limit) = page_window(self.page, self.limit);
        match PaginationParams::new(offset, limit) {
            Ok(p) => Ok(p),
            Err(e) => Err(ApiError::validation("pagination", e.to_text().as_str())),
        }
    }
}

/// Parameters of an event listing: the page, and the criteria.
#[derive(Debug, Clone)]
pub struct ListEventsQuery {
    pub page: Option<u32>,
    pub limit: Option<u32>,
    pub title_contains: Option<String>,
    pub category_id: Option<String>,
    pub organizer_id: Option<u128>,
    pub is_private: Option<bool>,
    pub status: Option<EventStatus>,
    pub location_type: Option<LocationType>,
    pub start_date_from: Option<i64>,
    pub start_date_to: Option<i64>,
}

impl ListEventsQuery {
    /// The criteria and the page asked for; the page is always valid.
    pub fn to_filter_and_pagination(&self) -> (r: ApiResult<(EventFilter, PaginationParams)>)
        ensures
            r matches Ok((f, p)) && f == (EventFilter {
                title_contains: self.title_contains,
                category_id: self.category_id,
                organizer_id: self.organizer_id,
                is_private: self.is_private,
                status: self.status,
                location_type: self.location_type,
                start_date_from: self.start_date_from,
                start_date_to: self.start_date_to,
            }) && p.offset == query_offset(self.page, self.limit) && p.limit == query_limit(self.limit),
    {
        let filter = EventFilter {
            title_contains: clone_opt(&self.title_contains),
            category_id: clone_opt(&self.category_id),
            organizer_id: self.organizer_id,
            is_private: self.is_private,
            status: self.status,
            location_type: self.location_type,
            start_date_from: self.start_date_from,
            start_date_to: self.start_date_to,
        };
        let (offset, limit) = page_window(self.page, self.limit);
        match PaginationParams::new(offset, limit) {
            Ok(p) => Ok((filter, p)),
            Err(e) => Err(ApiError::validation("pagination", e.to_text().as_str())),
        }
    }
}

/// Where a page stands in its listing.
#[derive(Debug, Clone, Copy)]
pub struct PaginationInfo {
    pub page: u32,
    pub limit: i64,
    pub total_count: i64,
    pub has_next: bool,
    pub has_prev: bool,
    pub total_pages: u32,
}

/// How many pages of `limit` items hold `total_count` items (rounded up,
/// none for a listing without items, and at most `u32::MAX`).
pub open spec fn page_count(total_count: i64, limit: i64) -> u32
    recommends
        limit > 0,
{
    if total_count <= 0 {
        0
    } else {
        let pages = (total_count + limit - 1) / (limit as int);
        if pages > u32::MAX {
            u32::MAX
        } else {
            pages as u32
        }
    }
}

/// The position of a page: its number (counted from 1, as the offset over
/// the limit), whether pages come before or after it, and how many pages
/// the listing has.
pub open spec fn pagination_info(offset: i64, limit: i64, total_count: i64, has_next: bool) -> PaginationInfo
    recommends
        offset >= 0,
        limit > 0,
{
    let page = ((offset / limit + 1) as int) as u32;
    PaginationInfo {
        page,
        limit,
        total_count,
        has_next,
        has_prev: page > 1,
        total_pages: page_count(total_count, limit),
    }
}

impl PaginationInfo {
    /// Where the page `result` stands in its listing. A page has a
    /// non-negative offset and a positive limit.
    pub fn from_paginated_result<T>(result: &PaginatedResult<T>) -> (r: Self)
        requires
            result.offset >= 0,
            result.limit > 0,
            result.offset / result.limit < i64::MAX,
        ensures
            r == pagination_info(result.offset, result.limit, result.total_count, result.has_next),
    {
        let page_index: i64 = result.offset / result.limit + 1;
        let page: u32 = page_index as u32;
        let total_pages: u32 = if result.total_count <= 0 {
            0
        } else {
            let pages: i64 = (result.total_count - 1) / result.limit + 1;
            assert(pages == (result.total_count + result.limit - 1) / (result.limit as int)) by (nonlinear_arith)
                requires
                    result.total_count > 0,
                    result.limit > 0,
                    pages == (result.total_count - 1) / (result.limit as int) + 1,
            ;
            if pages > 4294967295 {
                4294967295
            } else {
                pages as u32
            }
        };
        PaginationInfo {
            page,
            limit: result.limit,
            total_count: result.total_count,
            has_next: result.has_next,
            has_prev: page > 1,
            total_pages,
        }
    }
}

/// The envelope of an API answer: the data on success, the error's text
/// otherwise.
#[derive(Debug, Clone)]
pub struct ApiResponse<T> {
    pub success: bool,
    pub data: Option<T>,
    pub error: Option<String>,
}

impl<T> ApiResponse<T> {
    pub fn success(data: T) -> (r: Self)
        ensures
            r.success,
            r.data == Some(data),
            r.error is None,
    {
        ApiResponse { success: true, data: Some(data), error: None }
    }

    pub fn error(message: &str) -> (r: Self)
        ensures
            !r.success,
            r.data is None,
            r.error matches Some(m) && m@ == message@,
    {
        ApiResponse { success: false, data: None, error: Some(own(message)) }
    }
}

// ============================================================================
// Health
// ============================================================================

/// The health of one service the API relies on.
#[derive(Debug, Clone)]
pub struct ServiceHealth {
    pub status: String,
    pub details: Option<String>,
}

/// The health of the services the API relies on.
#[derive(Debug, Clone)]
pub struct HealthServices {
    pub database: ServiceHealth,
    pub auth: ServiceHealth,
}

/// A health report, taken at `timestamp` by the API of `version`.
#[derive(Debug, Clone)]
pub struct HealthResponse {
    pub status: String,
    pub timestamp: i64,
    pub version: String,
    pub services: HealthServices,
}

impl HealthResponse {
    /// Everything is healthy.
    pub fn healthy(timestamp: i64, version: &str) -> (r: Self)
        ensures
            r.status@ == "healthy"@,
            r.timestamp == timestamp,
            r.version@ == version@,
            r.services.database.status@ == "healthy"@,
            r.services.database.details is None,
            r.services.auth.status@ == "healthy"@,
            r.services.auth.details is None,
    {
        HealthResponse {
            status: own("healthy"),
            timestamp,
            version: own(version),
            services: HealthServices {
                database: ServiceHealth { status: own("healthy"), details: None },
                auth: ServiceHealth { status: own("healthy"), details: None },
            },
        }
    }

    /// The API is unhealthy, for the reason `details` (given for the
    /// database); the services' states are unknown.
    pub fn unhealthy(timestamp: i64, version: &str, details: &str) -> (r: Self)
        ensures
            r.status@ == "unhealthy"@,
            r.timestamp == timestamp,
            r.version@ == version@,
            r.services.database.status@ == "unknown"@,
            r.services.database.details matches Some(d) && d@ == details@,
            r.services.auth.status@ == "unknown"@,
            r.services.auth.details is None,
    {
        HealthResponse {
            status: own("unhealthy"),
            timestamp,
            version: own(version),
            services: HealthServices {
                database: ServiceHealth { status: own("unknown"), details: Some(own(details)) },
                auth: ServiceHealth { status: own("unknown"), details: None },
            },
        }
    }
}

/// Counts of an event's registrations by status.
#[derive(Debug, Clone, Copy)]
pub struct EventRegistrationStatsResponse {
    pub total_registered: usize,
    pub total_attended: usize,
    pub total_waitlisted: usize,
    pub total_cancelled: usize,
}

// ============================================================================
// Requests that create and change entities
// ============================================================================

/// `r` is the outcome `expected` describes: success exactly when it is
/// `Ok`, and otherwise the error it names.
pub open spec fn api_outcome(r: ApiResult<()>, expected: Result<(), ApiErrorView>) -> bool {
    match r {
        Ok(_) => expected is Ok,
        Err(e) => expected == Err::<(), ApiErrorView>(e@),
    }
}

/// A request to create an event.
#[derive(Debug, Clone)]
pub struct CreateEventRequest {
    pub title: String,
    pub description: String,
    pub category_id: String,
    pub start_date: i64,
    pub end_date: i64,
    pub timezone: String,
    pub location_type: LocationType,
    pub location_name: Option<String>,
    pub address: Option<String>,
    pub virtual_link: Option<String>,
    pub virtual_access_code: Option<String>,
    pub is_private: Option<bool>,
    pub requires_approval: Option<bool>,
    pub max_attendees: Option<i32>,
    pub allow_guests: Option<bool>,
    pub max_guests_per_person: Option<i32>,
    pub registration_opens: Option<i64>,
    pub registration_closes: Option<i64>,
    pub registration_required: Option<bool>,
    pub allow_waitlist: Option<bool>,
    pub send_reminders: Option<bool>,
    pub collect_dietary_info: Option<bool>,
    pub collect_accessibility_info: Option<bool>,
    pub image_url: Option<String>,
    pub custom_fields: Option<String>,
}

/// The rules a request to create an event must meet, checked in this
/// order: a title of at most 200 bytes and a description, each more than
/// white space; an end after the start; positive limits; a virtual link for
/// virtual and hybrid events; a location name or address for physical and
/// hybrid events.
pub open spec fn create_event_check(req: CreateEventRequest) -> Result<(), ApiErrorView> {
    if is_blank(req.title@) {
        Err(api_validation("title"@, "Title cannot be empty"@))
    } else if byte_len(req.title@) > 200 {
        Err(api_validation("title"@, "Title cannot exceed 200 characters"@))
    } else if is_blank(req.description@) {
        Err(api_validation("description"@, "Description cannot be empty"@))
    } else if req.start_date >= req.end_date {
        Err(api_validation("dates"@, "End date must be after start date"@))
    } else if req.max_attendees matches Some(m) && m <= 0 {
        Err(api_validation("max_attendees"@, "Maximum attendees must be positive"@))
    } else if req.max_guests_per_person matches Some(m) && m <= 0 {
        Err(api_validation("max_guests_per_person"@, "Maximum guests per person must be positive"@))
    } else {
        match req.location_type {
            LocationType::Virtual => if req.virtual_link is None {
                Err(api_validation("virtual_link"@, "Virtual link is required for virtual events"@))
            } else {
                Ok(())
            },
            LocationType::Physical => if req.location_name is None && req.address is None {
                Err(api_validation("location"@, "Location name or address is required for physical events"@))
            } else {
                Ok(())
            },
            LocationType::Hybrid => if req.virtual_link is None {
                Err(api_validation("virtual_link"@, "Virtual link is required for hybrid events"@))
            } else if req.location_name is None && req.address is None {
                Err(api_validation("location"@, "Location name or address is required for hybrid events"@))
            } else {
                Ok(())
            },
        }
    }
}

/// The parts of an event request that do not concern its location are in
/// order: a title of at most 200 bytes and a description, neither blank; a
/// start before the end; and limits, where given, above zero.
pub open spec fn event_request_basics(req: CreateEventRequest) -> bool {
    &&& !is_blank(req.title@)
    &&& byte_len(req.title@) <= 200
    &&& !is_blank(req.description@)
    &&& req.start_date < req.end_date
    &&& (req.max_attendees matches Some(m) ==> m > 0)
    &&& (req.max_guests_per_person matches Some(g) ==> g > 0)
}

/// Event requests: none is accepted whose title, description, dates or
/// limits are out of order; one whose are in order is accepted exactly when
/// its location is given as its kind asks: a location name or an address
/// (either will do) for a physical event, a link for a virtual one, and
/// both a link and a name or address for a hybrid one.
pub proof fn law_event_request_acceptance(req: CreateEventRequest)
    ensures
        create_event_check(req) is Ok ==> event_request_basics(req),
        event_request_basics(req) && req.location_type is Physical ==> (create_event_check(req) is Ok <==> (
        req.location_name is Some || req.address is Some)),
        event_request_basics(req) && req.location_type is Virtual ==> (create_event_check(req) is Ok <==> req.virtual_link is Some),
        event_request_basics(req) && req.location_type is Hybrid ==> (create_event_check(req) is Ok <==> (
        req.virtual_link is Some && (req.location_name is Some || req.address is Some))),
{
}

/// `e` is the event `req` describes, organised by `organizer_id`: a draft
/// without co-organisers, with the request's settings where it gives them
/// and the defaults otherwise (registration required and reminders sent,
/// every other flag off). Its id and instants are not fixed here.
pub open spec fn event_from_request(e: Event, req: CreateEventRequest, organizer_id: u128) -> bool {
    &&& e == (Event {
        id: e.id,
        title: req.title,
        description: req.description,
        category_id: req.category_id,
        start_date: req.start_date,
        end_date: req.end_date,
        timezone: req.timezone,
        location_type: req.location_type,
        location_name: req.location_name,
        address: req.address,
        virtual_link: req.virtual_link,
        virtual_access_code: req.virtual_access_code,
        organizer_id,
        co_organizers: e.co_organizers,
        is_private: req.is_private.unwrap_or(false),
        requires_approval: req.requires_approval.unwrap_or(false),
        max_attendees: req.max_attendees,
        allow_guests: req.allow_guests.unwrap_or(false),
        max_guests_per_person: req.max_guests_per_person,
        registration_opens: req.registration_opens,
        registration_closes: req.registration_closes,
        registration_required: req.registration_required.unwrap_or(true),
        allow_waitlist: req.allow_waitlist.unwrap_or(false),
        send_reminders: req.send_reminders.unwrap_or(true),
        collect_dietary_info: req.collect_dietary_info.unwrap_or(false),
        collect_accessibility_info: req.collect_accessibility_info.unwrap_or(false),
        image_url: req.image_url,
        custom_fields: req.custom_fields,
        status: EventStatus::Draft,
        created_at: e.created_at,
        updated_at: e.updated_at,
    })
    &&& e.co_organizers@ == Seq::<u128>::empty()
}

impl CreateEventRequest {
    /// Checks the request against the rules of `create_event_check`.
    pub fn validate(&self) -> (r: ApiResult<()>)
        ensures
            api_outcome(r, create_event_check(*self)),
    {
        if is_blank_text(self.title.as_str()) {
            return Err(ApiError::validation("title", "Title cannot be empty"));
        }
        if self.title.as_str().len() > 200 {
            return Err(ApiError::validation("title", "Title cannot exceed 200 characters"));
        }
        if is_blank_text(self.description.as_str()) {
            return Err(ApiError::validation("description", "Description cannot be empty"));
        }
        if self.start_date >= self.end_date {
            return Err(ApiError::validation("dates", "End date must be after start date"));
        }
        if let Some(max) = self.max_attendees {
            if max <= 0 {
                return Err(ApiError::validation("max_attendees", "Maximum attendees must be positive"));
            }
        }
        if let Some(max_guests) = self.max_guests_per_person {
            if max_guests <= 0 {
                return Err(
                    ApiError::validation("max_guests_per_person", "Maximum guests per person must be positive"),
                );
            }
        }
        match self.location_type {
            LocationType::Virtual => {
                if self.virtual_link.is_none() {
                    return Err(ApiError::validation("virtual_link", "Virtual link is required for virtual events"));
                }
            },
            LocationType::Physical => {
                if self.location_name.is_none() && self.address.is_none() {
                    return Err(
                        ApiError::validation("location", "Location name or address is required for physical events"),
                    );
                }
            },
            LocationType::Hybrid => {
                if self.virtual_link.is_none() {
                    return Err(ApiError::validation("virtual_link", "Virtual link is required for hybrid events"));
                }
                if self.location_name.is_none() && self.address.is_none() {
                    return Err(
                        ApiError::validation("location", "Location name or address is required for hybrid events"),
                    );
                }
            },
        }
        Ok(())
    }

    /// The event this request describes, with id `id`, created at `now`;
    /// an invalid request is refused with the first rule it breaks.
    pub fn to_domain_event_at(&self, organizer_id: u128, id: u128, now: i64) -> (r: ApiResult<Event>)
        ensures
            match r {
                Ok(e) => create_event_check(*self) is Ok && event_from_request(e, *self, organizer_id) && e.id == id
                    && e.created_at == now && e.updated_at == now,
                Err(err) => create_event_check(*self) == Err::<(), ApiErrorView>(err@),
            },
    {
        match self.validate() {
            Ok(_) => {},
            Err(e) => return Err(e),
        }
        Ok(
            Event {
                id,
                title: self.title.clone(),
                description: self.description.clone(),
                category_id: self.category_id.clone(),
                start_date: self.start_date,
                end_date: self.end_date,
                timezone: self.timezone.clone(),
                location_type: self.location_type,
                location_name: clone_opt(&self.location_name),
                address: clone_opt(&self.address),
                virtual_link: clone_opt(&self.virtual_link),
                virtual_access_code: clone_opt(&self.virtual_access_code),
                organizer_id,
                co_organizers: Vec::new(),
                is_private: self.is_private.unwrap_or(false),
                requires_approval: self.requires_approval.unwrap_or(false),
                max_attendees: self.max_attendees,
                allow_guests: self.allow_guests.unwrap_or(false),
                max_guests_per_person: self.max_guests_per_person,
                registration_opens: self.registration_opens,
                registration_closes: self.registration_closes,
                registration_required: self.registration_required.unwrap_or(true),
                allow_waitlist: self.allow_waitlist.unwrap_or(false),
                send_reminders: self.send_reminders.unwrap_or(true),
                collect_dietary_info: self.collect_dietary_info.unwrap_or(false),
                collect_accessibility_info: self.collect_accessibility_info.unwrap_or(false),
                image_url: clone_opt(&self.image_url),
                custom_fields: clone_opt(&self.custom_fields),
                status: EventStatus::Draft,
                created_at: now,
                updated_at: now,
            },
        )
    }

    /// The event this request describes, with a fresh id, created now.
    pub fn to_domain_event(&self, organizer_id: u128) -> (r: ApiResult<Event>)
        ensures
            match r {
                Ok(e) => create_event_check(*self) is Ok && event_from_request(e, *self, organizer_id)
                    && e.created_at == e.updated_at,
                Err(err) => create_event_check(*self) == Err::<(), ApiErrorView>(err@),
            },
    {
        self.to_domain_event_at(organizer_id, fresh_id(), now_millis())
    }
}

/// Request types that check themselves before they are used.
pub trait Validate {
    fn validate(&self) -> (r: ApiResult<()>);
}

impl Validate for CreateEventRequest {
    fn validate(&self) -> (r: ApiResult<()>)
        ensures
            api_outcome(r, create_event_check(*self)),
    {
        CreateEventRequest::validate(self)
    }
}

/// A request to create a user.
#[derive(Debug, Clone)]
pub struct CreateUserRequest {
    pub keycloak_id: String,
    pub email: String,
    pub name: String,
    pub company_id: Option<u128>,
    pub role: Option<UserRole>,
}

/// The rules a request to create a user must meet: an email address and a
/// name, each more than white space.
pub open spec fn create_user_check(req: CreateUserRequest) -> Result<(), ApiErrorView> {
    if is_blank(req.email@) {
        Err(api_validation("email"@, "Email cannot be empty"@))
    } else if is_blank(req.name@) {
        Err(api_validation("name"@, "Name cannot be empty"@))
    } else {
        Ok(())
    }
}

impl CreateUserRequest {
    /// The active user this request describes (a participant unless a role
    /// is given), with id `id`, created at `now`.
    pub fn to_domain_user_at(self, id: u128, now: i64) -> (r: ApiResult<User>)
        ensures
            match r {
                Ok(u) => create_user_check(self) is Ok && u == (User {
                    id,
                    keycloak_id: self.keycloak_id,
                    email: self.email,
                    name: self.name,
                    company_id: self.company_id,
                    role: self.role.unwrap_or(UserRole::Participant),
                    is_active: true,
                    created_at: now,
                    updated_at: now,
                }),
                Err(err) => create_user_check(self) == Err::<(), ApiErrorView>(err@),
            },
    {
        if is_blank_text(self.email.as_str()) {
            return Err(ApiError::validation("email", "Email cannot be empty"));
        }
        if is_blank_text(self.name.as_str()) {
            return Err(ApiError::validation("name", "Name cannot be empty"));
        }
        Ok(
            User {
                id,
                keycloak_id: self.keycloak_id,
                email: self.email,
                name: self.name,
                company_id: self.company_id,
                role: match self.role {
                    Some(role) => role,
                    None => UserRole::Participant,
                },
                is_active: true,
                created_at: now,
                updated_at: now,
            },
        )
    }

    /// The user this request describes, with a fresh id, created now.
    pub fn to_domain_user(self) -> (r: ApiResult<User>)
        ensures
            match r {
                Ok(u) => create_user_check(self) is Ok && u == (User {
                    id: u.id,
                    keycloak_id: self.keycloak_id,
                    email: self.email,
                    name: self.name,
                    company_id: self.company_id,
                    role: self.role.unwrap_or(UserRole::Participant),
                    is_active: true,
                    created_at: u.created_at,
                    updated_at: u.created_at,
                }),
                Err(err) => create_user_check(self) == Err::<(), ApiErrorView>(err@),
            },
    {
        let id = fresh_id();
        let now = now_millis();
        self.to_domain_user_at(id, now)
    }
}

/// A request to change a user; `None` leaves a field as it is.
#[derive(Debug, Clone)]
pub struct UpdateUserRequest {
    pub email: Option<String>,
    pub name: Option<String>,
    pub company_id: Option<Option<u128>>,
    pub role: Option<UserRole>,
    pub is_active: Option<bool>,
}

/// A new email address or name given must be more than white space.
pub open spec fn update_user_check(req: UpdateUserRequest) -> Result<(), ApiErrorView> {
    if req.email matches Some(e) && is_blank(e@) {
        Err(api_validation("email"@, "Email cannot be empty"@))
    } else if req.name matches Some(n) && is_blank(n@) {
        Err(api_validation("name"@, "Name cannot be empty"@))
    } else {
        Ok(())
    }
}

/// `user` with the changes `req` asks for, changed at `now`.
pub open spec fn user_updated(user: User, req: UpdateUserRequest, now: i64) -> User {
    User {
        email: match req.email {
            Some(e) => e,
            None => user.email,
        },
        name: match req.name {
            Some(n) => n,
            None => user.name,
        },
        company_id: match req.company_id {
            Some(c) => c,
            None => user.company_id,
        },
        role: req.role.unwrap_or(user.role),
        is_active: req.is_active.unwrap_or(user.is_active),
        updated_at: now,
        ..user
    }
}

impl UpdateUserRequest {
    /// `user` with the changes asked for, changed at `now`.
    pub fn apply_to_user_at(self, user: User, now: i64) -> (r: ApiResult<User>)
        ensures
            match r {
                Ok(u) => update_user_check(self) is Ok && u == user_updated(user, self, now),
                Err(err) => update_user_check(self) == Err::<(), ApiErrorView>(err@),
            },
    {
        let mut user = user;
        if let Some(email) = self.email {
            if is_blank_text(email.as_str()) {
                return Err(ApiError::validation("email", "Email cannot be empty"));
            }
            user.email = email;
        }
        if let Some(name) = self.name {
            if is_blank_text(name.as_str()) {
                return Err(ApiError::validation("name", "Name cannot be empty"));
            }
            user.name = name;
        }
        if let Some(company_id) = self.company_id {
            user.company_id = company_id;
        }
        if let Some(role) = self.role {
            user.role = role;
        }
        if let Some(is_active) = self.is_active {
            user.is_active = is_active;
        }
        user.updated_at = now;
        Ok(user)
    }

    /// `user` with the changes asked for, changed now.
    pub fn apply_to_user(self, user: User) -> (r: ApiResult<User>)
        ensures
            match r {
                Ok(u) => update_user_check(self) is Ok && u == user_updated(user, self, u.updated_at),
                Err(err) => update_user_check(self) == Err::<(), ApiErrorView>(err@),
            },
    {
        let now = now_millis();
        self.apply_to_user_at(user, now)
    }
}

/// A request to create an event category.
#[derive(Debug, Clone)]
pub struct CreateEventCategoryRequest {
    pub id: String,
    pub name: String,
    pub description: Option<String>,
    pub color_hex: Option<String>,
    pub icon_name: Option<String>,
    pub is_active: Option<bool>,
}

/// A category needs an id and a name, each more than white space.
pub open spec fn create_category_check(req: CreateEventCategoryRequest) -> Result<(), ApiErrorView> {
    if is_blank(req.id@) {
        Err(api_validation("id"@, "Category ID cannot be empty"@))
    } else if is_blank(req.name@) {
        Err(api_validation("name"@, "Category name cannot be empty"@))
    } else {
        Ok(())
    }
}

/// User and category requests: a user request is accepted exactly when it
/// gives an email address and a name that are more than white space; a
/// category request exactly when it gives such an id and name.
pub proof fn law_user_and_category_requests(user: CreateUserRequest, category: CreateEventCategoryRequest)
    ensures
        create_user_check(user) is Ok <==> (!is_blank(user.email@) && !is_blank(user.name@)),
        create_category_check(category) is Ok <==> (!is_blank(category.id@) && !is_blank(category.name@)),
{
}

impl CreateEventCategoryRequest {
    /// The category this request describes (active unless said otherwise),
    /// created at `now`.
    pub fn to_domain_category_at(self, now: i64) -> (r: ApiResult<EventCategory>)
        ensures
            match r {
                Ok(c) => create_category_check(self) is Ok && c == (EventCategory {
                    id: self.id,
                    name: self.name,
                    description: self.description,
                    color_hex: self.color_hex,
                    icon_name: self.icon_name,
                    is_active: self.is_active.unwrap_or(true),
                    created_at: now,
                }),
                Err(err) => create_category_check(self) == Err::<(), ApiErrorView>(err@),
            },
    {
        if is_blank_text(self.id.as_str()) {
            return Err(ApiError::validation("id", "Category ID cannot be empty"));
        }
        if is_blank_text(self.name.as_str()) {
            return Err(ApiError::validation("name", "Category name cannot be empty"));
        }
        Ok(
            EventCategory {
                id: self.id,
                name: self.name,
                description: self.description,
                color_hex: self.color_hex,
                icon_name: self.icon_name,
                is_active: self.is_active.unwrap_or(true),
                created_at: now,
            },
        )
    }

    /// The category this request describes, created now.
    pub fn to_domain_category(self) -> (r: ApiResult<EventCategory>)
        ensures
            match r {
                Ok(c) => create_category_check(self) is Ok && c == (EventCategory {
                    id: self.id,
                    name: self.name,
                    description: self.description,
                    color_hex: self.color_hex,
                    icon_name: self.icon_name,
                    is_active: self.is_active.unwrap_or(true),
                    created_at: c.created_at,
                }),
                Err(err) => create_category_check(self) == Err::<(), ApiErrorView>(err@),
            },
    {
        let now = now_millis();
        self.to_domain_category_at(now)
    }
}

/// A request to change a category; `None` leaves a field as it is.
#[derive(Debug, Clone)]
pub struct UpdateEventCategoryRequest {
    pub name: Option<String>,
    pub description: Option<Option<String>>,
    pub color_hex: Option<Option<String>>,
    pub icon_name: Option<Option<String>>,
    pub is_active: Option<bool>,
}

/// `category` with the changes `req` asks for.
pub open spec fn category_updated(category: EventCategory, req: UpdateEventCategoryRequest) -> EventCategory {
    EventCategory {
        name: match req.name {
            Some(n) => n,
            None => category.name,
        },
        description: match req.description {
            Some(d) => d,
            None => category.description,
        },
        color_hex: match req.color_hex {
            Some(c) => c,
            None => category.color_hex,
        },
        icon_name: match req.icon_name {
            Some(i) => i,
            None => category.icon_name,
        },
        is_active: req.is_active.unwrap_or(category.is_active),
        ..category
    }
}

impl UpdateEventCategoryRequest {
    /// `category` with the changes asked for; a new name must be more than
    /// white space.
    pub fn apply_to_category(self, category: EventCategory) -> (r: ApiResult<EventCategory>)
        ensures
            match r {
                Ok(c) => !(self.name matches Some(n) && is_blank(n@)) && c == category_updated(category, self),
                Err(err) => self.name matches Some(n) && is_blank(n@) && err@ == api_validation(
                    "name"@,
                    "Category name cannot be empty"@,
                ),
            },
    {
        let mut category = category;
        if let Some(name) = self.name {
            if is_blank_text(name.as_str()) {
                return Err(ApiError::validation("name", "Category name cannot be empty"));
            }
            category.name = name;
        }
        if let Some(description) = self.description {
            category.description = description;
        }
        if let Some(color_hex) = self.color_hex {
            category.color_hex = color_hex;
        }
        if let Some(icon_name) = self.icon_name {
            category.icon_name = icon_name;
        }
        if let Some(is_active) = self.is_active {
            category.is_active = is_active;
        }
        Ok(category)
    }
}

/// The request the category tests create categories with.
pub fn create_category_request() -> (r: CreateEventCategoryRequest)
    ensures
        r.id@ == "test-category"@,
        r.name@ == "Test Category"@,
        r.description matches Some(d) && d@ == "A test category"@,
        r.color_hex matches Some(c) && c@ == "#FF0000"@,
        r.icon_name matches Some(i) && i@ == "test-icon"@,
        r.is_active == Some(true),
{
    CreateEventCategoryRequest {
        id: own("test-category"),
        name: own("Test Category"),
        description: Some(own("A test category")),
        color_hex: Some(own("#FF0000")),
        icon_name: Some(own("test-icon")),
        is_active: Some(true),
    }
}

/// A request to invite someone to an event.
#[derive(Debug, Clone)]
pub struct CreateInvitationRequest {
    pub invited_user_id: Option<u128>,
    pub invited_email: Option<String>,
    pub invited_name: Option<String>,
    pub invitation_method: InvitationMethod,
    pub personal_message: Option<String>,
    pub expires_at: Option<i64>,
}

/// `i` invites whom `req` names.
pub open spec fn invites_as(i: EventInvitation, req: CreateInvitationRequest) -> bool {
    i.invited_user_id == req.invited_user_id && i.invited_email == req.invited_email && i.invited_name
        == req.invited_name
}

/// `i` is the pending invitation `req` describes, to `event_id`, from
/// `inviter_id`, not yet sent. Its id and instants are not fixed here.
pub open spec fn invitation_from_request(
    i: EventInvitation,
    req: CreateInvitationRequest,
    event_id: u128,
    inviter_id: u128,
) -> bool {
    i == (EventInvitation {
        id: i.id,
        event_id,
        invited_user_id: req.invited_user_id,
        invited_contact_id: None,
        invited_email: req.invited_email,
        invited_name: req.invited_name,
        inviter_id,
        invitation_method: req.invitation_method,
        personal_message: req.personal_message,
        status: InvitationStatus::Pending,
        sent_at: None,
        opened_at: None,
        responded_at: None,
        invitation_token: None,
        expires_at: req.expires_at,
        created_at: i.created_at,
        updated_at: i.updated_at,
    })
}

/// The domain rules refuse every invitation of whom `req` names with
/// `error`.
pub open spec fn invitation_refused(req: CreateInvitationRequest, error: DomainErrorView) -> bool {
    forall|i: EventInvitation| #[trigger]
        invites_as(i, req) ==> invitation_creation_check(i) == Err::<(), DomainErrorView>(error)
}

impl CreateInvitationRequest {
    /// The invitation this request describes, with id `id`, created at
    /// `now`; the domain's rules for new invitations decide whether it may
    /// be made.
    pub fn to_domain_invitation_at(&self, event_id: u128, inviter_id: u128, id: u128, now: i64) -> (r: ApiResult<
        EventInvitation,
    >)
        ensures
            match r {
                Ok(i) => invitation_from_request(i, *self, event_id, inviter_id) && invitation_creation_check(i) is Ok
                    && i.id == id && i.created_at == now && i.updated_at == now,
                Err(err) => err@ matches ApiErrorView::Domain { source } && invitation_refused(*self, source),
            },
    {
        let invitation = EventInvitation {
            id,
            event_id,
            invited_user_id: self.invited_user_id,
            invited_contact_id: None,
            invited_email: clone_opt(&self.invited_email),
            invited_name: clone_opt(&self.invited_name),
            inviter_id,
            invitation_method: self.invitation_method,
            personal_message: clone_opt(&self.personal_message),
            status: InvitationStatus::Pending,
            sent_at: None,
            opened_at: None,
            responded_at: None,
            invitation_token: None,
            expires_at: self.expires_at,
            created_at: now,
            updated_at: now,
        };
        match invitation.validate_for_creation() {
            Ok(_) => Ok(invitation),
            Err(e) => Err(ApiError::Domain { source: e }),
        }
    }

    /// The invitation this request describes, with a fresh id, created now.
    pub fn to_domain_invitation(&self, event_id: u128, inviter_id: u128) -> (r: ApiResult<EventInvitation>)
        ensures
            match r {
                Ok(i) => invitation_from_request(i, *self, event_id, inviter_id) && invitation_creation_check(i) is Ok
                    && i.created_at == i.updated_at,
                Err(err) => err@ matches ApiErrorView::Domain { source } && invitation_refused(*self, source),
            },
    {
        let id = fresh_id();
        let now = now_millis();
        self.to_domain_invitation_at(event_id, inviter_id, id, now)
    }
}

/// A request to set an invitation's status.
#[derive(Debug, Clone, Copy)]
pub struct UpdateInvitationStatusRequest {
    pub status: InvitationStatus,
}

/// A request to register for an event.
#[derive(Debug, Clone)]
pub struct CreateRegistrationRequest {
    pub registrant_email: Option<String>,
    pub registrant_name: Option<String>,
    pub registrant_phone: Option<String>,
    pub registrant_company: Option<String>,
    pub guest_count: Option<i32>,
    pub guest_names: Option<Vec<String>>,
    pub dietary_restrictions: Option<String>,
    pub accessibility_needs: Option<String>,
    pub special_requests: Option<String>,
    pub custom_responses: Option<String>,
}

/// Fewest and most guests a registrant may bring.
pub const MAX_GUESTS: i32 = 10;

/// The guests' names a request gives (none when it gives no list).
pub open spec fn requested_guest_names(names: Option<Vec<String>>) -> Seq<String> {
    match names {
        Some(v) => v@,
        None => Seq::empty(),
    }
}

/// The rules a registration request must meet: someone who is not signed
/// in gives an email address and a name; between 0 and 10 guests (0 when
/// not given); one name for each guest.
pub open spec fn registration_request_check(req: CreateRegistrationRequest, user_id: Option<u128>) -> Result<
    (),
    ApiErrorView,
> {
    let guests = req.guest_count.unwrap_or(0);
    if user_id is None && req.registrant_email is None {
        Err(api_validation("registrant_email"@, "Email is required for non-authenticated users"@))
    } else if user_id is None && req.registrant_name is None {
        Err(api_validation("registrant_name"@, "Name is required for non-authenticated users"@))
    } else if guests < 0 || guests > MAX_GUESTS {
        Err(api_validation("guest_count"@, "Guest count must be between 0 and 10"@))
    } else if requested_guest_names(req.guest_names).len() != guests {
        Err(api_validation("guest_names"@, "Number of guest names must match guest count"@))
    } else {
        Ok(())
    }
}

/// Registration requests: an accepted request has between 0 and 10 guests
/// (none when it gives no count) and one name for each; someone not signed
/// in must give an email address and a name. A signed-in user who brings
/// no guests and names none is always accepted.
pub proof fn law_registration_request_acceptance(req: CreateRegistrationRequest, user_id: Option<u128>)
    ensures
        registration_request_check(req, user_id) is Ok ==> ({
            let guests = match req.guest_count {
                Some(g) => g as int,
                None => 0,
            };
            &&& 0 <= guests <= 10
            &&& requested_guest_names(req.guest_names).len() == guests
            &&& (user_id is None ==> req.registrant_email is Some && req.registrant_name is Some)
        }),
        user_id is Some && req.guest_count is None && req.guest_names is None ==> registration_request_check(
            req,
            user_id,
        ) is Ok,
{
}

/// Registration updates: an accepted update leaves a guest count between 0
/// and 10, and a new list of names has one name for each guest the
/// registration then has; an update that changes neither is accepted.
pub proof fn law_registration_update_acceptance(req: UpdateRegistrationRequest, reg: EventRegistration)
    ensures
        registration_update_check(req, reg) is Ok ==> (req.guest_count matches Some(g) ==> 0 <= g <= 10),
        registration_update_check(req, reg) is Ok ==> (req.guest_names matches Some(names) ==> names.len()
            == (match req.guest_count {
            Some(g) => g,
            None => reg.guest_count,
        }) as usize),
        req.guest_count is None && req.guest_names is None ==> registration_update_check(req, reg) is Ok,
{
}

/// `reg` is the registration `req` describes for `event_id`, by `user_id`,
/// through `invitation_id`: registered (through the invitation where there
/// is one, directly otherwise), with the guests asked for and nothing
/// cancelled, checked in or waitlisted. Its id and instants are not fixed
/// here; they are all one instant.
pub open spec fn registration_from_request(
    reg: EventRegistration,
    req: CreateRegistrationRequest,
    event_id: u128,
    user_id: Option<u128>,
    invitation_id: Option<u128>,
) -> bool {
    &&& reg == (EventRegistration {
        id: reg.id,
        event_id,
        invitation_id,
        user_id,
        external_contact_id: None,
        registrant_email: req.registrant_email,
        registrant_name: req.registrant_name,
        registrant_phone: req.registrant_phone,
        registrant_company: req.registrant_company,
        status: RegistrationStatus::Registered,
        registration_source: if invitation_id is Some {
            RegistrationSource::Invitation
        } else {
            RegistrationSource::Direct
        },
        guest_count: req.guest_count.unwrap_or(0),
        guest_names: reg.guest_names,
        dietary_restrictions: req.dietary_restrictions,
        accessibility_needs: req.accessibility_needs,
        special_requests: req.special_requests,
        custom_responses: req.custom_responses,
        registered_at: reg.registered_at,
        cancelled_at: None,
        checked_in_at: None,
        waitlist_position: None,
        waitlist_added_at: None,
        created_at: reg.registered_at,
        updated_at: reg.registered_at,
    })
    &&& reg.guest_names@ == requested_guest_names(req.guest_names)
}

impl CreateRegistrationRequest {
    /// The registration this request describes, with id `id`, made at
    /// `now`; a request that breaks a rule is refused with the first one.
    pub fn to_domain_registration_at(
        &self,
        event_id: u128,
        user_id: Option<u128>,
        invitation_id: Option<u128>,
        id: u128,
        now: i64,
    ) -> (r: ApiResult<EventRegistration>)
        ensures
            match r {
                Ok(reg) => registration_request_check(*self, user_id) is Ok && registration_from_request(
                    reg,
                    *self,
                    event_id,
                    user_id,
                    invitation_id,
                ) && reg.id == id && reg.registered_at == now,
                Err(err) => registration_request_check(*self, user_id) == Err::<(), ApiErrorView>(err@),
            },
    {
        if user_id.is_none() && self.registrant_email.is_none() {
            return Err(ApiError::validation("registrant_email", "Email is required for non-authenticated users"));
        }
        if user_id.is_none() && self.registrant_name.is_none() {
            return Err(ApiError::validation("registrant_name", "Name is required for non-authenticated users"));
        }
        let guest_count: i32 = match self.guest_count {
            Some(g) => g,
            None => 0,
        };
        if guest_count < 0 || guest_count > MAX_GUESTS {
            return Err(ApiError::validation("guest_count", "Guest count must be between 0 and 10"));
        }
        let guest_names: Vec<String> = match &self.guest_names {
            Some(names) => clone_strings(names),
            None => Vec::new(),
        };
        if guest_names.len() != guest_count as usize {
            return Err(ApiError::validation("guest_names", "Number of guest names must match guest count"));
        }
        Ok(
            EventRegistration {
                id,
                event_id,
                invitation_id,
                user_id,
                external_contact_id: None,
                registrant_email: clone_opt(&self.registrant_email),
                registrant_name: clone_opt(&self.registrant_name),
                registrant_phone: clone_opt(&self.registrant_phone),
                registrant_company: clone_opt(&self.registrant_company),
                status: RegistrationStatus::Registered,
                registration_source: if invitation_id.is_some() {
                    RegistrationSource::Invitation
                } else {
                    RegistrationSource::Direct
                },
                guest_count,
                guest_names,
                dietary_restrictions: clone_opt(&self.dietary_restrictions),
                accessibility_needs: clone_opt(&self.accessibility_needs),
                special_requests: clone_opt(&self.special_requests),
                custom_responses: clone_opt(&self.custom_responses),
                registered_at: now,
                cancelled_at: None,
                checked_in_at: None,
                waitlist_position: None,
                waitlist_added_at: None,
                created_at: now,
                updated_at: now,
            },
        )
    }

    /// The registration this request describes, with a fresh id, made now.
    pub fn to_domain_registration(&self, event_id: u128, user_id: Option<u128>, invitation_id: Option<u128>) -> (r:
        ApiResult<EventRegistration>)
        ensures
            match r {
                Ok(reg) => registration_request_check(*self, user_id) is Ok && registration_from_request(
                    reg,
                    *self,
                    event_id,
                    user_id,
                    invitation_id,
                ),
                Err(err) => registration_request_check(*self, user_id) == Err::<(), ApiErrorView>(err@),
            },
    {
        let id = fresh_id();
        let now = now_millis();
        self.to_domain_registration_at(event_id, user_id, invitation_id, id, now)
    }
}

/// A request to change a registration; `None` leaves a field as it is.
#[derive(Debug, Clone)]
pub struct UpdateRegistrationRequest {
    pub registrant_email: Option<String>,
    pub registrant_name: Option<String>,
    pub registrant_phone: Option<String>,
    pub registrant_company: Option<String>,
    pub guest_count: Option<i32>,
    pub guest_names: Option<Vec<String>>,
    pub dietary_restrictions: Option<String>,
    pub accessibility_needs: Option<String>,
    pub special_requests: Option<String>,
    pub custom_responses: Option<String>,
}

/// The rules a change of registration must meet: a new guest count lies
/// between 0 and 10; a new list of guests' names has one name for each
/// guest of the count the registration then has.
pub open spec fn registration_update_check(req: UpdateRegistrationRequest, reg: EventRegistration) -> Result<
    (),
    ApiErrorView,
> {
    if req.guest_count matches Some(g) && (g < 0 || g > MAX_GUESTS) {
        Err(api_validation("guest_count"@, "Guest count must be between 0 and 10"@))
    } else if req.guest_names matches Some(names) && names.len() != (req.guest_count.unwrap_or(
        reg.guest_count,
    ) as usize) {
        Err(api_validation("guest_names"@, "Number of guest names must match guest count"@))
    } else {
        Ok(())
    }
}

/// `v` replaced by `new` where one is given.
pub open spec fn replaced<T>(v: Option<T>, new: Option<T>) -> Option<T> {
    match new {
        Some(x) => Some(x),
        None => v,
    }
}

/// `reg` with the changes `req` asks for, changed at `now`.
pub open spec fn registration_updated(reg: EventRegistration, req: UpdateRegistrationRequest, now: i64) -> EventRegistration {
    EventRegistration {
        registrant_email: replaced(reg.registrant_email, req.registrant_email),
        registrant_name: replaced(reg.registrant_name, req.registrant_name),
        registrant_phone: replaced(reg.registrant_phone, req.registrant_phone),
        registrant_company: replaced(reg.registrant_company, req.registrant_company),
        guest_count: req.guest_count.unwrap_or(reg.guest_count),
        guest_names: match req.guest_names {
            Some(names) => names,
            None => reg.guest_names,
        },
        dietary_restrictions: replaced(reg.dietary_restrictions, req.dietary_restrictions),
        accessibility_needs: replaced(reg.accessibility_needs, req.accessibility_needs),
        special_requests: replaced(reg.special_requests, req.special_requests),
        custom_responses: replaced(reg.custom_responses, req.custom_responses),
        updated_at: now,
        ..reg
    }
}

impl UpdateRegistrationRequest {
    /// `registration` with the changes asked for, changed at `now`.
    pub fn apply_to_registration_at(self, registration: EventRegistration, now: i64) -> (r: ApiResult<
        EventRegistration,
    >)
        ensures
            match r {
                Ok(reg) => registration_update_check(self, registration) is Ok && reg == registration_updated(
                    registration,
                    self,
                    now,
                ),
                Err(err) => registration_update_check(self, registration) == Err::<(), ApiErrorView>(err@),
            },
    {
        let mut registration = registration;
        if let Some(email) = self.registrant_email {
            registration.registrant_email = Some(email);
        }
        if let Some(name) = self.registrant_name {
            registration.registrant_name = Some(name);
        }
        if let Some(phone) = self.registrant_phone {
            registration.registrant_phone = Some(phone);
        }
        if let Some(company) = self.registrant_company {
            registration.registrant_company = Some(company);
        }
        if let Some(guest_count) = self.guest_count {
            if guest_count < 0 || guest_count > MAX_GUESTS {
                return Err(ApiError::validation("guest_count", "Guest count must be between 0 and 10"));
            }
            registration.guest_count = guest_count;
        }
        if let Some(guest_names) = self.guest_names {
            if guest_names.len() != registration.guest_count as usize {
                return Err(ApiError::validation("guest_names", "Number of guest names must match guest count"));
            }
            registration.guest_names = guest_names;
        }
        if let Some(dietary) = self.dietary_restrictions {
            registration.dietary_restrictions = Some(dietary);
        }
        if let Some(accessibility) = self.accessibility_needs {
            registration.accessibility_needs = Some(accessibility);
        }
        if let Some(requests) = self.special_requests {
            registration.special_requests = Some(requests);
        }
        if let Some(responses) = self.custom_responses {
            registration.custom_responses = Some(responses);
        }
        registration.updated_at = now;
        Ok(registration)
    }

    /// `registration` with the changes asked for, changed now.
    pub fn apply_to_registration(self, registration: EventRegistration) -> (r: ApiResult<EventRegistration>)
        ensures
            match r {
                Ok(reg) => registration_update_check(self, registration) is Ok && reg == registration_updated(
                    registration,
                    self,
                    reg.updated_at,
                ),
                Err(err) => registration_update_check(self, registration) == Err::<(), ApiErrorView>(err@),
            },
    {
        let now = now_millis();
        self.apply_to_registration_at(registration, now)
    }
}

/// A request to set a registration's status.
#[derive(Debug, Clone, Copy)]
pub struct UpdateRegistrationStatusRequest {
    pub status: RegistrationStatus,
}

} // verus!
