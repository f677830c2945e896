use aqio::api::auth::{bearer_token, create_mock_claims_at, mock_authenticate, mock_login, mock_user_info, Claims,
    KeycloakConfig, LoginRequest, MockAuthConfig};
use aqio::api::dto::{
    create_category_request, ApiResponse, CreateEventRequest, CreateInvitationRequest, CreateRegistrationRequest,
    CreateUserRequest, HealthResponse, ListEventsQuery, PaginationInfo, PaginationQuery, UpdateEventCategoryRequest,
    UpdateRegistrationRequest, UpdateUserRequest, Validate,
};
use aqio::api::errors::ApiError;
use aqio::domain::errors::DomainError;
use aqio::domain::models::{
    EventCategory, EventRegistration, InvitationMethod, LocationType, PaginatedResult, PaginationParams,
    RegistrationSource, RegistrationStatus, User, UserRole,
};

fn event_request() -> CreateEventRequest {
    CreateEventRequest {
        title: "Test Event".to_string(),
        description: "A test event".to_string(),
        category_id: "general".to_string(),
        start_date: 1_000_000,
        end_date: 2_000_000,
        timezone: "UTC".to_string(),
        location_type: LocationType::Virtual,
        location_name: None,
        address: None,
        virtual_link: Some("https://example.com".to_string()),
        virtual_access_code: None,
        is_private: Some(false),
        requires_approval: None,
        max_attendees: Some(100),
        allow_guests: Some(false),
        max_guests_per_person: None,
        registration_opens: None,
        registration_closes: None,
        registration_required: None,
        allow_waitlist: Some(false),
        send_reminders: None,
        collect_dietary_info: Some(false),
        collect_accessibility_info: Some(false),
        image_url: None,
        custom_fields: None,
    }
}

fn validation_parts(e: &ApiError) -> (String, String) {
    match e {
        ApiError::Validation { field, message } => (field.clone(), message.clone()),
        other => panic!("expected a validation error, got {:?}", other),
    }
}

fn claims(sub: &str, roles: Option<Vec<&str>>) -> Claims {
    Claims {
        sub: sub.to_string(),
        email: "someone@example.com".to_string(),
        name: "Someone".to_string(),
        exp: 3600,
        iat: 0,
        roles: roles.map(|r| r.into_iter().map(|s| s.to_string()).collect()),
    }
}

fn registration() -> EventRegistration {
    EventRegistration {
        id: 1,
        event_id: 2,
        invitation_id: None,
        user_id: Some(3),
        external_contact_id: None,
        registrant_email: None,
        registrant_name: None,
        registrant_phone: None,
        registrant_company: None,
        status: RegistrationStatus::Registered,
        registration_source: RegistrationSource::Direct,
        guest_count: 1,
        guest_names: vec!["Guest".to_string()],
        dietary_restrictions: None,
        accessibility_needs: None,
        special_requests: None,
        custom_responses: None,
        registered_at: 10,
        cancelled_at: None,
        checked_in_at: None,
        waitlist_position: None,
        waitlist_added_at: None,
        created_at: 10,
        updated_at: 10,
    }
}

#[test]
fn api_error_status_and_codes() {
    let cases: Vec<(ApiError, u16, &str)> = vec![
        (ApiError::authentication("a"), 401, "AUTHENTICATION_ERROR"),
        (ApiError::authorization("a"), 403, "AUTHORIZATION_ERROR"),
        (ApiError::validation("f", "m"), 400, "VALIDATION_ERROR"),
        (ApiError::bad_request("a"), 400, "BAD_REQUEST"),
        (ApiError::not_found("a"), 404, "NOT_FOUND"),
        (ApiError::conflict("a"), 409, "CONFLICT"),
        (ApiError::internal("a"), 500, "INTERNAL_ERROR"),
        (ApiError::external_service("s", "m"), 503, "EXTERNAL_SERVICE_ERROR"),
        (ApiError::RateLimit, 429, "RATE_LIMIT_EXCEEDED"),
        (ApiError::from(DomainError::not_found_by_field("Event", "id", "x")), 404, "DOMAIN_NOT_FOUND"),
        (ApiError::from(DomainError::validation("f", "m")), 400, "DOMAIN_VALIDATION_ERROR"),
        (ApiError::from(DomainError::conflict("c")), 409, "DOMAIN_CONFLICT"),
        (ApiError::from(DomainError::business_rule("b")), 422, "BUSINESS_RULE_VIOLATION"),
        (ApiError::from(DomainError::unauthorized("u")), 401, "DOMAIN_UNAUTHORIZED"),
        (ApiError::from(DomainError::data_integrity("d")), 500, "DOMAIN_DATA_INTEGRITY_ERROR"),
        (ApiError::from(DomainError::system_unavailable("s")), 503, "DOMAIN_SYSTEM_UNAVAILABLE"),
        (ApiError::from(DomainError::external_service("s", "m")), 503, "DOMAIN_EXTERNAL_SERVICE_ERROR"),
    ];
    for (error, status, code) in cases {
        assert_eq!(error.status_code(), status);
        assert_eq!(error.error_code(), code);
        assert!((400..=599).contains(&error.status_code()));
        assert_eq!(error.error_body().code, code);
    }
}

#[test]
fn api_error_texts() {
    assert_eq!(ApiError::validation("title", "Title cannot be empty").to_text(), "Validation error: title: Title cannot be empty");
    assert_eq!(ApiError::RateLimit.to_text(), "Rate limit exceeded");
    assert_eq!(ApiError::not_found("Event with ID 1").to_text(), "Resource not found: Event with ID 1");
    assert_eq!(
        ApiError::from(DomainError::business_rule("Event capacity exceeded")).to_text(),
        "Domain error: Business rule violation: Event capacity exceeded"
    );
}

#[test]
fn api_error_bodies() {
    let body = ApiError::validation("title", "Title cannot be empty").error_body();
    assert_eq!(body.message, "Title cannot be empty");
    assert_eq!(body.field, Some("title".to_string()));

    let body = ApiError::from(DomainError::not_found_by_field("Event", "id", "42")).error_body();
    assert_eq!(body.message, "Event not found");
    let details = body.details.expect("details of a missing entity");
    assert_eq!(details.entity, "Event");
    assert_eq!(details.identifier, "id");
    assert_eq!(details.value, "42");

    let (status, body) = ApiError::conflict("Resource conflict").response_parts();
    assert_eq!(status, 409);
    assert_eq!(body.message, "Conflict: Resource conflict");
    assert_eq!(body.field, None);
}

#[test]
fn api_error_from_status() {
    assert_eq!(ApiError::from_status(404).to_text(), "Resource not found: Resource not found");
    assert_eq!(ApiError::from_status(429).status_code(), 429);
    assert_eq!(ApiError::from_status(418).to_text(), "Internal server error: HTTP error: 418 I'm a teapot");
}

#[test]
fn api_error_from_uuid_and_json() {
    let err = uuid::Uuid::parse_str("nope").unwrap_err();
    let (field, message) = validation_parts(&ApiError::from_uuid_error(err));
    assert_eq!(field, "id");
    assert!(message.starts_with("Invalid UUID format: "));
    assert!(message.len() > "Invalid UUID format: ".len());

    let err = serde_json::from_str::<Vec<u32>>("{").unwrap_err();
    match ApiError::from_json_error(err) {
        ApiError::BadRequest { message } => {
            assert!(message.starts_with("JSON parsing error: "));
            assert!(message.len() > "JSON parsing error: ".len());
        }
        other => panic!("expected a bad request, got {:?}", other),
    }
}

#[test]
fn create_event_request_rules() {
    assert!(Validate::validate(&event_request()).is_ok());

    let mut r = event_request();
    r.title = "   ".to_string();
    assert_eq!(validation_parts(&r.validate().unwrap_err()), ("title".to_string(), "Title cannot be empty".to_string()));

    let mut r = event_request();
    r.title = "x".repeat(201);
    assert_eq!(validation_parts(&r.validate().unwrap_err()).1, "Title cannot exceed 200 characters");

    let mut r = event_request();
    r.end_date = r.start_date;
    assert_eq!(validation_parts(&r.validate().unwrap_err()).0, "dates");

    let mut r = event_request();
    r.max_attendees = Some(0);
    assert_eq!(validation_parts(&r.validate().unwrap_err()).0, "max_attendees");

    let mut r = event_request();
    r.virtual_link = None;
    assert_eq!(
        validation_parts(&r.validate().unwrap_err()).1,
        "Virtual link is required for virtual events"
    );

    let mut r = event_request();
    r.location_type = LocationType::Hybrid;
    assert_eq!(
        validation_parts(&r.validate().unwrap_err()),
        ("location".to_string(), "Location name or address is required for hybrid events".to_string())
    );
    r.address = Some("Main street 1".to_string());
    assert!(r.validate().is_ok());
}

#[test]
fn create_event_request_defaults() {
    let event = event_request().to_domain_event_at(7, 8, 9).unwrap();
    assert_eq!(event.id, 8);
    assert_eq!(event.organizer_id, 7);
    assert_eq!(event.created_at, 9);
    assert_eq!(event.updated_at, 9);
    assert!(event.registration_required);
    assert!(event.send_reminders);
    assert!(!event.requires_approval);
    assert!(event.co_organizers.is_empty());

    let fresh = event_request().to_domain_event(7).unwrap();
    assert_eq!(fresh.created_at, fresh.updated_at);
    assert_eq!(fresh.title, "Test Event");
}

#[test]
fn pagination_queries() {
    let p = PaginationQuery { page: None, limit: None }.to_pagination_params().unwrap();
    assert_eq!((p.offset, p.limit), (0, 50));
    let p = PaginationQuery { page: Some(3), limit: Some(20) }.to_pagination_params().unwrap();
    assert_eq!((p.offset, p.limit), (40, 20));
    let p = PaginationQuery { page: Some(0), limit: Some(5000) }.to_pagination_params().unwrap();
    assert_eq!((p.offset, p.limit), (0, 1000));
    let p = PaginationQuery { page: Some(2), limit: Some(0) }.to_pagination_params().unwrap();
    assert_eq!((p.offset, p.limit), (1, 1));

    let query = ListEventsQuery {
        page: Some(2),
        limit: Some(10),
        title_contains: Some("Rust".to_string()),
        category_id: None,
        organizer_id: Some(5),
        is_private: None,
        status: None,
        location_type: None,
        start_date_from: None,
        start_date_to: None,
    };
    let (filter, page) = query.to_filter_and_pagination().unwrap();
    assert_eq!(filter.title_contains, Some("Rust".to_string()));
    assert_eq!(filter.organizer_id, Some(5));
    assert_eq!((page.offset, page.limit), (10, 10));
}

#[test]
fn pagination_info_of_a_page() {
    let params = PaginationParams::new(20, 10).unwrap();
    let page: PaginatedResult<u8> = PaginatedResult::new(vec![1, 2, 3], 25, params);
    let info = PaginationInfo::from_paginated_result(&page);
    assert_eq!(info.page, 3);
    assert_eq!(info.total_pages, 3);
    assert!(info.has_prev);
    assert!(!info.has_next);

    let empty: PaginatedResult<u8> = PaginatedResult::new(vec![], 0, PaginationParams::new(0, 50).unwrap());
    let info = PaginationInfo::from_paginated_result(&empty);
    assert_eq!(info.page, 1);
    assert_eq!(info.total_pages, 0);
    assert!(!info.has_prev);
}

#[test]
fn api_response_envelopes() {
    let ok = ApiResponse::success(5u8);
    assert!(ok.success);
    assert_eq!(ok.data, Some(5));
    let err: ApiResponse<u8> = ApiResponse::error("broken");
    assert!(!err.success);
    assert_eq!(err.error, Some("broken".to_string()));
}

#[test]
fn health_reports() {
    let healthy = HealthResponse::healthy(5, "0.1.0");
    assert_eq!(healthy.status, "healthy");
    assert_eq!(healthy.services.database.status, "healthy");
    let unhealthy = HealthResponse::unhealthy(5, "0.1.0", "Database error: down");
    assert_eq!(unhealthy.status, "unhealthy");
    assert_eq!(unhealthy.services.database.details, Some("Database error: down".to_string()));
    assert_eq!(unhealthy.services.auth.status, "unknown");
}

#[test]
fn users_created_and_updated() {
    let request = CreateUserRequest {
        keycloak_id: "kc".to_string(),
        email: "a@b.no".to_string(),
        name: "A".to_string(),
        company_id: None,
        role: None,
    };
    let user = request.to_domain_user_at(1, 2).unwrap();
    assert_eq!(user.role, UserRole::Participant);
    assert!(user.is_active);

    let bad = CreateUserRequest { keycloak_id: "kc".to_string(), email: " ".to_string(), name: "A".to_string(), company_id: None, role: None };
    assert_eq!(validation_parts(&bad.to_domain_user().unwrap_err()), ("email".to_string(), "Email cannot be empty".to_string()));

    let update = UpdateUserRequest { email: None, name: Some("B".to_string()), company_id: Some(Some(9)), role: Some(UserRole::Admin), is_active: None };
    let changed: User = update.apply_to_user_at(user.clone(), 50).unwrap();
    assert_eq!(changed.name, "B");
    assert_eq!(changed.company_id, Some(9));
    assert_eq!(changed.role, UserRole::Admin);
    assert_eq!(changed.email, "a@b.no");
    assert_eq!(changed.updated_at, 50);

    let empty = UpdateUserRequest { email: None, name: None, company_id: None, role: None, is_active: None };
    let same = empty.apply_to_user_at(user.clone(), 77).unwrap();
    assert_eq!(same.name, user.name);
    assert_eq!(same.updated_at, 77);

    let blank = UpdateUserRequest { email: None, name: Some("".to_string()), company_id: None, role: None, is_active: None };
    assert_eq!(validation_parts(&blank.apply_to_user(user).unwrap_err()).0, "name");
}

#[test]
fn categories_created_and_updated() {
    let category: EventCategory = create_category_request().to_domain_category_at(3).unwrap();
    assert_eq!(category.id, "test-category");
    assert_eq!(category.name, "Test Category");
    assert!(category.is_active);
    assert_eq!(category.created_at, 3);

    let update = UpdateEventCategoryRequest { name: None, description: Some(None), color_hex: None, icon_name: None, is_active: Some(false) };
    let changed = update.apply_to_category(category.clone()).unwrap();
    assert_eq!(changed.description, None);
    assert!(!changed.is_active);
    assert_eq!(changed.color_hex, Some("#FF0000".to_string()));

    let blank = UpdateEventCategoryRequest { name: Some(" ".to_string()), description: None, color_hex: None, icon_name: None, is_active: None };
    assert_eq!(
        validation_parts(&blank.apply_to_category(category).unwrap_err()),
        ("name".to_string(), "Category name cannot be empty".to_string())
    );
}

#[test]
fn invitations_from_requests() {
    let request = CreateInvitationRequest {
        invited_user_id: None,
        invited_email: Some("guest@example.com".to_string()),
        invited_name: Some("Guest".to_string()),
        invitation_method: InvitationMethod::Email,
        personal_message: None,
        expires_at: None,
    };
    let invitation = request.to_domain_invitation_at(1, 2, 3, 4).unwrap();
    assert_eq!(invitation.event_id, 1);
    assert_eq!(invitation.inviter_id, 2);
    assert_eq!(invitation.id, 3);
    assert_eq!(invitation.created_at, 4);

    let nobody = CreateInvitationRequest { invited_email: None, ..request };
    match nobody.to_domain_invitation(1, 2) {
        Err(ApiError::Domain { source: DomainError::ValidationError { field, .. } }) => {
            assert_eq!(field, "invitation_target")
        }
        other => panic!("expected the domain's refusal, got {:?}", other),
    }
}

#[test]
fn registrations_from_requests() {
    let request = CreateRegistrationRequest {
        registrant_email: Some("a@b.no".to_string()),
        registrant_name: Some("A".to_string()),
        registrant_phone: None,
        registrant_company: None,
        guest_count: Some(2),
        guest_names: Some(vec!["B".to_string(), "C".to_string()]),
        dietary_restrictions: None,
        accessibility_needs: None,
        special_requests: None,
        custom_responses: None,
    };
    let reg = request.to_domain_registration_at(1, None, Some(9), 5, 6).unwrap();
    assert_eq!(reg.registration_source, RegistrationSource::Invitation);
    assert_eq!(reg.status, RegistrationStatus::Registered);
    assert_eq!(reg.guest_count, 2);
    assert_eq!(reg.guest_names.len(), 2);
    assert_eq!(reg.registered_at, 6);

    let mismatch = CreateRegistrationRequest { guest_count: Some(3), ..request };
    assert_eq!(
        validation_parts(&mismatch.to_domain_registration(1, None, None).unwrap_err()).1,
        "Number of guest names must match guest count"
    );
    let too_many = CreateRegistrationRequest { guest_count: Some(11), guest_names: None, ..mismatch };
    assert_eq!(validation_parts(&too_many.to_domain_registration(1, Some(3), None).unwrap_err()).0, "guest_count");
    let anonymous = CreateRegistrationRequest { registrant_email: None, guest_count: None, ..too_many };
    assert_eq!(validation_parts(&anonymous.to_domain_registration(1, None, None).unwrap_err()).0, "registrant_email");
}

#[test]
fn registrations_updated() {
    let update = UpdateRegistrationRequest {
        registrant_email: Some("new@b.no".to_string()),
        registrant_name: None,
        registrant_phone: None,
        registrant_company: None,
        guest_count: Some(0),
        guest_names: Some(vec![]),
        dietary_restrictions: None,
        accessibility_needs: None,
        special_requests: None,
        custom_responses: None,
    };
    let changed = update.apply_to_registration_at(registration(), 99).unwrap();
    assert_eq!(changed.registrant_email, Some("new@b.no".to_string()));
    assert_eq!(changed.guest_count, 0);
    assert!(changed.guest_names.is_empty());
    assert_eq!(changed.updated_at, 99);

    let wrong_names = UpdateRegistrationRequest {
        registrant_email: None,
        registrant_name: None,
        registrant_phone: None,
        registrant_company: None,
        guest_count: None,
        guest_names: Some(vec![]),
        dietary_restrictions: None,
        accessibility_needs: None,
        special_requests: None,
        custom_responses: None,
    };
    assert_eq!(validation_parts(&wrong_names.apply_to_registration(registration()).unwrap_err()).0, "guest_names");
}

#[test]
fn claims_roles() {
    assert!(claims("x", Some(vec!["participant", "admin"])).is_admin());
    assert!(!claims("x", Some(vec!["organizer"])).is_admin());
    assert!(claims("x", Some(vec!["organizer"])).is_organizer());
    assert!(!claims("x", None).is_admin());
    let config = KeycloakConfig::new("https://kc".to_string(), "api".to_string());
    assert_eq!(config.client_id, "api");
}

#[test]
fn bearer_tokens() {
    assert_eq!(bearer_token("Bearer abc.def"), Some("abc.def"));
    assert_eq!(bearer_token("Basic abc"), None);
    assert_eq!(bearer_token("Bearer "), Some(""));
}

#[test]
fn mock_authentication() {
    let on = MockAuthConfig::new(true);
    let off = MockAuthConfig::new(false);
    assert_eq!(mock_authenticate(&off, None, 0).unwrap_err(), 401);
    let dev = mock_authenticate(&on, None, 100).unwrap();
    assert_eq!(dev.email, "dev@aquanorway.no");
    assert_eq!(dev.exp, 3700);
    assert_eq!(dev.iat, 100);
    let john = mock_authenticate(&on, Some("Bearer mock-john-doe"), 0).unwrap();
    assert_eq!(john.sub, "550e8400-e29b-41d4-a716-446655440011");
    assert_eq!(mock_authenticate(&on, Some("Bearer real-token"), 0).unwrap_err(), 401);
    let other = create_mock_claims_at("someone-else", 0);
    assert_eq!(other.name, "Unknown User");
}

#[test]
fn mock_login_round_trip() {
    let response = mock_login(LoginRequest { username: Some("jane-smith".to_string()) });
    assert_eq!(response.access_token, "mock-jane-smith");
    assert_eq!(response.token_type, "Bearer");
    assert_eq!(response.user.email, "jane.smith@troutco.no");
    let header = format!("Bearer {}", response.access_token);
    let claims = mock_authenticate(&MockAuthConfig::new(true), Some(&header), 0).unwrap();
    assert_eq!(claims.sub, response.user.id);

    let default = mock_login(LoginRequest { username: None });
    assert_eq!(default.access_token, "mock-dev-user");

    let info = mock_user_info(Some(claims)).unwrap();
    assert_eq!(info.name, "Jane Smith");
    assert_eq!(mock_user_info(None).unwrap_err(), 401);
}
