//! Reading stored rows into entities. A column arrives as what the database
//! driver read: its value, or the text of the driver's error where it could
//! not be read as the type asked for.

use vstd::prelude::*;
use crate::domain::errors::{DomainError, DomainErrorView, DomainResult};
use crate::domain::models::{
    Event, EventCategory, EventInvitation, EventRegistration, EventStatus, InvitationMethod, InvitationStatus,
    LocationType, RegistrationSource, RegistrationStatus, User, UserRole,
};
use crate::ids::{parse_uuid_text, parsed_uuid, uuid_error_text, uuid_text, uuid_to_string};
use crate::persistence::errors::RowConversionError;
use crate::persistence::json::{
    json_string_list, json_uuid_list, parse_string_list, parse_uuid_list, string_list_json, string_list_to_json,
    texts, uuid_list_json, uuid_list_to_json,
};
use crate::persistence::mapping::{
    invitation_method_name, invitation_method_to_string, invitation_status_name, invitation_status_to_string,
    user_role_name, user_role_to_string,
    event_status_from_name, event_status_name, event_status_named, event_status_to_string,
    law_event_enums_round_trip, location_type_from_name, location_type_name, location_type_named,
    location_type_to_string,
    law_registration_enums_round_trip, registration_source_from_name, registration_source_name,
    registration_source_named, registration_source_to_string, registration_status_from_name,
    registration_status_name, registration_status_named, registration_status_to_string,
};
use crate::text::{
    ascii_lowercase, clone_opt, concat, is_ascii_text, lowercase_of, opt_view, own, text_eq,
    to_lowercase,
};

verus! {

/// A column as read: its value, or why it could not be read.
pub type Column<T> = Result<T, String>;

// ============================================================================
// Columns
// ============================================================================

/// `e` reports that `field` could not be read, for the reason `cause`.
pub open spec fn is_missing(e: RowConversionError, field: Seq<char>, cause: String) -> bool {
    e matches RowConversionError::MissingField { field: f, cause: c } && f@ == field && c == cause
}

/// `e` reports that `field` holds `value`, which is no UUID.
pub open spec fn is_invalid_uuid(e: RowConversionError, field: Seq<char>, value: String) -> bool {
    e matches RowConversionError::InvalidUuid { field: f, value: v, .. } && f@ == field && v == value
}

/// `e` reports that `field` holds `value`, which names no variant.
pub open spec fn is_invalid_enum(e: RowConversionError, field: Seq<char>, value: String) -> bool {
    e matches RowConversionError::InvalidEnum { field: f, value: v } && f@ == field && v == value
}

/// The value of column `field`, or that it is missing.
pub fn column<T>(field: &str, raw: Column<T>) -> (r: Result<T, RowConversionError>)
    ensures
        match raw {
            Ok(v) => r == Ok::<T, RowConversionError>(v),
            Err(cause) => r matches Err(e) && is_missing(e, field@, cause),
        },
{
    match raw {
        Ok(v) => Ok(v),
        Err(cause) => Err(RowConversionError::MissingField { field: own(field), cause }),
    }
}

/// The UUID column `field` holds.
pub fn column_uuid(field: &str, raw: Column<String>) -> (r: Result<u128, RowConversionError>)
    ensures
        match raw {
            Err(cause) => r matches Err(e) && is_missing(e, field@, cause),
            Ok(text) => match parsed_uuid(text@) {
                Some(id) => r == Ok::<u128, RowConversionError>(id),
                None => r matches Err(e) && is_invalid_uuid(e, field@, text),
            },
        },
{
    match raw {
        Err(cause) => Err(RowConversionError::MissingField { field: own(field), cause }),
        Ok(text) => match parse_uuid_text(text.as_str()) {
            Ok(id) => Ok(id),
            Err(error) => {
                let cause = uuid_error_text(&error);
                Err(RowConversionError::InvalidUuid { field: own(field), value: text, cause })
            },
        },
    }
}

/// The UUID column `field` holds, where it holds one (`NULL` is none).
pub fn column_optional_uuid(field: &str, raw: Column<Option<String>>) -> (r: Result<Option<u128>, RowConversionError>)
    ensures
        match raw {
            Err(cause) => r matches Err(e) && is_missing(e, field@, cause),
            Ok(None) => r == Ok::<Option<u128>, RowConversionError>(None),
            Ok(Some(text)) => match parsed_uuid(text@) {
                Some(id) => r == Ok::<Option<u128>, RowConversionError>(Some(id)),
                None => r matches Err(e) && is_invalid_uuid(e, field@, text),
            },
        },
{
    match raw {
        Err(cause) => Err(RowConversionError::MissingField { field: own(field), cause }),
        Ok(None) => Ok(None),
        Ok(Some(text)) => match parse_uuid_text(text.as_str()) {
            Ok(id) => Ok(Some(id)),
            Err(error) => {
                let cause = uuid_error_text(&error);
                Err(RowConversionError::InvalidUuid { field: own(field), value: text, cause })
            },
        },
    }
}

/// A 32-bit integer stored in a 64-bit column (the low 32 bits).
pub fn column_i32(field: &str, raw: Column<i64>) -> (r: Result<i32, RowConversionError>)
    ensures
        match raw {
            Ok(v) => r == Ok::<i32, RowConversionError>(v as i32),
            Err(cause) => r matches Err(e) && is_missing(e, field@, cause),
        },
{
    match raw {
        Ok(v) => Ok(v as i32),
        Err(cause) => Err(RowConversionError::MissingField { field: own(field), cause }),
    }
}

/// An optional 32-bit integer stored in a 64-bit column.
pub fn column_optional_i32(field: &str, raw: Column<Option<i64>>) -> (r: Result<Option<i32>, RowConversionError>)
    ensures
        match raw {
            Ok(Some(v)) => r == Ok::<Option<i32>, RowConversionError>(Some(v as i32)),
            Ok(None) => r == Ok::<Option<i32>, RowConversionError>(None),
            Err(cause) => r matches Err(e) && is_missing(e, field@, cause),
        },
{
    match raw {
        Ok(Some(v)) => Ok(Some(v as i32)),
        Ok(None) => Ok(None),
        Err(cause) => Err(RowConversionError::MissingField { field: own(field), cause }),
    }
}

/// The outcome of reading column `field` as a variant: missing, the
/// variant `named` finds for `key`, or an invalid value.
pub open spec fn enum_read<E>(
    r: Result<E, RowConversionError>,
    field: Seq<char>,
    raw: Column<String>,
    named: spec_fn(Seq<char>) -> Option<E>,
    key: spec_fn(Seq<char>) -> Seq<char>,
) -> bool {
    match raw {
        Err(cause) => r matches Err(e) && is_missing(e, field, cause),
        Ok(text) => match named(key(text@)) {
            Some(v) => r == Ok::<E, RowConversionError>(v),
            None => r matches Err(e) && is_invalid_enum(e, field, text),
        },
    }
}

/// A location type stored by name, whatever its case.
pub fn column_location_type(field: &str, raw: Column<String>) -> (r: Result<LocationType, RowConversionError>)
    ensures
        enum_read(r, field@, raw, |t: Seq<char>| location_type_named(t), |t: Seq<char>| lowercase_of(t)),
{
    match raw {
        Err(cause) => Err(RowConversionError::MissingField { field: own(field), cause }),
        Ok(text) => {
            let lowered = to_lowercase(text.as_str());
            match location_type_from_name(lowered.as_str()) {
                Some(v) => Ok(v),
                None => Err(RowConversionError::InvalidEnum { field: own(field), value: text }),
            }
        },
    }
}

/// An event status stored by name, whatever its case.
pub fn column_event_status(field: &str, raw: Column<String>) -> (r: Result<EventStatus, RowConversionError>)
    ensures
        enum_read(r, field@, raw, |t: Seq<char>| event_status_named(t), |t: Seq<char>| lowercase_of(t)),
{
    match raw {
        Err(cause) => Err(RowConversionError::MissingField { field: own(field), cause }),
        Ok(text) => {
            let lowered = to_lowercase(text.as_str());
            match event_status_from_name(lowered.as_str()) {
                Some(v) => Ok(v),
                None => Err(RowConversionError::InvalidEnum { field: own(field), value: text }),
            }
        },
    }
}

/// A registration status stored by name, whatever its case.
pub fn column_registration_status(field: &str, raw: Column<String>) -> (r: Result<
    RegistrationStatus,
    RowConversionError,
>)
    ensures
        enum_read(r, field@, raw, |t: Seq<char>| registration_status_named(t), |t: Seq<char>| lowercase_of(t)),
{
    match raw {
        Err(cause) => Err(RowConversionError::MissingField { field: own(field), cause }),
        Ok(text) => match registration_status_from_name(text.as_str()) {
            Some(v) => Ok(v),
            None => Err(RowConversionError::InvalidEnum { field: own(field), value: text }),
        },
    }
}

/// A registration source stored by name, whatever its case.
pub fn column_registration_source(field: &str, raw: Column<String>) -> (r: Result<
    RegistrationSource,
    RowConversionError,
>)
    ensures
        enum_read(r, field@, raw, |t: Seq<char>| registration_source_named(t), |t: Seq<char>| lowercase_of(t)),
{
    match raw {
        Err(cause) => Err(RowConversionError::MissingField { field: own(field), cause }),
        Ok(text) => match registration_source_from_name(text.as_str()) {
            Some(v) => Ok(v),
            None => Err(RowConversionError::InvalidEnum { field: own(field), value: text }),
        },
    }
}

/// The user role a stored name denotes exactly, if any.
pub open spec fn role_stored_as(text: Seq<char>) -> Option<UserRole> {
    if text == "admin"@ {
        Some(UserRole::Admin)
    } else if text == "organizer"@ {
        Some(UserRole::Organizer)
    } else if text == "participant"@ {
        Some(UserRole::Participant)
    } else {
        None
    }
}

/// A user role stored by its exact name.
pub fn column_user_role(field: &str, raw: Column<String>) -> (r: Result<UserRole, RowConversionError>)
    ensures
        enum_read(r, field@, raw, |t: Seq<char>| role_stored_as(t), |t: Seq<char>| t),
{
    match raw {
        Err(cause) => Err(RowConversionError::MissingField { field: own(field), cause }),
        Ok(text) => {
            let t = text.as_str();
            if text_eq(t, "admin") {
                Ok(UserRole::Admin)
            } else if text_eq(t, "organizer") {
                Ok(UserRole::Organizer)
            } else if text_eq(t, "participant") {
                Ok(UserRole::Participant)
            } else {
                Err(RowConversionError::InvalidEnum { field: own(field), value: text })
            }
        },
    }
}

/// The invitation status a stored name denotes exactly, if any.
pub open spec fn invitation_status_stored_as(text: Seq<char>) -> Option<InvitationStatus> {
    if text == "pending"@ {
        Some(InvitationStatus::Pending)
    } else if text == "sent"@ {
        Some(InvitationStatus::Sent)
    } else if text == "delivered"@ {
        Some(InvitationStatus::Delivered)
    } else if text == "opened"@ {
        Some(InvitationStatus::Opened)
    } else if text == "accepted"@ {
        Some(InvitationStatus::Accepted)
    } else if text == "declined"@ {
        Some(InvitationStatus::Declined)
    } else if text == "cancelled"@ {
        Some(InvitationStatus::Cancelled)
    } else {
        None
    }
}

/// An invitation status stored by its exact name.
pub fn column_invitation_status(field: &str, raw: Column<String>) -> (r: Result<
    InvitationStatus,
    RowConversionError,
>)
    ensures
        enum_read(r, field@, raw, |t: Seq<char>| invitation_status_stored_as(t), |t: Seq<char>| t),
{
    match raw {
        Err(cause) => Err(RowConversionError::MissingField { field: own(field), cause }),
        Ok(text) => {
            let t = text.as_str();
            if text_eq(t, "pending") {
                Ok(InvitationStatus::Pending)
            } else if text_eq(t, "sent") {
                Ok(InvitationStatus::Sent)
            } else if text_eq(t, "delivered") {
                Ok(InvitationStatus::Delivered)
            } else if text_eq(t, "opened") {
                Ok(InvitationStatus::Opened)
            } else if text_eq(t, "accepted") {
                Ok(InvitationStatus::Accepted)
            } else if text_eq(t, "declined") {
                Ok(InvitationStatus::Declined)
            } else if text_eq(t, "cancelled") {
                Ok(InvitationStatus::Cancelled)
            } else {
                Err(RowConversionError::InvalidEnum { field: own(field), value: text })
            }
        },
    }
}

/// The invitation method a stored name denotes exactly, if any.
pub open spec fn invitation_method_stored_as(text: Seq<char>) -> Option<InvitationMethod> {
    if text == "email"@ {
        Some(InvitationMethod::Email)
    } else if text == "sms"@ {
        Some(InvitationMethod::Sms)
    } else if text == "manual"@ {
        Some(InvitationMethod::Manual)
    } else if text == "bulk_import"@ {
        Some(InvitationMethod::BulkImport)
    } else {
        None
    }
}

/// An invitation method stored by its exact name.
pub fn column_invitation_method(field: &str, raw: Column<String>) -> (r: Result<
    InvitationMethod,
    RowConversionError,
>)
    ensures
        enum_read(r, field@, raw, |t: Seq<char>| invitation_method_stored_as(t), |t: Seq<char>| t),
{
    match raw {
        Err(cause) => Err(RowConversionError::MissingField { field: own(field), cause }),
        Ok(text) => {
            let t = text.as_str();
            if text_eq(t, "email") {
                Ok(InvitationMethod::Email)
            } else if text_eq(t, "sms") {
                Ok(InvitationMethod::Sms)
            } else if text_eq(t, "manual") {
                Ok(InvitationMethod::Manual)
            } else if text_eq(t, "bulk_import") {
                Ok(InvitationMethod::BulkImport)
            } else {
                Err(RowConversionError::InvalidEnum { field: own(field), value: text })
            }
        },
    }
}

// ============================================================================
// Entities read column by column
// ============================================================================

/// Column `raw` could not be read, and `e` reports that for `field`.
pub open spec fn missing_column<T>(raw: Column<T>, field: Seq<char>, e: RowConversionError) -> bool {
    raw matches Err(cause) && is_missing(e, field, cause)
}

/// A UUID column that reads as a UUID.
pub open spec fn uuid_readable(raw: Column<String>) -> bool {
    raw matches Ok(t) && parsed_uuid(t@) is Some
}

/// `e` reports why UUID column `raw`, named `field`, does not read.
pub open spec fn uuid_failure(raw: Column<String>, field: Seq<char>, e: RowConversionError) -> bool {
    match raw {
        Err(cause) => is_missing(e, field, cause),
        Ok(t) => is_invalid_uuid(e, field, t),
    }
}

/// An optional UUID column that reads: `NULL`, or a UUID.
pub open spec fn optional_uuid_readable(raw: Column<Option<String>>) -> bool {
    raw matches Ok(o) && (o matches Some(t) ==> parsed_uuid(t@) is Some)
}

/// `e` reports why optional UUID column `raw`, named `field`, does not read.
pub open spec fn optional_uuid_failure(raw: Column<Option<String>>, field: Seq<char>, e: RowConversionError) -> bool {
    match raw {
        Err(cause) => is_missing(e, field, cause),
        Ok(Some(t)) => is_invalid_uuid(e, field, t),
        Ok(None) => false,
    }
}

/// A column that reads as one of the names `named` knows.
pub open spec fn name_readable<E>(raw: Column<String>, named: spec_fn(Seq<char>) -> Option<E>) -> bool {
    raw matches Ok(t) && named(t@) is Some
}

/// `e` reports why name column `raw`, named `field`, does not read.
pub open spec fn name_failure(raw: Column<String>, field: Seq<char>, e: RowConversionError) -> bool {
    match raw {
        Err(cause) => is_missing(e, field, cause),
        Ok(t) => is_invalid_enum(e, field, t),
    }
}

/// `e` reports the first column of `c`, in the order of the struct, that
/// does not read.
pub open spec fn user_read_failure(c: UserColumns, e: RowConversionError) -> bool {
    if !uuid_readable(c.id) {
        uuid_failure(c.id, "id"@, e)
    } else if c.keycloak_id is Err {
        missing_column(c.keycloak_id, "keycloak_id"@, e)
    } else if c.email is Err {
        missing_column(c.email, "email"@, e)
    } else if c.name is Err {
        missing_column(c.name, "name"@, e)
    } else if !optional_uuid_readable(c.company_id) {
        optional_uuid_failure(c.company_id, "company_id"@, e)
    } else if !name_readable(c.role, |t: Seq<char>| role_stored_as(t)) {
        name_failure(c.role, "role"@, e)
    } else if c.is_active is Err {
        missing_column(c.is_active, "is_active"@, e)
    } else if c.created_at is Err {
        missing_column(c.created_at, "created_at"@, e)
    } else if c.updated_at is Err {
        missing_column(c.updated_at, "updated_at"@, e)
    } else {
        false
    }
}

/// `e` reports the first column of `c`, in the order of the struct, that
/// does not read.
pub open spec fn invitation_read_failure(c: InvitationColumns, e: RowConversionError) -> bool {
    if !uuid_readable(c.id) {
        uuid_failure(c.id, "id"@, e)
    } else if !uuid_readable(c.event_id) {
        uuid_failure(c.event_id, "event_id"@, e)
    } else if !optional_uuid_readable(c.invited_user_id) {
        optional_uuid_failure(c.invited_user_id, "invited_user_id"@, e)
    } else if !optional_uuid_readable(c.invited_contact_id) {
        optional_uuid_failure(c.invited_contact_id, "invited_contact_id"@, e)
    } else if c.invited_email is Err {
        missing_column(c.invited_email, "invited_email"@, e)
    } else if c.invited_name is Err {
        missing_column(c.invited_name, "invited_name"@, e)
    } else if !uuid_readable(c.inviter_id) {
        uuid_failure(c.inviter_id, "inviter_id"@, e)
    } else if !name_readable(c.invitation_method, |t: Seq<char>| invitation_method_stored_as(t)) {
        name_failure(c.invitation_method, "invitation_method"@, e)
    } else if c.personal_message is Err {
        missing_column(c.personal_message, "personal_message"@, e)
    } else if !name_readable(c.status, |t: Seq<char>| invitation_status_stored_as(t)) {
        name_failure(c.status, "status"@, e)
    } else if c.sent_at is Err {
        missing_column(c.sent_at, "sent_at"@, e)
    } else if c.opened_at is Err {
        missing_column(c.opened_at, "opened_at"@, e)
    } else if c.responded_at is Err {
        missing_column(c.responded_at, "responded_at"@, e)
    } else if c.invitation_token is Err {
        missing_column(c.invitation_token, "invitation_token"@, e)
    } else if c.expires_at is Err {
        missing_column(c.expires_at, "expires_at"@, e)
    } else if c.created_at is Err {
        missing_column(c.created_at, "created_at"@, e)
    } else if c.updated_at is Err {
        missing_column(c.updated_at, "updated_at"@, e)
    } else {
        false
    }
}

/// The columns of a stored user.
#[derive(Debug)]
pub struct UserColumns {
    pub id: Column<String>,
    pub keycloak_id: Column<String>,
    pub email: Column<String>,
    pub name: Column<String>,
    pub company_id: Column<Option<String>>,
    pub role: Column<String>,
    pub is_active: Column<bool>,
    pub created_at: Column<i64>,
    pub updated_at: Column<i64>,
}

/// `u` is the user read from `c`.
pub open spec fn user_read_from(u: User, c: UserColumns) -> bool {
    &&& c.id matches Ok(t) && parsed_uuid(t@) == Some(u.id)
    &&& c.keycloak_id == Ok::<String, String>(u.keycloak_id)
    &&& c.email == Ok::<String, String>(u.email)
    &&& c.name == Ok::<String, String>(u.name)
    &&& optional_uuid_read(c.company_id, u.company_id)
    &&& c.role matches Ok(t) && role_stored_as(t@) == Some(u.role)
    &&& c.is_active == Ok::<bool, String>(u.is_active)
    &&& c.created_at == Ok::<i64, String>(u.created_at)
    &&& c.updated_at == Ok::<i64, String>(u.updated_at)
}

/// The user stored in `c`, or the first column (in the order of the
/// struct) that cannot be read.
pub fn user_from_columns(c: UserColumns) -> (r: Result<User, RowConversionError>)
    ensures
        r matches Ok(u) ==> user_read_from(u, c),
        r matches Err(e) ==> user_read_failure(c, e),
{
    let id = column_uuid("id", c.id)?;
    let keycloak_id = column("keycloak_id", c.keycloak_id)?;
    let email = column("email", c.email)?;
    let name = column("name", c.name)?;
    let company_id = column_optional_uuid("company_id", c.company_id)?;
    let role = column_user_role("role", c.role)?;
    let is_active = column("is_active", c.is_active)?;
    let created_at = column("created_at", c.created_at)?;
    let updated_at = column("updated_at", c.updated_at)?;
    Ok(User { id, keycloak_id, email, name, company_id, role, is_active, created_at, updated_at })
}

/// The columns of a stored event category.
#[derive(Debug)]
pub struct CategoryColumns {
    pub id: Column<String>,
    pub name: Column<String>,
    pub description: Column<Option<String>>,
    pub color_hex: Column<Option<String>>,
    pub icon_name: Column<Option<String>>,
    pub is_active: Column<bool>,
    pub created_at: Column<i64>,
}

/// `cat` is the category read from `c`.
pub open spec fn category_read_from(cat: EventCategory, c: CategoryColumns) -> bool {
    &&& c.id == Ok::<String, String>(cat.id)
    &&& c.name == Ok::<String, String>(cat.name)
    &&& c.description == Ok::<Option<String>, String>(cat.description)
    &&& c.color_hex == Ok::<Option<String>, String>(cat.color_hex)
    &&& c.icon_name == Ok::<Option<String>, String>(cat.icon_name)
    &&& c.is_active == Ok::<bool, String>(cat.is_active)
    &&& c.created_at == Ok::<i64, String>(cat.created_at)
}

/// `e` reports the first column of `c`, in the order of the struct, that
/// cannot be read.
pub open spec fn category_read_failure(c: CategoryColumns, e: RowConversionError) -> bool {
    match (c.id, c.name, c.description, c.color_hex, c.icon_name, c.is_active, c.created_at) {
                (Err(cause), _, _, _, _, _, _) => is_missing(e, "id"@, cause),
                (Ok(_), Err(cause), _, _, _, _, _) => is_missing(e, "name"@, cause),
                (Ok(_), Ok(_), Err(cause), _, _, _, _) => is_missing(e, "description"@, cause),
                (Ok(_), Ok(_), Ok(_), Err(cause), _, _, _) => is_missing(e, "color_hex"@, cause),
                (Ok(_), Ok(_), Ok(_), Ok(_), Err(cause), _, _) => is_missing(e, "icon_name"@, cause),
                (Ok(_), Ok(_), Ok(_), Ok(_), Ok(_), Err(cause), _) => is_missing(e, "is_active"@, cause),
                (Ok(_), Ok(_), Ok(_), Ok(_), Ok(_), Ok(_), Err(cause)) => is_missing(e, "created_at"@, cause),
                _ => false,
            }
}

/// The category stored in `c`: exactly when every column can be read.
pub fn category_from_columns(c: CategoryColumns) -> (r: Result<EventCategory, RowConversionError>)
    ensures
        match r {
            Ok(cat) => category_read_from(cat, c),
            Err(e) => category_read_failure(c, e),
        },
{
    let id = column("id", c.id)?;
    let name = column("name", c.name)?;
    let description = column("description", c.description)?;
    let color_hex = column("color_hex", c.color_hex)?;
    let icon_name = column("icon_name", c.icon_name)?;
    let is_active = column("is_active", c.is_active)?;
    let created_at = column("created_at", c.created_at)?;
    Ok(EventCategory { id, name, description, color_hex, icon_name, is_active, created_at })
}

/// The columns of a stored invitation.
#[derive(Debug)]
pub struct InvitationColumns {
    pub id: Column<String>,
    pub event_id: Column<String>,
    pub invited_user_id: Column<Option<String>>,
    pub invited_contact_id: Column<Option<String>>,
    pub invited_email: Column<Option<String>>,
    pub invited_name: Column<Option<String>>,
    pub inviter_id: Column<String>,
    pub invitation_method: Column<String>,
    pub personal_message: Column<Option<String>>,
    pub status: Column<String>,
    pub sent_at: Column<Option<i64>>,
    pub opened_at: Column<Option<i64>>,
    pub responded_at: Column<Option<i64>>,
    pub invitation_token: Column<Option<String>>,
    pub expires_at: Column<Option<i64>>,
    pub created_at: Column<i64>,
    pub updated_at: Column<i64>,
}

/// An optional UUID column read as `v`.
pub open spec fn optional_uuid_read(raw: Column<Option<String>>, v: Option<u128>) -> bool {
    raw matches Ok(stored) && match stored {
        Some(t) => v is Some && parsed_uuid(t@) == v,
        None => v is None,
    }
}

/// `i` is the invitation read from `c`.
pub open spec fn invitation_read_from(i: EventInvitation, c: InvitationColumns) -> bool {
    &&& c.id matches Ok(t) && parsed_uuid(t@) == Some(i.id)
    &&& c.event_id matches Ok(t) && parsed_uuid(t@) == Some(i.event_id)
    &&& optional_uuid_read(c.invited_user_id, i.invited_user_id)
    &&& optional_uuid_read(c.invited_contact_id, i.invited_contact_id)
    &&& c.invited_email == Ok::<Option<String>, String>(i.invited_email)
    &&& c.invited_name == Ok::<Option<String>, String>(i.invited_name)
    &&& c.inviter_id matches Ok(t) && parsed_uuid(t@) == Some(i.inviter_id)
    &&& c.invitation_method matches Ok(t) && invitation_method_stored_as(t@) == Some(i.invitation_method)
    &&& c.personal_message == Ok::<Option<String>, String>(i.personal_message)
    &&& c.status matches Ok(t) && invitation_status_stored_as(t@) == Some(i.status)
    &&& c.sent_at == Ok::<Option<i64>, String>(i.sent_at)
    &&& c.opened_at == Ok::<Option<i64>, String>(i.opened_at)
    &&& c.responded_at == Ok::<Option<i64>, String>(i.responded_at)
    &&& c.invitation_token == Ok::<Option<String>, String>(i.invitation_token)
    &&& c.expires_at == Ok::<Option<i64>, String>(i.expires_at)
    &&& c.created_at == Ok::<i64, String>(i.created_at)
    &&& c.updated_at == Ok::<i64, String>(i.updated_at)
}

/// The invitation stored in `c`, or the first column (in the order of the
/// struct) that cannot be read.
pub fn invitation_from_columns(c: InvitationColumns) -> (r: Result<EventInvitation, RowConversionError>)
    ensures
        r matches Ok(i) ==> invitation_read_from(i, c),
        r matches Err(e) ==> invitation_read_failure(c, e),
{
    let id = column_uuid("id", c.id)?;
    let event_id = column_uuid("event_id", c.event_id)?;
    let invited_user_id = column_optional_uuid("invited_user_id", c.invited_user_id)?;
    let invited_contact_id = column_optional_uuid("invited_contact_id", c.invited_contact_id)?;
    let invited_email = column("invited_email", c.invited_email)?;
    let invited_name = column("invited_name", c.invited_name)?;
    let inviter_id = column_uuid("inviter_id", c.inviter_id)?;
    let invitation_method = column_invitation_method("invitation_method", c.invitation_method)?;
    let personal_message = column("personal_message", c.personal_message)?;
    let status = column_invitation_status("status", c.status)?;
    let sent_at = column("sent_at", c.sent_at)?;
    let opened_at = column("opened_at", c.opened_at)?;
    let responded_at = column("responded_at", c.responded_at)?;
    let invitation_token = column("invitation_token", c.invitation_token)?;
    let expires_at = column("expires_at", c.expires_at)?;
    let created_at = column("created_at", c.created_at)?;
    let updated_at = column("updated_at", c.updated_at)?;
    Ok(
        EventInvitation {
            id,
            event_id,
            invited_user_id,
            invited_contact_id,
            invited_email,
            invited_name,
            inviter_id,
            invitation_method,
            personal_message,
            status,
            sent_at,
            opened_at,
            responded_at,
            invitation_token,
            expires_at,
            created_at,
            updated_at,
        },
    )
}

// ============================================================================
// Events, read with defaults
// ============================================================================

/// The columns of a stored event as the event repository reads them: each
/// is `None` where it could not be read (or is `NULL`).
#[derive(Debug)]
pub struct StoredEvent {
    pub id: Option<String>,
    pub title: Option<String>,
    pub description: Option<String>,
    pub category_id: Option<String>,
    pub start_date: Option<i64>,
    pub end_date: Option<i64>,
    pub timezone: Option<String>,
    pub location_type: Option<String>,
    pub location_name: Option<String>,
    pub address: Option<String>,
    pub virtual_link: Option<String>,
    pub virtual_access_code: Option<String>,
    pub organizer_id: Option<String>,
    pub co_organizers: Option<String>,
    pub is_private: Option<bool>,
    pub requires_approval: Option<bool>,
    pub max_attendees: Option<i32>,
    pub allow_guests: Option<bool>,
    pub max_guests_per_person: Option<i32>,
    pub registration_opens: Option<i64>,
    pub registration_closes: Option<i64>,
    pub registration_required: Option<bool>,
    pub allow_waitlist: Option<bool>,
    pub send_reminders: Option<bool>,
    pub collect_dietary_info: Option<bool>,
    pub collect_accessibility_info: Option<bool>,
    pub image_url: Option<String>,
    pub custom_fields: Option<String>,
    pub status: Option<String>,
    pub created_at: Option<i64>,
    pub updated_at: Option<i64>,
}

/// The text of a column that may be missing (the empty text when it is).
pub open spec fn text_or_empty(v: Option<String>) -> Seq<char> {
    match v {
        Some(s) => s@,
        None => Seq::empty(),
    }
}

/// The id a stored UUID text gives: the nil UUID (0) where the column is
/// missing or holds no UUID.
pub open spec fn stored_id(v: Option<String>) -> u128 {
    match parsed_uuid(text_or_empty(v)) {
        Some(id) => id,
        None => 0,
    }
}

/// An id column read, the nil UUID standing in for what cannot be read.
fn id_or_nil(v: &Option<String>) -> (r: u128)
    ensures
        r == stored_id(*v),
{
    let parsed = match v {
        Some(text) => parse_uuid_text(text.as_str()),
        None => parse_uuid_text(""),
    };
    proof {
        reveal_strlit("");
        assert(""@ =~= Seq::<char>::empty());
    }
    match parsed {
        Ok(id) => id,
        Err(_) => 0,
    }
}

/// A text column read, the empty text standing in for a missing one.
fn text_or_default(v: Option<String>) -> (r: String)
    ensures
        r@ == text_or_empty(v),
{
    match v {
        Some(s) => s,
        None => String::new(),
    }
}

/// The location type a stored name gives exactly; a missing column or an
/// unknown name gives `Physical`.
pub open spec fn stored_location_type(v: Option<String>) -> LocationType {
    match location_type_named(text_or_empty(v)) {
        Some(t) => t,
        None => LocationType::Physical,
    }
}

/// The event status a stored name gives exactly; a missing column or an
/// unknown name gives `Draft`.
pub open spec fn stored_event_status(v: Option<String>) -> EventStatus {
    match event_status_named(text_or_empty(v)) {
        Some(t) => t,
        None => EventStatus::Draft,
    }
}

/// The co-organisers a stored JSON list gives; a missing column or a text
/// that is no list of UUIDs gives none.
pub open spec fn stored_co_organizers(v: Option<String>) -> Seq<u128> {
    match json_uuid_list(text_or_empty(v)) {
        Some(ids) => ids,
        None => Seq::empty(),
    }
}

/// `e` is the event the event repository reads from `s`: every column
/// that cannot be read stands for its default (the nil id, the empty text,
/// the epoch, `false`, no co-organisers, a physical draft).
pub open spec fn event_read_from(e: Event, s: StoredEvent) -> bool {
    &&& e.id == stored_id(s.id)
    &&& e.title@ == text_or_empty(s.title)
    &&& e.description@ == text_or_empty(s.description)
    &&& e.category_id@ == text_or_empty(s.category_id)
    &&& e.start_date == s.start_date.unwrap_or(0)
    &&& e.end_date == s.end_date.unwrap_or(0)
    &&& e.timezone@ == text_or_empty(s.timezone)
    &&& e.location_type == stored_location_type(s.location_type)
    &&& e.location_name == s.location_name
    &&& e.address == s.address
    &&& e.virtual_link == s.virtual_link
    &&& e.virtual_access_code == s.virtual_access_code
    &&& e.organizer_id == stored_id(s.organizer_id)
    &&& e.co_organizers@ == stored_co_organizers(s.co_organizers)
    &&& e.is_private == s.is_private.unwrap_or(false)
    &&& e.requires_approval == s.requires_approval.unwrap_or(false)
    &&& e.max_attendees == s.max_attendees
    &&& e.allow_guests == s.allow_guests.unwrap_or(false)
    &&& e.max_guests_per_person == s.max_guests_per_person
    &&& e.registration_opens == s.registration_opens
    &&& e.registration_closes == s.registration_closes
    &&& e.registration_required == s.registration_required.unwrap_or(false)
    &&& e.allow_waitlist == s.allow_waitlist.unwrap_or(false)
    &&& e.send_reminders == s.send_reminders.unwrap_or(false)
    &&& e.collect_dietary_info == s.collect_dietary_info.unwrap_or(false)
    &&& e.collect_accessibility_info == s.collect_accessibility_info.unwrap_or(false)
    &&& e.image_url == s.image_url
    &&& e.custom_fields == s.custom_fields
    &&& e.status == stored_event_status(s.status)
    &&& e.created_at == s.created_at.unwrap_or(0)
    &&& e.updated_at == s.updated_at.unwrap_or(0)
}

/// The event the event repository reads from its columns.
pub fn event_from_stored(s: StoredEvent) -> (r: Event)
    ensures
        event_read_from(r, s),
{
    let id = id_or_nil(&s.id);
    let organizer_id = id_or_nil(&s.organizer_id);
    let location_type = {
        let name = text_or_default(s.location_type);
        match location_type_from_name(name.as_str()) {
            Some(t) => t,
            None => LocationType::Physical,
        }
    };
    let status = {
        let name = text_or_default(s.status);
        match event_status_from_name(name.as_str()) {
            Some(t) => t,
            None => EventStatus::Draft,
        }
    };
    let co_organizers = {
        let text = text_or_default(s.co_organizers);
        match parse_uuid_list(text.as_str()) {
            Some(ids) => ids,
            None => Vec::new(),
        }
    };
    Event {
        id,
        title: text_or_default(s.title),
        description: text_or_default(s.description),
        category_id: text_or_default(s.category_id),
        start_date: s.start_date.unwrap_or(0),
        end_date: s.end_date.unwrap_or(0),
        timezone: text_or_default(s.timezone),
        location_type,
        location_name: s.location_name,
        address: s.address,
        virtual_link: s.virtual_link,
        virtual_access_code: s.virtual_access_code,
        organizer_id,
        co_organizers,
        is_private: s.is_private.unwrap_or(false),
        requires_approval: s.requires_approval.unwrap_or(false),
        max_attendees: s.max_attendees,
        allow_guests: s.allow_guests.unwrap_or(false),
        max_guests_per_person: s.max_guests_per_person,
        registration_opens: s.registration_opens,
        registration_closes: s.registration_closes,
        registration_required: s.registration_required.unwrap_or(false),
        allow_waitlist: s.allow_waitlist.unwrap_or(false),
        send_reminders: s.send_reminders.unwrap_or(false),
        collect_dietary_info: s.collect_dietary_info.unwrap_or(false),
        collect_accessibility_info: s.collect_accessibility_info.unwrap_or(false),
        image_url: s.image_url,
        custom_fields: s.custom_fields,
        status,
        created_at: s.created_at.unwrap_or(0),
        updated_at: s.updated_at.unwrap_or(0),
    }
}

/// The columns the event repository writes for `e`: every column given,
/// ids as their hyphenated text, the location type and status by name, the
/// co-organisers as a JSON list.
pub open spec fn event_written_as(e: Event, s: StoredEvent) -> bool {
    &&& s.id matches Some(t) && t@ == uuid_text(e.id) && parsed_uuid(t@) == Some(e.id)
    &&& s.title == Some(e.title)
    &&& s.description == Some(e.description)
    &&& s.category_id == Some(e.category_id)
    &&& s.start_date == Some(e.start_date)
    &&& s.end_date == Some(e.end_date)
    &&& s.timezone == Some(e.timezone)
    &&& s.location_type matches Some(t) && t@ == location_type_name(e.location_type)
    &&& s.location_name == e.location_name
    &&& s.address == e.address
    &&& s.virtual_link == e.virtual_link
    &&& s.virtual_access_code == e.virtual_access_code
    &&& s.organizer_id matches Some(t) && t@ == uuid_text(e.organizer_id) && parsed_uuid(t@) == Some(e.organizer_id)
    &&& s.co_organizers matches Some(t) && t@ == uuid_list_json(e.co_organizers@) && json_uuid_list(t@) == Some(
        e.co_organizers@,
    )
    &&& s.is_private == Some(e.is_private)
    &&& s.requires_approval == Some(e.requires_approval)
    &&& s.max_attendees == e.max_attendees
    &&& s.allow_guests == Some(e.allow_guests)
    &&& s.max_guests_per_person == e.max_guests_per_person
    &&& s.registration_opens == e.registration_opens
    &&& s.registration_closes == e.registration_closes
    &&& s.registration_required == Some(e.registration_required)
    &&& s.allow_waitlist == Some(e.allow_waitlist)
    &&& s.send_reminders == Some(e.send_reminders)
    &&& s.collect_dietary_info == Some(e.collect_dietary_info)
    &&& s.collect_accessibility_info == Some(e.collect_accessibility_info)
    &&& s.image_url == e.image_url
    &&& s.custom_fields == e.custom_fields
    &&& s.status matches Some(t) && t@ == event_status_name(e.status)
    &&& s.created_at == Some(e.created_at)
    &&& s.updated_at == Some(e.updated_at)
}

/// The columns the event repository writes for `e`.
pub fn event_to_stored(e: &Event) -> (s: StoredEvent)
    ensures
        event_written_as(*e, s),
{
    StoredEvent {
        id: Some(uuid_to_string(e.id)),
        title: Some(e.title.clone()),
        description: Some(e.description.clone()),
        category_id: Some(e.category_id.clone()),
        start_date: Some(e.start_date),
        end_date: Some(e.end_date),
        timezone: Some(e.timezone.clone()),
        location_type: Some(own(location_type_to_string(&e.location_type))),
        location_name: clone_opt(&e.location_name),
        address: clone_opt(&e.address),
        virtual_link: clone_opt(&e.virtual_link),
        virtual_access_code: clone_opt(&e.virtual_access_code),
        organizer_id: Some(uuid_to_string(e.organizer_id)),
        co_organizers: Some(uuid_list_to_json(&e.co_organizers)),
        is_private: Some(e.is_private),
        requires_approval: Some(e.requires_approval),
        max_attendees: e.max_attendees,
        allow_guests: Some(e.allow_guests),
        max_guests_per_person: e.max_guests_per_person,
        registration_opens: e.registration_opens,
        registration_closes: e.registration_closes,
        registration_required: Some(e.registration_required),
        allow_waitlist: Some(e.allow_waitlist),
        send_reminders: Some(e.send_reminders),
        collect_dietary_info: Some(e.collect_dietary_info),
        collect_accessibility_info: Some(e.collect_accessibility_info),
        image_url: clone_opt(&e.image_url),
        custom_fields: clone_opt(&e.custom_fields),
        status: Some(own(event_status_to_string(&e.status))),
        created_at: Some(e.created_at),
        updated_at: Some(e.updated_at),
    }
}

/// Two events agree in every field, texts and lists by their contents.
pub open spec fn same_event(a: Event, b: Event) -> bool {
    &&& a.id == b.id
    &&& a.title@ == b.title@
    &&& a.description@ == b.description@
    &&& a.category_id@ == b.category_id@
    &&& a.start_date == b.start_date
    &&& a.end_date == b.end_date
    &&& a.timezone@ == b.timezone@
    &&& a.location_type == b.location_type
    &&& opt_view(a.location_name) == opt_view(b.location_name)
    &&& opt_view(a.address) == opt_view(b.address)
    &&& opt_view(a.virtual_link) == opt_view(b.virtual_link)
    &&& opt_view(a.virtual_access_code) == opt_view(b.virtual_access_code)
    &&& a.organizer_id == b.organizer_id
    &&& a.co_organizers@ == b.co_organizers@
    &&& a.is_private == b.is_private
    &&& a.requires_approval == b.requires_approval
    &&& a.max_attendees == b.max_attendees
    &&& a.allow_guests == b.allow_guests
    &&& a.max_guests_per_person == b.max_guests_per_person
    &&& a.registration_opens == b.registration_opens
    &&& a.registration_closes == b.registration_closes
    &&& a.registration_required == b.registration_required
    &&& a.allow_waitlist == b.allow_waitlist
    &&& a.send_reminders == b.send_reminders
    &&& a.collect_dietary_info == b.collect_dietary_info
    &&& a.collect_accessibility_info == b.collect_accessibility_info
    &&& opt_view(a.image_url) == opt_view(b.image_url)
    &&& opt_view(a.custom_fields) == opt_view(b.custom_fields)
    &&& a.status == b.status
    &&& a.created_at == b.created_at
    &&& a.updated_at == b.updated_at
}

/// The event the event repository reads back from the columns it wrote for
/// an event is that event.
pub proof fn law_event_write_read_round_trip(e: Event, s: StoredEvent, back: Event)
    requires
        event_written_as(e, s),
        event_read_from(back, s),
    ensures
        same_event(back, e),
{
    law_event_enums_round_trip(e.location_type, e.status);
}

// ============================================================================
// Registrations
// ============================================================================

/// A stored registration: its `NOT NULL` columns as values, the others as
/// optional values.
#[derive(Debug)]
pub struct RegistrationRow {
    pub id: String,
    pub event_id: String,
    pub invitation_id: Option<String>,
    pub user_id: Option<String>,
    pub external_contact_id: Option<String>,
    pub registrant_email: Option<String>,
    pub registrant_name: Option<String>,
    pub registrant_phone: Option<String>,
    pub registrant_company: Option<String>,
    pub status: String,
    pub registration_source: String,
    pub guest_count: i64,
    pub guest_names: Option<String>,
    pub dietary_restrictions: Option<String>,
    pub accessibility_needs: Option<String>,
    pub special_requests: Option<String>,
    pub custom_responses: Option<String>,
    pub registered_at: i64,
    pub cancelled_at: Option<i64>,
    pub checked_in_at: Option<i64>,
    pub waitlist_position: Option<i64>,
    pub waitlist_added_at: Option<i64>,
    pub created_at: i64,
    pub updated_at: i64,
}

/// The refusal of a stored id of `what` that is no UUID: a business-rule
/// violation that begins "Invalid UUID format for <what>: " and then gives
/// the parser's message.
pub open spec fn bad_stored_id(e: DomainErrorView, what: Seq<char>) -> bool {
    e matches DomainErrorView::BusinessRuleViolation { message } && exists|detail: Seq<char>|
        message == "Invalid UUID format for "@ + what + ": "@ + detail
}

/// An optional stored id holds no UUID.
pub open spec fn bad_optional_id(v: Option<String>) -> bool {
    v matches Some(t) && parsed_uuid(t@) is None
}

/// An optional stored id read as `id`.
pub open spec fn optional_id_read(v: Option<String>, id: Option<u128>) -> bool {
    match v {
        Some(t) => id is Some && parsed_uuid(t@) == id,
        None => id is None,
    }
}

/// The stored id of `what`.
fn stored_registration_id(text: &str, what: &str) -> (r: DomainResult<u128>)
    ensures
        match r {
            Ok(id) => parsed_uuid(text@) == Some(id),
            Err(e) => parsed_uuid(text@) is None && bad_stored_id(e@, what@),
        },
{
    match parse_uuid_text(text) {
        Ok(id) => Ok(id),
        Err(error) => {
            let detail = uuid_error_text(&error);
            let mut message = concat("Invalid UUID format for ", what);
            message.append(": ");
            message.append(detail.as_str());
            assert(message@ == "Invalid UUID format for "@ + what@ + ": "@ + detail@);
            Err(DomainError::BusinessRuleViolation { message })
        },
    }
}

/// The optional stored id of `what`.
fn stored_optional_id(text: &Option<String>, what: &str) -> (r: DomainResult<Option<u128>>)
    ensures
        match r {
            Ok(id) => optional_id_read(*text, id),
            Err(e) => bad_optional_id(*text) && bad_stored_id(e@, what@),
        },
{
    match text {
        Some(t) => match stored_registration_id(t.as_str(), what) {
            Ok(id) => Ok(Some(id)),
            Err(e) => Err(e),
        },
        None => Ok(None),
    }
}

/// The registration status a stored name gives, whatever its case; an
/// unknown name gives `Registered`.
pub open spec fn stored_registration_status(text: Seq<char>) -> RegistrationStatus {
    match registration_status_named(lowercase_of(text)) {
        Some(s) => s,
        None => RegistrationStatus::Registered,
    }
}

/// The registration source a stored name gives, whatever its case; an
/// unknown name gives `Direct`.
pub open spec fn stored_registration_source(text: Seq<char>) -> RegistrationSource {
    match registration_source_named(lowercase_of(text)) {
        Some(s) => s,
        None => RegistrationSource::Direct,
    }
}

/// The registration status an ASCII stored name gives: the name lowered
/// as ASCII, an unknown name giving `Registered`.
pub open spec fn ascii_stored_registration_status(text: Seq<char>) -> RegistrationStatus {
    match registration_status_named(ascii_lowercase(text)) {
        Some(s) => s,
        None => RegistrationStatus::Registered,
    }
}

/// The registration source an ASCII stored name gives: the name lowered
/// as ASCII, an unknown name giving `Direct`.
pub open spec fn ascii_stored_registration_source(text: Seq<char>) -> RegistrationSource {
    match registration_source_named(ascii_lowercase(text)) {
        Some(s) => s,
        None => RegistrationSource::Direct,
    }
}

/// The guests' names a stored JSON list gives: none when the column is
/// `NULL` or holds no list of strings.
pub open spec fn stored_guest_names(v: Option<String>) -> Seq<Seq<char>> {
    match v {
        Some(t) => match json_string_list(t@) {
            Some(names) => names,
            None => Seq::empty(),
        },
        None => Seq::empty(),
    }
}

/// The first stored id that holds no UUID, in the order registration,
/// event, invitation, user, external contact, with what it is the id of.
pub open spec fn first_bad_registration_id(row: RegistrationRow) -> Option<Seq<char>> {
    if parsed_uuid(row.id@) is None {
        Some("registration ID"@)
    } else if parsed_uuid(row.event_id@) is None {
        Some("event ID"@)
    } else if bad_optional_id(row.invitation_id) {
        Some("invitation ID"@)
    } else if bad_optional_id(row.user_id) {
        Some("user ID"@)
    } else if bad_optional_id(row.external_contact_id) {
        Some("external contact ID"@)
    } else {
        None
    }
}

/// `reg` is the registration stored in `row`.
pub open spec fn registration_read_from(reg: EventRegistration, row: RegistrationRow) -> bool {
    &&& parsed_uuid(row.id@) == Some(reg.id)
    &&& parsed_uuid(row.event_id@) == Some(reg.event_id)
    &&& optional_id_read(row.invitation_id, reg.invitation_id)
    &&& optional_id_read(row.user_id, reg.user_id)
    &&& optional_id_read(row.external_contact_id, reg.external_contact_id)
    &&& reg.registrant_email == row.registrant_email
    &&& reg.registrant_name == row.registrant_name
    &&& reg.registrant_phone == row.registrant_phone
    &&& reg.registrant_company == row.registrant_company
    &&& reg.status == stored_registration_status(row.status@)
    &&& is_ascii_text(row.status@) ==> reg.status == ascii_stored_registration_status(row.status@)
    &&& reg.registration_source == stored_registration_source(row.registration_source@)
    &&& is_ascii_text(row.registration_source@) ==> reg.registration_source
        == ascii_stored_registration_source(row.registration_source@)
    &&& reg.guest_count == row.guest_count as i32
    &&& texts(reg.guest_names@) == stored_guest_names(row.guest_names)
    &&& reg.dietary_restrictions == row.dietary_restrictions
    &&& reg.accessibility_needs == row.accessibility_needs
    &&& reg.special_requests == row.special_requests
    &&& reg.custom_responses == row.custom_responses
    &&& reg.registered_at == row.registered_at
    &&& reg.cancelled_at == row.cancelled_at
    &&& reg.checked_in_at == row.checked_in_at
    &&& reg.waitlist_position == (match row.waitlist_position {
        Some(p) => Some(p as i32),
        None => None,
    })
    &&& reg.waitlist_added_at == row.waitlist_added_at
    &&& reg.created_at == row.created_at
    &&& reg.updated_at == row.updated_at
}

/// The registration stored in `row`; a stored id that is no UUID is
/// refused, the first one in the order of `first_bad_registration_id`.
pub fn registration_from_row(row: RegistrationRow) -> (r: DomainResult<EventRegistration>)
    ensures
        match r {
            Ok(reg) => first_bad_registration_id(row) is None && registration_read_from(reg, row),
            Err(e) => first_bad_registration_id(row) matches Some(what) && bad_stored_id(e@, what),
        },
{
    let id = stored_registration_id(row.id.as_str(), "registration ID")?;
    let event_id = stored_registration_id(row.event_id.as_str(), "event ID")?;
    let invitation_id = stored_optional_id(&row.invitation_id, "invitation ID")?;
    let user_id = stored_optional_id(&row.user_id, "user ID")?;
    let external_contact_id = stored_optional_id(&row.external_contact_id, "external contact ID")?;
    let guest_names: Vec<String> = match &row.guest_names {
        Some(text) => match parse_string_list(text.as_str()) {
            Some(names) => names,
            None => Vec::new(),
        },
        None => Vec::new(),
    };
    proof {
        assert(texts(Seq::<String>::empty()) =~= Seq::<Seq<char>>::empty());
    }
    let status = match registration_status_from_name(row.status.as_str()) {
        Some(s) => s,
        None => RegistrationStatus::Registered,
    };
    let registration_source = match registration_source_from_name(row.registration_source.as_str()) {
        Some(s) => s,
        None => RegistrationSource::Direct,
    };
    let waitlist_position = match row.waitlist_position {
        Some(p) => Some(p as i32),
        None => None,
    };
    Ok(
        EventRegistration {
            id,
            event_id,
            invitation_id,
            user_id,
            external_contact_id,
            registrant_email: row.registrant_email,
            registrant_name: row.registrant_name,
            registrant_phone: row.registrant_phone,
            registrant_company: row.registrant_company,
            status,
            registration_source,
            guest_count: row.guest_count as i32,
            guest_names,
            dietary_restrictions: row.dietary_restrictions,
            accessibility_needs: row.accessibility_needs,
            special_requests: row.special_requests,
            custom_responses: row.custom_responses,
            registered_at: row.registered_at,
            cancelled_at: row.cancelled_at,
            checked_in_at: row.checked_in_at,
            waitlist_position,
            waitlist_added_at: row.waitlist_added_at,
            created_at: row.created_at,
            updated_at: row.updated_at,
        },
    )
}

// ============================================================================
// Registrations written
// ============================================================================

/// An optional id written as its hyphenated text, `NULL` for none.
pub open spec fn optional_id_written(v: Option<String>, id: Option<u128>) -> bool {
    match id {
        Some(i) => v matches Some(t) && t@ == uuid_text(i) && parsed_uuid(t@) == Some(i),
        None => v is None,
    }
}

/// The row the registration repository writes for `r`: ids as their
/// hyphenated text, the status and source by name, the guests' names as a
/// JSON list.
pub open spec fn registration_written_as(r: EventRegistration, row: RegistrationRow) -> bool {
    &&& row.id@ == uuid_text(r.id) && parsed_uuid(row.id@) == Some(r.id)
    &&& row.event_id@ == uuid_text(r.event_id) && parsed_uuid(row.event_id@) == Some(r.event_id)
    &&& optional_id_written(row.invitation_id, r.invitation_id)
    &&& optional_id_written(row.user_id, r.user_id)
    &&& optional_id_written(row.external_contact_id, r.external_contact_id)
    &&& row.registrant_email == r.registrant_email
    &&& row.registrant_name == r.registrant_name
    &&& row.registrant_phone == r.registrant_phone
    &&& row.registrant_company == r.registrant_company
    &&& row.status@ == registration_status_name(r.status)
    &&& row.registration_source@ == registration_source_name(r.registration_source)
    &&& row.guest_count == r.guest_count as i64
    &&& row.guest_names matches Some(t) && t@ == string_list_json(texts(r.guest_names@)) && json_string_list(t@)
        == Some(texts(r.guest_names@))
    &&& row.dietary_restrictions == r.dietary_restrictions
    &&& row.accessibility_needs == r.accessibility_needs
    &&& row.special_requests == r.special_requests
    &&& row.custom_responses == r.custom_responses
    &&& row.registered_at == r.registered_at
    &&& row.cancelled_at == r.cancelled_at
    &&& row.checked_in_at == r.checked_in_at
    &&& row.waitlist_position == (match r.waitlist_position {
        Some(p) => Some(p as i64),
        None => None,
    })
    &&& row.waitlist_added_at == r.waitlist_added_at
    &&& row.created_at == r.created_at
    &&& row.updated_at == r.updated_at
}

/// An optional id as the text it is stored as.
fn optional_id_text(id: Option<u128>) -> (r: Option<String>)
    ensures
        optional_id_written(r, id),
{
    match id {
        Some(i) => Some(uuid_to_string(i)),
        None => None,
    }
}

/// The row the registration repository writes for `r`.
pub fn registration_to_row(r: &EventRegistration) -> (row: RegistrationRow)
    ensures
        registration_written_as(*r, row),
{
    RegistrationRow {
        id: uuid_to_string(r.id),
        event_id: uuid_to_string(r.event_id),
        invitation_id: optional_id_text(r.invitation_id),
        user_id: optional_id_text(r.user_id),
        external_contact_id: optional_id_text(r.external_contact_id),
        registrant_email: clone_opt(&r.registrant_email),
        registrant_name: clone_opt(&r.registrant_name),
        registrant_phone: clone_opt(&r.registrant_phone),
        registrant_company: clone_opt(&r.registrant_company),
        status: own(registration_status_to_string(&r.status)),
        registration_source: own(registration_source_to_string(&r.registration_source)),
        guest_count: r.guest_count as i64,
        guest_names: Some(string_list_to_json(&r.guest_names)),
        dietary_restrictions: clone_opt(&r.dietary_restrictions),
        accessibility_needs: clone_opt(&r.accessibility_needs),
        special_requests: clone_opt(&r.special_requests),
        custom_responses: clone_opt(&r.custom_responses),
        registered_at: r.registered_at,
        cancelled_at: r.cancelled_at,
        checked_in_at: r.checked_in_at,
        waitlist_position: match r.waitlist_position {
            Some(p) => Some(p as i64),
            None => None,
        },
        waitlist_added_at: r.waitlist_added_at,
        created_at: r.created_at,
        updated_at: r.updated_at,
    }
}

/// Two registrations agree in every field, texts and lists by their
/// contents.
pub open spec fn same_registration(a: EventRegistration, b: EventRegistration) -> bool {
    &&& a.id == b.id
    &&& a.event_id == b.event_id
    &&& a.invitation_id == b.invitation_id
    &&& a.user_id == b.user_id
    &&& a.external_contact_id == b.external_contact_id
    &&& opt_view(a.registrant_email) == opt_view(b.registrant_email)
    &&& opt_view(a.registrant_name) == opt_view(b.registrant_name)
    &&& opt_view(a.registrant_phone) == opt_view(b.registrant_phone)
    &&& opt_view(a.registrant_company) == opt_view(b.registrant_company)
    &&& a.status == b.status
    &&& a.registration_source == b.registration_source
    &&& a.guest_count == b.guest_count
    &&& texts(a.guest_names@) == texts(b.guest_names@)
    &&& opt_view(a.dietary_restrictions) == opt_view(b.dietary_restrictions)
    &&& opt_view(a.accessibility_needs) == opt_view(b.accessibility_needs)
    &&& opt_view(a.special_requests) == opt_view(b.special_requests)
    &&& opt_view(a.custom_responses) == opt_view(b.custom_responses)
    &&& a.registered_at == b.registered_at
    &&& a.cancelled_at == b.cancelled_at
    &&& a.checked_in_at == b.checked_in_at
    &&& a.waitlist_position == b.waitlist_position
    &&& a.waitlist_added_at == b.waitlist_added_at
    &&& a.created_at == b.created_at
    &&& a.updated_at == b.updated_at
}

/// The stored names of statuses and sources are ASCII and already lower
/// case.
proof fn lemma_registration_names_lowered(status: RegistrationStatus, source: RegistrationSource)
    ensures
        is_ascii_text(registration_status_name(status)),
        ascii_lowercase(registration_status_name(status)) == registration_status_name(status),
        is_ascii_text(registration_source_name(source)),
        ascii_lowercase(registration_source_name(source)) == registration_source_name(source),
{
    reveal_strlit("registered");
    reveal_strlit("waitlisted");
    reveal_strlit("cancelled");
    reveal_strlit("attended");
    reveal_strlit("no_show");
    reveal_strlit("invitation");
    reveal_strlit("direct");
    reveal_strlit("waitlist_promotion");
    let t = registration_status_name(status);
    let u = registration_source_name(source);
    assert(ascii_lowercase(t) =~= t);
    assert(ascii_lowercase(u) =~= u);
}

/// A registration written by the registration repository is read back: no
/// stored id is refused, and what is read is that registration.
pub proof fn law_registration_write_read_round_trip(r: EventRegistration, row: RegistrationRow, back: EventRegistration)
    requires
        registration_written_as(r, row),
        registration_read_from(back, row),
    ensures
        first_bad_registration_id(row) is None,
        same_registration(back, r),
{
    law_registration_enums_round_trip(r.status, r.registration_source);
    lemma_registration_names_lowered(r.status, r.registration_source);
}

// ============================================================================
// Users, categories and invitations written
// ============================================================================

/// The values the user repository writes for a user.
#[derive(Debug)]
pub struct UserRecord {
    pub id: String,
    pub keycloak_id: String,
    pub email: String,
    pub name: String,
    pub company_id: Option<String>,
    pub role: String,
    pub is_active: bool,
    pub created_at: i64,
    pub updated_at: i64,
}

/// What is written for `u`: ids as their hyphenated text, the role by name.
pub open spec fn user_written_as(u: User, rec: UserRecord) -> bool {
    &&& rec.id@ == uuid_text(u.id) && parsed_uuid(rec.id@) == Some(u.id)
    &&& rec.keycloak_id == u.keycloak_id
    &&& rec.email == u.email
    &&& rec.name == u.name
    &&& optional_id_written(rec.company_id, u.company_id)
    &&& rec.role@ == user_role_name(u.role)
    &&& rec.is_active == u.is_active
    &&& rec.created_at == u.created_at
    &&& rec.updated_at == u.updated_at
}

/// The columns a written user is read back from.
pub open spec fn user_record_columns(rec: UserRecord) -> UserColumns {
    UserColumns {
        id: Ok(rec.id),
        keycloak_id: Ok(rec.keycloak_id),
        email: Ok(rec.email),
        name: Ok(rec.name),
        company_id: Ok(rec.company_id),
        role: Ok(rec.role),
        is_active: Ok(rec.is_active),
        created_at: Ok(rec.created_at),
        updated_at: Ok(rec.updated_at),
    }
}

/// The values the user repository writes for `u`.
pub fn user_record(u: &User) -> (rec: UserRecord)
    ensures
        user_written_as(*u, rec),
{
    UserRecord {
        id: uuid_to_string(u.id),
        keycloak_id: u.keycloak_id.clone(),
        email: u.email.clone(),
        name: u.name.clone(),
        company_id: optional_id_text(u.company_id),
        role: user_role_to_string(&u.role),
        is_active: u.is_active,
        created_at: u.created_at,
        updated_at: u.updated_at,
    }
}

/// Every role is read back from its stored name.
proof fn lemma_role_stored_as_name(role: UserRole)
    ensures
        role_stored_as(user_role_name(role)) == Some(role),
{
    reveal_strlit("admin");
    reveal_strlit("organizer");
    reveal_strlit("participant");
    assert("admin"@.len() == 5 && "organizer"@.len() == 9 && "participant"@.len() == 11);
}

/// A user written by the user repository is read back: every column reads,
/// and what is read is that user.
pub proof fn law_user_write_read_round_trip(u: User, rec: UserRecord, e: RowConversionError, back: User)
    requires
        user_written_as(u, rec),
    ensures
        !user_read_failure(user_record_columns(rec), e),
        user_read_from(back, user_record_columns(rec)) ==> back == u,
{
    lemma_role_stored_as_name(u.role);
}

/// The values the category repository writes for a category.
#[derive(Debug)]
pub struct CategoryRecord {
    pub id: String,
    pub name: String,
    pub description: Option<String>,
    pub color_hex: Option<String>,
    pub icon_name: Option<String>,
    pub is_active: bool,
    pub created_at: i64,
}

/// What is written for `c`: its fields as they are.
pub open spec fn category_written_as(c: EventCategory, rec: CategoryRecord) -> bool {
    &&& rec.id == c.id
    &&& rec.name == c.name
    &&& rec.description == c.description
    &&& rec.color_hex == c.color_hex
    &&& rec.icon_name == c.icon_name
    &&& rec.is_active == c.is_active
    &&& rec.created_at == c.created_at
}

/// The columns a written category is read back from.
pub open spec fn category_record_columns(rec: CategoryRecord) -> CategoryColumns {
    CategoryColumns {
        id: Ok(rec.id),
        name: Ok(rec.name),
        description: Ok(rec.description),
        color_hex: Ok(rec.color_hex),
        icon_name: Ok(rec.icon_name),
        is_active: Ok(rec.is_active),
        created_at: Ok(rec.created_at),
    }
}

/// The values the category repository writes for `c`.
pub fn category_record(c: &EventCategory) -> (rec: CategoryRecord)
    ensures
        category_written_as(*c, rec),
{
    CategoryRecord {
        id: c.id.clone(),
        name: c.name.clone(),
        description: clone_opt(&c.description),
        color_hex: clone_opt(&c.color_hex),
        icon_name: clone_opt(&c.icon_name),
        is_active: c.is_active,
        created_at: c.created_at,
    }
}

/// A category written by the category repository is read back: every
/// column reads, and what is read is that category.
pub proof fn law_category_write_read_round_trip(
    c: EventCategory,
    rec: CategoryRecord,
    e: RowConversionError,
    back: EventCategory,
)
    requires
        category_written_as(c, rec),
    ensures
        !category_read_failure(category_record_columns(rec), e),
        category_read_from(back, category_record_columns(rec)) ==> back == c,
{
}

/// The values the invitation repository writes for an invitation.
#[derive(Debug)]
pub struct InvitationRecord {
    pub id: String,
    pub event_id: String,
    pub invited_user_id: Option<String>,
    pub invited_contact_id: Option<String>,
    pub invited_email: Option<String>,
    pub invited_name: Option<String>,
    pub inviter_id: String,
    pub invitation_method: String,
    pub personal_message: Option<String>,
    pub status: String,
    pub sent_at: Option<i64>,
    pub opened_at: Option<i64>,
    pub responded_at: Option<i64>,
    pub invitation_token: Option<String>,
    pub expires_at: Option<i64>,
    pub created_at: i64,
    pub updated_at: i64,
}

/// What is written for `i`: ids as their hyphenated text, the method and
/// status by name.
pub open spec fn invitation_written_as(i: EventInvitation, rec: InvitationRecord) -> bool {
    &&& rec.id@ == uuid_text(i.id) && parsed_uuid(rec.id@) == Some(i.id)
    &&& rec.event_id@ == uuid_text(i.event_id) && parsed_uuid(rec.event_id@) == Some(i.event_id)
    &&& optional_id_written(rec.invited_user_id, i.invited_user_id)
    &&& optional_id_written(rec.invited_contact_id, i.invited_contact_id)
    &&& rec.invited_email == i.invited_email
    &&& rec.invited_name == i.invited_name
    &&& rec.inviter_id@ == uuid_text(i.inviter_id) && parsed_uuid(rec.inviter_id@) == Some(i.inviter_id)
    &&& rec.invitation_method@ == invitation_method_name(i.invitation_method)
    &&& rec.personal_message == i.personal_message
    &&& rec.status@ == invitation_status_name(i.status)
    &&& rec.sent_at == i.sent_at
    &&& rec.opened_at == i.opened_at
    &&& rec.responded_at == i.responded_at
    &&& rec.invitation_token == i.invitation_token
    &&& rec.expires_at == i.expires_at
    &&& rec.created_at == i.created_at
    &&& rec.updated_at == i.updated_at
}

/// The columns a written invitation is read back from.
pub open spec fn invitation_record_columns(rec: InvitationRecord) -> InvitationColumns {
    InvitationColumns {
        id: Ok(rec.id),
        event_id: Ok(rec.event_id),
        invited_user_id: Ok(rec.invited_user_id),
        invited_contact_id: Ok(rec.invited_contact_id),
        invited_email: Ok(rec.invited_email),
        invited_name: Ok(rec.invited_name),
        inviter_id: Ok(rec.inviter_id),
        invitation_method: Ok(rec.invitation_method),
        personal_message: Ok(rec.personal_message),
        status: Ok(rec.status),
        sent_at: Ok(rec.sent_at),
        opened_at: Ok(rec.opened_at),
        responded_at: Ok(rec.responded_at),
        invitation_token: Ok(rec.invitation_token),
        expires_at: Ok(rec.expires_at),
        created_at: Ok(rec.created_at),
        updated_at: Ok(rec.updated_at),
    }
}

/// The values the invitation repository writes for `i`.
pub fn invitation_record(i: &EventInvitation) -> (rec: InvitationRecord)
    ensures
        invitation_written_as(*i, rec),
{
    InvitationRecord {
        id: uuid_to_string(i.id),
        event_id: uuid_to_string(i.event_id),
        invited_user_id: optional_id_text(i.invited_user_id),
        invited_contact_id: optional_id_text(i.invited_contact_id),
        invited_email: clone_opt(&i.invited_email),
        invited_name: clone_opt(&i.invited_name),
        inviter_id: uuid_to_string(i.inviter_id),
        invitation_method: invitation_method_to_string(&i.invitation_method),
        personal_message: clone_opt(&i.personal_message),
        status: invitation_status_to_string(&i.status),
        sent_at: i.sent_at,
        opened_at: i.opened_at,
        responded_at: i.responded_at,
        invitation_token: clone_opt(&i.invitation_token),
        expires_at: i.expires_at,
        created_at: i.created_at,
        updated_at: i.updated_at,
    }
}

/// Every invitation method and status is read back from its stored name.
proof fn lemma_invitation_names_stored_as(method: InvitationMethod, status: InvitationStatus)
    ensures
        invitation_method_stored_as(invitation_method_name(method)) == Some(method),
        invitation_status_stored_as(invitation_status_name(status)) == Some(status),
{
    reveal_strlit("email");
    reveal_strlit("sms");
    reveal_strlit("manual");
    reveal_strlit("bulk_import");
    assert("email"@.len() == 5 && "sms"@.len() == 3 && "manual"@.len() == 6 && "bulk_import"@.len() == 11);
    reveal_strlit("pending");
    reveal_strlit("sent");
    reveal_strlit("delivered");
    reveal_strlit("opened");
    reveal_strlit("accepted");
    reveal_strlit("declined");
    reveal_strlit("cancelled");
    assert("pending"@.len() == 7 && "sent"@.len() == 4 && "delivered"@.len() == 9 && "opened"@.len() == 6);
    assert("accepted"@[0] == 'a' && "declined"@[0] == 'd' && "cancelled"@[0] == 'c' && "delivered"@[0] == 'd');
    assert("accepted"@.len() == 8 && "declined"@.len() == 8 && "cancelled"@.len() == 9);
    assert("delivered"@[2] == 'l' && "declined"@[2] == 'c');
}

/// An invitation written by the invitation repository is read back: every
/// column reads, and what is read is that invitation.
pub proof fn law_invitation_write_read_round_trip(
    i: EventInvitation,
    rec: InvitationRecord,
    e: RowConversionError,
    back: EventInvitation,
)
    requires
        invitation_written_as(i, rec),
    ensures
        !invitation_read_failure(invitation_record_columns(rec), e),
        invitation_read_from(back, invitation_record_columns(rec)) ==> back == i,
{
    lemma_invitation_names_stored_as(i.invitation_method, i.status);
}

} // verus!
