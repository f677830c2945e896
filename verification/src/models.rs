//! The first-generation models, still stored by the legacy repositories.
//! Ids are UUID values and instants milliseconds since the epoch (UTC).

use vstd::prelude::*;

verus! {

#[derive(Debug, Clone)]
pub struct User {
    pub id: u128,
    pub keycloak_id: String,
    pub email: String,
    pub name: String,
    pub company_id: Option<u128>,
    pub created_at: i64,
    pub updated_at: i64,
}

#[derive(Debug, Clone)]
pub struct Company {
    pub id: u128,
    pub name: String,
    pub org_number: Option<String>,
    pub location: Option<String>,
    pub industry_type: AquacultureType,
    pub created_at: i64,
    pub updated_at: i64,
}

#[derive(Debug, Clone, PartialEq)]
pub enum AquacultureType {
    Salmon,
    Trout,
    Other(String),
}

#[derive(Debug, Clone)]
pub struct Event {
    pub id: u128,
    pub title: String,
    pub description: String,
    pub event_type: EventType,
    pub start_date: i64,
    pub end_date: i64,
    pub location: String,
    pub organizer_id: u128,
    pub max_attendees: Option<i32>,
    pub registration_deadline: Option<i64>,
    pub is_private: bool,
    pub created_at: i64,
    pub updated_at: i64,
}

#[derive(Debug, Clone, PartialEq)]
pub enum EventType {
    Conference,
    Workshop,
    Networking,
    Training,
    Personal,
    Other(String),
}

#[derive(Debug, Clone)]
pub struct EventInvitation {
    pub id: u128,
    pub event_id: u128,
    pub invited_user_id: Option<u128>,
    pub invited_email: Option<String>,
    pub invited_name: Option<String>,
    pub inviter_id: u128,
    pub status: InvitationStatus,
    pub invitation_message: Option<String>,
    pub invited_at: i64,
    pub responded_at: Option<i64>,
}

#[derive(Debug, Clone, Copy, PartialEq, Eq, Structural)]
pub enum InvitationStatus {
    Pending,
    Accepted,
    Declined,
}

#[derive(Debug, Clone)]
pub struct CreateInvitationRequest {
    pub event_id: u128,
    pub invited_user_id: Option<u128>,
    pub invited_email: Option<String>,
    pub invited_name: Option<String>,
    pub invitation_message: Option<String>,
}

#[derive(Debug, Clone)]
pub struct RespondToInvitationRequest {
    pub invitation_id: u128,
    pub status: InvitationStatus,
}

} // verus!
