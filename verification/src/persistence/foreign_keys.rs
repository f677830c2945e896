//! Telling which reference broke a foreign-key constraint. SQLite reports a
//! foreign-key failure without naming the column; the repositories look up,
//! one after the other, each entity a new row refers to, and the first one
//! that does not exist is reported with a message fit for users.

use vstd::prelude::*;
use crate::domain::errors::{DomainError, DomainErrorView};
use crate::domain::models::{EventInvitation, EventRegistration, User};
use crate::ids::{uuid_text, uuid_to_string};
use crate::text::{concat3, lowercase_of, own, text_eq, to_lowercase};

verus! {

/// Which lookup tells whether a referenced entity exists.
#[derive(Debug, Clone, Copy, PartialEq, Eq, Structural)]
pub enum ReferenceKind {
    /// An active user with that id.
    ActiveUser,
    /// An event with that id.
    Event,
    /// An active category with that id.
    ActiveCategory,
    /// An active company with that id.
    ActiveCompany,
    /// An invitation with that id.
    Invitation,
}

/// A reference that a new row makes: the kind of entity writing it
/// (`"Invitation"`, ...), the column, the kind of entity referred to, and the
/// key looked up (a UUID's text or a category id).
#[derive(Debug, Clone)]
pub struct ForeignKeyReference {
    pub entity: String,
    pub field: String,
    pub kind: ReferenceKind,
    pub key: String,
}

/// The validation error for a broken reference in `field`.
pub open spec fn reference_refused(field: Seq<char>, message: Seq<char>, reference_id: Seq<char>) -> DomainErrorView {
    DomainErrorView::ValidationError {
        field,
        message,
        constraint: Some("FOREIGN KEY"@),
        value: Some(reference_id),
    }
}

/// The error reported when `entity`'s column `field` refers to
/// `reference_id`, which does not exist: each known column has its own
/// message; any other is a business-rule violation naming them.
pub open spec fn foreign_key_error(entity: Seq<char>, field: Seq<char>, reference_id: Seq<char>) -> DomainErrorView {
    if entity == "Event"@ && field == "category_id"@ {
        reference_refused(field, "Category '"@ + reference_id
            + "' does not exist or is inactive. Available categories can be found at GET /api/v1/categories"@,
            reference_id)
    } else if entity == "Event"@ && field == "organizer_id"@ {
        reference_refused(field, "Organizer user '"@ + reference_id
            + "' does not exist or is inactive. Please ensure the user account is created first."@,
            reference_id)
    } else if entity == "User"@ && field == "company_id"@ {
        reference_refused(field, "Company '"@ + reference_id
            + "' does not exist or is inactive. Please create the company first or contact your administrator."@,
            reference_id)
    } else if entity == "Invitation"@ && field == "event_id"@ {
        reference_refused(field, "Event '"@ + reference_id
            + "' does not exist. Please ensure the event is created before sending invitations."@,
            reference_id)
    } else if entity == "Invitation"@ && field == "inviter_id"@ {
        reference_refused(field, "Inviter user '"@ + reference_id
            + "' does not exist or is inactive. Only active users can send invitations."@,
            reference_id)
    } else if entity == "Invitation"@ && field == "invited_user_id"@ {
        reference_refused(field, "Invited user '"@ + reference_id
            + "' does not exist or is inactive. Please ensure the user account exists before sending invitations."@,
            reference_id)
    } else if entity == "Registration"@ && field == "event_id"@ {
        reference_refused(field, "Event '"@ + reference_id
            + "' does not exist. Cannot register for a non-existent event."@, reference_id)
    } else if entity == "Registration"@ && field == "user_id"@ {
        reference_refused(field, "User '"@ + reference_id
            + "' does not exist or is inactive. Only active users can register for events."@, reference_id)
    } else if entity == "Registration"@ && field == "invitation_id"@ {
        reference_refused(field, "Invitation '"@ + reference_id
            + "' does not exist. Cannot link registration to non-existent invitation."@, reference_id)
    } else {
        DomainErrorView::BusinessRuleViolation {
            message: "Foreign key constraint violation: Referenced "@ + lowercase_of(entity) + " '"@
                + reference_id + "' does not exist in field '"@ + field + "'"@,
        }
    }
}

/// What is reported when every reference looked up exists.
pub open spec fn unknown_reference() -> DomainErrorView {
    DomainErrorView::BusinessRuleViolation {
        message: "Foreign key constraint violation: Unknown referenced entity does not exist"@,
    }
}

/// The diagnosis from the `i`-th lookup on: the first reference found
/// missing, or the unknown reference where none is.
pub open spec fn diagnosis_from(refs: Seq<ForeignKeyReference>, found: Seq<bool>, i: int) -> DomainErrorView
    decreases found.len() - i,
{
    if i < 0 || i >= found.len() {
        unknown_reference()
    } else if !found[i] {
        foreign_key_error(refs[i].entity@, refs[i].field@, refs[i].key@)
    } else {
        diagnosis_from(refs, found, i + 1)
    }
}

/// The diagnosis of a foreign-key failure, where `found[i]` tells whether
/// the entity `refs[i]` refers to exists: the first missing one, checked in
/// order.
pub open spec fn diagnosis(refs: Seq<ForeignKeyReference>, found: Seq<bool>) -> DomainErrorView {
    diagnosis_from(refs, found, 0)
}

/// The SQLite repositories' foreign-key diagnosis.
pub struct SqliteForeignKeyDiagnostic;

/// Diagnoses a foreign-key failure from the answers of the lookups.
pub trait ForeignKeyDiagnostic {
    /// The error to report, given the references the row makes and whether
    /// each of the first `found.len()` referred entities exists.
    fn diagnose_foreign_key_violation(&self, refs: &Vec<ForeignKeyReference>, found: &Vec<bool>) -> (r: DomainError)
        requires
            found.len() <= refs.len(),
    ;
}

impl SqliteForeignKeyDiagnostic {
    /// The error for `entity`'s column `field` referring to the missing
    /// `reference_id`.
    pub fn create_user_friendly_foreign_key_error(entity_type: &str, field: &str, reference_id: &str) -> (r: DomainError)
        ensures
            r@ == foreign_key_error(entity_type@, field@, reference_id@),
    {
        if text_eq(entity_type, "Event") && text_eq(field, "category_id") {
            Self::refused(field, "Category '", reference_id,
                "' does not exist or is inactive. Available categories can be found at GET /api/v1/categories")
        } else if text_eq(entity_type, "Event") && text_eq(field, "organizer_id") {
            Self::refused(field, "Organizer user '", reference_id,
                "' does not exist or is inactive. Please ensure the user account is created first.")
        } else if text_eq(entity_type, "User") && text_eq(field, "company_id") {
            Self::refused(field, "Company '", reference_id,
                "' does not exist or is inactive. Please create the company first or contact your administrator.")
        } else if text_eq(entity_type, "Invitation") && text_eq(field, "event_id") {
            Self::refused(field, "Event '", reference_id,
                "' does not exist. Please ensure the event is created before sending invitations.")
        } else if text_eq(entity_type, "Invitation") && text_eq(field, "inviter_id") {
            Self::refused(field, "Inviter user '", reference_id,
                "' does not exist or is inactive. Only active users can send invitations.")
        } else if text_eq(entity_type, "Invitation") && text_eq(field, "invited_user_id") {
            Self::refused(field, "Invited user '", reference_id,
                "' does not exist or is inactive. Please ensure the user account exists before sending invitations.")
        } else if text_eq(entity_type, "Registration") && text_eq(field, "event_id") {
            Self::refused(field, "Event '", reference_id,
                "' does not exist. Cannot register for a non-existent event.")
        } else if text_eq(entity_type, "Registration") && text_eq(field, "user_id") {
            Self::refused(field, "User '", reference_id,
                "' does not exist or is inactive. Only active users can register for events.")
        } else if text_eq(entity_type, "Registration") && text_eq(field, "invitation_id") {
            Self::refused(field, "Invitation '", reference_id,
                "' does not exist. Cannot link registration to non-existent invitation.")
        } else {
            let lowered = to_lowercase(entity_type);
            let mut message = concat3("Foreign key constraint violation: Referenced ", lowered.as_str(), " '");
            message.append(reference_id);
            message.append("' does not exist in field '");
            message.append(field);
            message.append("'");
            DomainError::BusinessRuleViolation { message }
        }
    }

    fn refused(field: &str, before: &str, reference_id: &str, after: &str) -> (r: DomainError)
        ensures
            r@ == reference_refused(field@, before@ + reference_id@ + after@, reference_id@),
    {
        let message = concat3(before, reference_id, after);
        DomainError::validation_constraint(field, message.as_str(), "FOREIGN KEY", Some(reference_id))
    }
}

impl ForeignKeyDiagnostic for SqliteForeignKeyDiagnostic {
    fn diagnose_foreign_key_violation(&self, refs: &Vec<ForeignKeyReference>, found: &Vec<bool>) -> (r: DomainError)
        ensures
            r@ == diagnosis(refs@, found@),
    {
        let mut i: usize = 0;
        while i < found.len()
            invariant
                i <= found.len() <= refs.len(),
                diagnosis(refs@, found@) == diagnosis_from(refs@, found@, i as int),
            decreases found.len() - i,
        {
            if !found[i] {
                let reference = &refs[i];
                return Self::create_user_friendly_foreign_key_error(
                    reference.entity.as_str(),
                    reference.field.as_str(),
                    reference.key.as_str(),
                );
            }
            i = i + 1;
        }
        DomainError::business_rule("Foreign key constraint violation: Unknown referenced entity does not exist")
    }
}

/// A reference of `entity`'s column `field` to the entity of `kind` with id `id`.
fn uuid_reference(entity: &str, field: &str, kind: ReferenceKind, id: u128) -> (r: ForeignKeyReference)
    ensures
        r.entity@ == entity@,
        r.field@ == field@,
        r.kind == kind,
        r.key@ == uuid_text(id),
{
    ForeignKeyReference { entity: own(entity), field: own(field), kind, key: uuid_to_string(id) }
}

/// The reference `entity`'s column `field` makes to the entity of `kind`
/// with id `id`.
pub open spec fn refers(r: ForeignKeyReference, entity: Seq<char>, field: Seq<char>, kind: ReferenceKind, id: u128) -> bool {
    r.entity@ == entity && r.field@ == field && r.kind == kind && r.key@ == uuid_text(id)
}

/// The references a new invitation makes, in the order they are looked up:
/// its event, its inviter (an active user), and the invited user where
/// there is one.
pub fn invitation_references(invitation: &EventInvitation) -> (r: Vec<ForeignKeyReference>)
    ensures
        r.len() == (if invitation.invited_user_id is Some { 3int } else { 2int }),
        refers(r[0], "Invitation"@, "event_id"@, ReferenceKind::Event, invitation.event_id),
        refers(r[1], "Invitation"@, "inviter_id"@, ReferenceKind::ActiveUser, invitation.inviter_id),
        invitation.invited_user_id matches Some(id) ==> refers(
            r[2],
            "Invitation"@,
            "invited_user_id"@,
            ReferenceKind::ActiveUser,
            id,
        ),
{
    let mut refs: Vec<ForeignKeyReference> = Vec::new();
    refs.push(uuid_reference("Invitation", "event_id", ReferenceKind::Event, invitation.event_id));
    refs.push(uuid_reference("Invitation", "inviter_id", ReferenceKind::ActiveUser, invitation.inviter_id));
    if let Some(id) = invitation.invited_user_id {
        refs.push(uuid_reference("Invitation", "invited_user_id", ReferenceKind::ActiveUser, id));
    }
    refs
}

/// The references a new registration makes, in the order they are looked
/// up: its event, its user where there is one, and its invitation where
/// there is one.
pub fn registration_references(registration: &EventRegistration) -> (r: Vec<ForeignKeyReference>)
    ensures
        r.len() == 1 + (if registration.user_id is Some { 1int } else { 0int }) + (
        if registration.invitation_id is Some { 1int } else { 0int }),
        refers(r[0], "Registration"@, "event_id"@, ReferenceKind::Event, registration.event_id),
        registration.user_id matches Some(id) ==> refers(
            r[1],
            "Registration"@,
            "user_id"@,
            ReferenceKind::ActiveUser,
            id,
        ),
        registration.invitation_id matches Some(id) ==> refers(
            r[r.len() - 1],
            "Registration"@,
            "invitation_id"@,
            ReferenceKind::Invitation,
            id,
        ),
{
    let mut refs: Vec<ForeignKeyReference> = Vec::new();
    refs.push(uuid_reference("Registration", "event_id", ReferenceKind::Event, registration.event_id));
    if let Some(id) = registration.user_id {
        refs.push(uuid_reference("Registration", "user_id", ReferenceKind::ActiveUser, id));
    }
    if let Some(id) = registration.invitation_id {
        refs.push(uuid_reference("Registration", "invitation_id", ReferenceKind::Invitation, id));
    }
    refs
}

/// The references a new user makes: its company, where there is one.
pub fn user_references(user: &User) -> (r: Vec<ForeignKeyReference>)
    ensures
        r.len() == (if user.company_id is Some { 1int } else { 0int }),
        user.company_id matches Some(id) ==> refers(
            r[0],
            "User"@,
            "company_id"@,
            ReferenceKind::ActiveCompany,
            id,
        ),
{
    let mut refs: Vec<ForeignKeyReference> = Vec::new();
    if let Some(id) = user.company_id {
        refs.push(uuid_reference("User", "company_id", ReferenceKind::ActiveCompany, id));
    }
    refs
}

/// When every referred entity is found, the failure is reported as an
/// unknown reference.
pub proof fn law_nothing_missing_is_unknown(refs: Seq<ForeignKeyReference>, found: Seq<bool>)
    requires
        forall|i: int| 0 <= i < found.len() ==> #[trigger] found[i],
    ensures
        diagnosis(refs, found) == unknown_reference(),
{
    lemma_found_from(refs, found, 0);
}

proof fn lemma_found_from(refs: Seq<ForeignKeyReference>, found: Seq<bool>, i: int)
    requires
        0 <= i,
        forall|j: int| 0 <= j < found.len() ==> #[trigger] found[j],
    ensures
        diagnosis_from(refs, found, i) == unknown_reference(),
    decreases found.len() - i,
{
    if i < found.len() {
        assert(found[i]);
        lemma_found_from(refs, found, i + 1);
    }
}

/// The first referred entity that is missing is the one reported,
/// whatever the later lookups answer.
pub proof fn law_first_missing_is_reported(refs: Seq<ForeignKeyReference>, found: Seq<bool>, i: int)
    requires
        0 <= i < found.len(),
        !found[i],
        forall|j: int| 0 <= j < i ==> #[trigger] found[j],
    ensures
        diagnosis(refs, found) == foreign_key_error(refs[i].entity@, refs[i].field@, refs[i].key@),
{
    lemma_missing_from(refs, found, 0, i);
}

proof fn lemma_missing_from(refs: Seq<ForeignKeyReference>, found: Seq<bool>, k: int, i: int)
    requires
        0 <= k <= i < found.len(),
        !found[i],
        forall|j: int| 0 <= j < i ==> #[trigger] found[j],
    ensures
        diagnosis_from(refs, found, k) == foreign_key_error(refs[i].entity@, refs[i].field@, refs[i].key@),
    decreases i - k,
{
    if k < i {
        assert(found[k]);
        lemma_missing_from(refs, found, k + 1, i);
    }
}

} // verus!
