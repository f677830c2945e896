//! In-memory repositories that stand in for the database when the
//! application services are tested. Entities are kept by key: those with an
//! id in hash maps, those keyed by text in lists where no key occurs twice.
//! A listing through an index comes in the order the ids were listed. Each
//! can be told to fail, and then every operation reports the same failure
//! and changes nothing.

pub mod keyed;
pub mod index;
pub mod events;
pub mod categories;
pub mod users;
pub mod invitations;
pub mod registrations;

pub use categories::MockEventCategoryRepository;
pub use events::MockEventRepository;
pub use invitations::MockInvitationRepository;
pub use registrations::MockEventRegistrationRepository;
pub use users::MockUserRepository;

use vstd::prelude::*;
use crate::domain::errors::{DomainError, DomainErrorView, DomainResult};

verus! {

/// The failure every operation reports while failing is switched on.
pub open spec fn mock_failure() -> DomainErrorView {
    DomainErrorView::BusinessRuleViolation { message: "Mock failure"@ }
}

/// Succeeds unless `failing`, and then reports the mock failure.
pub fn check_failure(failing: bool) -> (r: DomainResult<()>)
    ensures
        match r {
            Ok(_) => !failing,
            Err(e) => failing && e@ == mock_failure(),
        },
{
    if failing {
        return Err(DomainError::business_rule("Mock failure"));
    }
    Ok(())
}

/// The part of `all` that the page from `offset` holding at most `limit`
/// items shows.
pub open spec fn page_of<T>(all: Seq<T>, offset: int, limit: int) -> Seq<T> {
    if offset < all.len() {
        all.subrange(offset, if offset + limit < all.len() { offset + limit } else { all.len() as int })
    } else {
        Seq::empty()
    }
}

/// What a lookup by key answers.
pub open spec fn lookup<K, V>(m: Map<K, V>, k: K) -> Option<V> {
    if m.contains_key(k) {
        Some(m[k])
    } else {
        None
    }
}

/// An entity stored under a key is what a lookup by that key finds,
/// whatever was stored before.
pub proof fn law_found_after_store<K, V>(m: Map<K, V>, k: K, v: V)
    ensures
        lookup(m.insert(k, v), k) == Some(v),
{
}

/// Storing under one key leaves the lookup by every other key as it was.
pub proof fn law_store_leaves_others<K, V>(m: Map<K, V>, k: K, v: V, other: K)
    requires
        other != k,
    ensures
        lookup(m.insert(k, v), other) == lookup(m, other),
{
}

/// A removed key is found no more, and the other keys are found as before.
pub proof fn law_gone_after_delete<K, V>(m: Map<K, V>, k: K, other: K)
    requires
        other != k,
    ensures
        lookup(m.remove(k), k) is None,
        lookup(m.remove(k), other) == lookup(m, other),
{
}

} // verus!
