//! The in-memory registration repository: registrations kept by id, and
//! indexes by event and by user. The indexes are written when a
//! registration is added or created and are never cleared: a lookup through
//! an index skips ids no longer stored, and an updated registration stays
//! listed where it was first listed.

use vstd::prelude::*;
use crate::api::mocks::index::IdIndex;
use crate::api::mocks::keyed::{
    distinct_keys, holds_key, keyed, lemma_entry, lemma_present_push, present,
};
use crate::api::mocks::{check_failure, lookup, mock_failure};
use crate::domain::errors::{DomainError, DomainErrorView, DomainResult};
use crate::domain::models::EventRegistration;
use crate::ids::uuid_text;
use crate::text::{clone_opt, clone_strings};
use std::collections::HashMap;
use vstd::std_specs::iter::IteratorSpec;

verus! {

broadcast use vstd::std_specs::hash::group_hash_axioms;

/// A registration up to the identity of its guest list: every field as it
/// is, the guest names by their contents.
pub open spec fn registration_image(r: EventRegistration) -> EventRegistration {
    EventRegistration { guest_names: holding_names(r.guest_names@), ..r }
}

/// A list of names holding exactly `s`.
pub open spec fn holding_names(s: Seq<String>) -> Vec<String> {
    choose|v: Vec<String>| v@ == s
}

/// The images of a sequence of registrations, in order.
pub open spec fn registration_images(s: Seq<EventRegistration>) -> Seq<EventRegistration> {
    s.map_values(|r: EventRegistration| registration_image(r))
}

/// The image of a registration that may be absent.
pub open spec fn registration_image_opt(o: Option<EventRegistration>) -> Option<EventRegistration> {
    match o {
        Some(r) => Some(registration_image(r)),
        None => None,
    }
}

/// Registrations are kept by id.
pub open spec fn registration_key() -> spec_fn(EventRegistration) -> u128 {
    |r: EventRegistration| r.id
}

/// Registrations are seen up to the identity of their guest lists.
pub open spec fn as_registration_image() -> spec_fn(EventRegistration) -> EventRegistration {
    |r: EventRegistration| registration_image(r)
}

/// A copy of a registration.
pub fn copy_registration(r: &EventRegistration) -> (c: EventRegistration)
    ensures
        registration_image(c) == registration_image(*r),
{
    EventRegistration {
        id: r.id,
        event_id: r.event_id,
        invitation_id: r.invitation_id,
        user_id: r.user_id,
        external_contact_id: r.external_contact_id,
        registrant_email: clone_opt(&r.registrant_email),
        registrant_name: clone_opt(&r.registrant_name),
        registrant_phone: clone_opt(&r.registrant_phone),
        registrant_company: clone_opt(&r.registrant_company),
        status: r.status,
        registration_source: r.registration_source,
        guest_count: r.guest_count,
        guest_names: clone_strings(&r.guest_names),
        dietary_restrictions: clone_opt(&r.dietary_restrictions),
        accessibility_needs: clone_opt(&r.accessibility_needs),
        special_requests: clone_opt(&r.special_requests),
        custom_responses: clone_opt(&r.custom_responses),
        registered_at: r.registered_at,
        cancelled_at: r.cancelled_at,
        checked_in_at: r.checked_in_at,
        waitlist_position: r.waitlist_position,
        waitlist_added_at: r.waitlist_added_at,
        created_at: r.created_at,
        updated_at: r.updated_at,
    }
}

/// A registration for event `event_id` by user `user_id`.
pub open spec fn registered_by(r: EventRegistration, event_id: u128, user_id: u128) -> bool {
    r.event_id == event_id && r.user_id == Some(user_id)
}

/// `s` lists the registrations of `m`, each once, in some order.
pub open spec fn is_registration_snapshot(s: Seq<EventRegistration>, m: Map<u128, EventRegistration>) -> bool {
    distinct_keys(s, registration_key()) && keyed(s, registration_key(), as_registration_image()) == m
}

/// Registrations kept in memory in a map by id, with their indexes;
/// `should_fail` makes every operation fail.
pub struct MockEventRegistrationRepository {
    registrations: HashMap<u128, EventRegistration>,
    by_event: IdIndex,
    by_user: IdIndex,
    should_fail: bool,
}

impl MockEventRegistrationRepository {
    /// The stored registrations by id.
    pub closed spec fn registrations(&self) -> Map<u128, EventRegistration> {
        Map::new(
            |id: u128| self.registrations@.contains_key(id),
            |id: u128| registration_image(self.registrations@[id]),
        )
    }

    /// The ids listed under event `event_id`, in the order they were listed.
    pub closed spec fn listed_for_event(&self, event_id: u128) -> Seq<u128> {
        self.by_event.listed(event_id)
    }

    /// The ids listed under user `user_id`.
    pub closed spec fn listed_for_user(&self, user_id: u128) -> Seq<u128> {
        self.by_user.listed(user_id)
    }

    /// Whether operations fail.
    pub closed spec fn failing(&self) -> bool {
        self.should_fail
    }

    /// Every registration is stored under its id.
    pub closed spec fn well_formed(&self) -> bool {
        forall|id: u128| #[trigger] self.registrations@.contains_key(id) ==> self.registrations@[id].id == id
    }

    /// An empty repository that does not fail.
    pub fn new() -> (r: Self)
        ensures
            r.well_formed(),
            r.registrations() == Map::<u128, EventRegistration>::empty(),
            forall|e: u128| #[trigger] r.listed_for_event(e) == Seq::<u128>::empty(),
            forall|u: u128| #[trigger] r.listed_for_user(u) == Seq::<u128>::empty(),
            !r.failing(),
    {
        let r = MockEventRegistrationRepository {
            registrations: HashMap::new(),
            by_event: IdIndex::new(),
            by_user: IdIndex::new(),
            should_fail: false,
        };
        assert(r.registrations() =~= Map::<u128, EventRegistration>::empty());
        assert forall|e: u128| #[trigger] r.listed_for_event(e) == Seq::<u128>::empty() by {
            assert(r.listed_for_event(e) =~= Seq::<u128>::empty());
        }
        assert forall|u: u128| #[trigger] r.listed_for_user(u) == Seq::<u128>::empty() by {
            assert(r.listed_for_user(u) =~= Seq::<u128>::empty());
        }
        r
    }

    /// Makes every later operation fail, or succeed again.
    pub fn set_should_fail(&mut self, should_fail: bool)
        ensures
            final(self).failing() == should_fail,
            final(self).registrations() == old(self).registrations(),
            forall|e: u128| #[trigger] final(self).listed_for_event(e) == old(self).listed_for_event(e),
            forall|u: u128| #[trigger] final(self).listed_for_user(u) == old(self).listed_for_user(u),
            final(self).well_formed() == old(self).well_formed(),
    {
        self.should_fail = should_fail;
    }

    /// Stores `registration` under its id, replacing any registration
    /// stored under it.
    fn put(&mut self, registration: EventRegistration)
        requires
            old(self).well_formed(),
        ensures
            final(self).well_formed(),
            final(self).registrations() == old(self).registrations().insert(
                registration.id,
                registration_image(registration),
            ),
            final(self).by_event == old(self).by_event,
            final(self).by_user == old(self).by_user,
            final(self).failing() == old(self).failing(),
    {
        let ghost before = self.registrations();
        let id = registration.id;
        let ghost w = registration;
        self.registrations.insert(id, registration);
        assert(self.registrations() =~= before.insert(w.id, registration_image(w)));
    }

    /// Copies of the stored registrations, each once, in the order the map
    /// yields them.
    fn snapshot(&self) -> (r: Vec<EventRegistration>)
        requires
            self.well_formed(),
        ensures
            is_registration_snapshot(r@, self.registrations()),
    {
        let ghost m = self.registrations@;
        let mut r: Vec<EventRegistration> = Vec::new();
        let it0 = self.registrations.iter();
        let ghost pairs = it0.remaining();
        for pair in it: it0
            invariant
                m == self.registrations@,
                forall|id: u128| #[trigger] m.contains_key(id) ==> m[id].id == id,
                pairs == it.seq(),
                pairs.no_duplicates(),
                pairs.len() == m.dom().len(),
                forall|i: int| 0 <= i < pairs.len() ==> m.contains_key(*pairs[i].0) && m[*pairs[i].0] == *pairs[i].1,
                forall|k: u128| #[trigger] m.contains_key(k) ==> pairs.contains((&k, &m[k])),
                r.len() == it.index(),
                forall|i: int| 0 <= i < r.len() ==> r@[i].id == *pairs[i].0 && registration_image(r@[i])
                    == registration_image(*pairs[i].1),
        {
            let (_, g) = pair;
            r.push(copy_registration(g));
        }
        proof {
            assert(r.len() == pairs.len());
            assert forall|a: int, b: int| #![trigger r@[a], r@[b]] 0 <= a < b < r@.len() implies r@[a].id != r@[b].id by {
                if r@[a].id == r@[b].id {
                    assert(*pairs[a].1 == m[*pairs[a].0]);
                    assert(*pairs[b].1 == m[*pairs[b].0]);
                    assert(pairs[a] == pairs[b]);
                }
            }
            let got = keyed(r@, registration_key(), as_registration_image());
            assert forall|k: u128| #[trigger] got.contains_key(k) == self.registrations().contains_key(k) by {
                if m.contains_key(k) {
                    let i = pairs.index_of((&k, &m[k]));
                    assert(r@[i].id == k);
                    lemma_entry(r@, registration_key(), i);
                }
                if holds_key(r@, registration_key(), k) {
                    let i = choose|i: int| #![trigger r@[i]] 0 <= i < r@.len() && r@[i].id == k;
                    assert(m.contains_key(*pairs[i].0));
                }
            }
            assert forall|k: u128| #[trigger] got.contains_key(k) implies got[k] == self.registrations()[k] by {
                let i = choose|i: int| #![trigger r@[i]] 0 <= i < r@.len() && r@[i].id == k;
                lemma_entry(r@, registration_key(), i);
            }
            assert(got =~= self.registrations());
        }
        r
    }

    /// The stored registration with `id`, if any.
    fn lookup_registration(&self, id: u128) -> (r: Option<EventRegistration>)
        requires
            self.well_formed(),
        ensures
            registration_image_opt(r) == lookup(self.registrations(), id),
    {
        match self.registrations.get(&id) {
            Some(found) => Some(copy_registration(found)),
            None => None,
        }
    }

    /// The stored registrations that `ids` name, in order.
    fn present_registrations(&self, ids: &Vec<u128>) -> (r: Vec<EventRegistration>)
        requires
            self.well_formed(),
        ensures
            registration_images(r@) == present(ids@, self.registrations()),
    {
        let mut r: Vec<EventRegistration> = Vec::new();
        let mut i: usize = 0;
        while i < ids.len()
            invariant
                i <= ids.len(),
                self.well_formed(),
                registration_images(r@) == present(ids@.subrange(0, i as int), self.registrations()),
            decreases ids.len() - i,
        {
            proof {
                assert(ids@.subrange(0, i + 1) =~= ids@.subrange(0, i as int).push(ids@[i as int]));
                lemma_present_push(ids@.subrange(0, i as int), ids@[i as int], self.registrations());
            }
            match self.lookup_registration(ids[i]) {
                Some(found) => {
                    proof {
                        assert(registration_images(r@.push(found)) =~= registration_images(r@).push(
                            registration_image(found),
                        ));
                    }
                    r.push(found);
                },
                None => {},
            }
            i = i + 1;
        }
        assert(ids@.subrange(0, ids@.len() as int) =~= ids@);
        r
    }

    /// Stores `registration` under its id and lists it under its event and,
    /// where it has one, its user (test set-up; it never fails).
    pub fn add_registration(&mut self, registration: EventRegistration)
        requires
            old(self).well_formed(),
        ensures
            final(self).well_formed(),
            final(self).failing() == old(self).failing(),
            final(self).registrations() == old(self).registrations().insert(
                registration.id,
                registration_image(registration),
            ),
            forall|e: u128| #[trigger]
                final(self).listed_for_event(e) == if e == registration.event_id {
                    old(self).listed_for_event(e).push(registration.id)
                } else {
                    old(self).listed_for_event(e)
                },
            forall|u: u128| #[trigger]
                final(self).listed_for_user(u) == if registration.user_id == Some(u) {
                    old(self).listed_for_user(u).push(registration.id)
                } else {
                    old(self).listed_for_user(u)
                },
    {
        self.by_event.append(registration.event_id, registration.id);
        match registration.user_id {
            Some(u) => self.by_user.append(u, registration.id),
            None => {},
        }
        self.put(registration);
    }

    /// The stored registration with `id`, if any.
    pub fn find_by_id(&self, id: u128) -> (r: DomainResult<Option<EventRegistration>>)
        requires
            self.well_formed(),
        ensures
            match r {
                Ok(found) => !self.failing() && registration_image_opt(found) == lookup(self.registrations(), id),
                Err(e) => self.failing() && e@ == mock_failure(),
            },
    {
        check_failure(self.should_fail)?;
        Ok(self.lookup_registration(id))
    }

    /// The stored registrations listed under event `event_id`.
    pub fn find_by_event_id(&self, event_id: u128) -> (r: DomainResult<Vec<EventRegistration>>)
        requires
            self.well_formed(),
        ensures
            match r {
                Ok(found) => !self.failing() && registration_images(found@) == present(
                    self.listed_for_event(event_id),
                    self.registrations(),
                ),
                Err(e) => self.failing() && e@ == mock_failure(),
            },
    {
        check_failure(self.should_fail)?;
        let ids = self.by_event.ids(event_id);
        Ok(self.present_registrations(&ids))
    }

    /// The stored registrations listed under user `user_id`.
    pub fn find_by_user_id(&self, user_id: u128) -> (r: DomainResult<Vec<EventRegistration>>)
        requires
            self.well_formed(),
        ensures
            match r {
                Ok(found) => !self.failing() && registration_images(found@) == present(
                    self.listed_for_user(user_id),
                    self.registrations(),
                ),
                Err(e) => self.failing() && e@ == mock_failure(),
            },
    {
        check_failure(self.should_fail)?;
        let ids = self.by_user.ids(user_id);
        Ok(self.present_registrations(&ids))
    }

    /// A stored registration for event `event_id` by user `user_id`, if
    /// there is one.
    pub fn find_by_event_and_user(&self, event_id: u128, user_id: u128) -> (r: DomainResult<
        Option<EventRegistration>,
    >)
        requires
            self.well_formed(),
        ensures
            match r {
                Ok(found) => !self.failing() && match found {
                    Some(g) => self.registrations().contains_key(g.id) && self.registrations()[g.id]
                        == registration_image(g) && registered_by(g, event_id, user_id),
                    None => forall|id: u128| #[trigger]
                        self.registrations().contains_key(id) ==> !registered_by(
                            self.registrations()[id],
                            event_id,
                            user_id,
                        ),
                },
                Err(e) => self.failing() && e@ == mock_failure(),
            },
    {
        check_failure(self.should_fail)?;
        let stored = self.snapshot();
        let mut i: usize = 0;
        while i < stored.len()
            invariant
                i <= stored.len(),
                is_registration_snapshot(stored@, self.registrations()),
                !self.should_fail,
                forall|k: int| 0 <= k < i ==> !registered_by(#[trigger] stored@[k], event_id, user_id),
            decreases stored.len() - i,
        {
            if stored[i].event_id == event_id && stored[i].user_id == Some(user_id) {
                proof {
                    lemma_entry(stored@, registration_key(), i as int);
                }
                let c = copy_registration(&stored[i]);
                return Ok(Some(c));
            }
            i = i + 1;
        }
        proof {
            assert forall|id: u128| #[trigger] self.registrations().contains_key(id) implies !registered_by(
                self.registrations()[id],
                event_id,
                user_id,
            ) by {
                let k = choose|k: int| #![trigger stored@[k]] 0 <= k < stored@.len() && stored@[k].id == id;
                lemma_entry(stored@, registration_key(), k);
                assert(!registered_by(stored@[k], event_id, user_id));
            }
        }
        Ok(None)
    }

    /// Adds `registration` as `add_registration` does.
    pub fn create(&mut self, registration: &EventRegistration) -> (r: DomainResult<()>)
        requires
            old(self).well_formed(),
        ensures
            final(self).well_formed(),
            final(self).failing() == old(self).failing(),
            match r {
                Ok(_) => {
                    &&& !old(self).failing()
                    &&& final(self).registrations() == old(self).registrations().insert(
                        registration.id,
                        registration_image(*registration),
                    )
                    &&& forall|e: u128| #[trigger]
                        final(self).listed_for_event(e) == if e == registration.event_id {
                            old(self).listed_for_event(e).push(registration.id)
                        } else {
                            old(self).listed_for_event(e)
                        }
                    &&& forall|u: u128| #[trigger]
                        final(self).listed_for_user(u) == if registration.user_id == Some(u) {
                            old(self).listed_for_user(u).push(registration.id)
                        } else {
                            old(self).listed_for_user(u)
                        }
                },
                Err(e) => old(self).failing() && e@ == mock_failure() && final(self).registrations() == old(
                    self,
                ).registrations(),
            },
    {
        check_failure(self.should_fail)?;
        self.add_registration(copy_registration(registration));
        Ok(())
    }

    /// Replaces the stored registration with `registration`'s id, leaving the
    /// indexes as they were; a registration not stored is not found.
    pub fn update(&mut self, registration: &EventRegistration) -> (r: DomainResult<()>)
        requires
            old(self).well_formed(),
        ensures
            final(self).well_formed(),
            final(self).failing() == old(self).failing(),
            forall|e: u128| #[trigger] final(self).listed_for_event(e) == old(self).listed_for_event(e),
            forall|u: u128| #[trigger] final(self).listed_for_user(u) == old(self).listed_for_user(u),
            match r {
                Ok(_) => {
                    &&& !old(self).failing()
                    &&& old(self).registrations().contains_key(registration.id)
                    &&& final(self).registrations() == old(self).registrations().insert(
                        registration.id,
                        registration_image(*registration),
                    )
                },
                Err(e) => final(self).registrations() == old(self).registrations() && if old(self).failing() {
                    e@ == mock_failure()
                } else {
                    !old(self).registrations().contains_key(registration.id) && e@ == (DomainErrorView::NotFound {
                        entity: "EventRegistration"@,
                        identifier: "id"@,
                        value: uuid_text(registration.id),
                    })
                },
            },
    {
        check_failure(self.should_fail)?;
        if self.registrations.contains_key(&registration.id) {
            self.put(copy_registration(registration));
            Ok(())
        } else {
            Err(DomainError::not_found("EventRegistration", registration.id))
        }
    }

    /// Removes the registration with `id`, leaving the indexes as they were;
    /// a registration not stored is not found.
    pub fn delete(&mut self, id: u128) -> (r: DomainResult<()>)
        requires
            old(self).well_formed(),
        ensures
            final(self).well_formed(),
            final(self).failing() == old(self).failing(),
            forall|e: u128| #[trigger] final(self).listed_for_event(e) == old(self).listed_for_event(e),
            forall|u: u128| #[trigger] final(self).listed_for_user(u) == old(self).listed_for_user(u),
            match r {
                Ok(_) => {
                    &&& !old(self).failing()
                    &&& old(self).registrations().contains_key(id)
                    &&& final(self).registrations() == old(self).registrations().remove(id)
                },
                Err(e) => final(self).registrations() == old(self).registrations() && if old(self).failing() {
                    e@ == mock_failure()
                } else {
                    !old(self).registrations().contains_key(id) && e@ == (DomainErrorView::NotFound {
                        entity: "EventRegistration"@,
                        identifier: "id"@,
                        value: uuid_text(id),
                    })
                },
            },
    {
        check_failure(self.should_fail)?;
        let ghost before = self.registrations();
        match self.registrations.remove(&id) {
            Some(_) => {
                assert(self.registrations() =~= before.remove(id));
                Ok(())
            },
            None => Err(DomainError::not_found("EventRegistration", id)),
        }
    }
}

} // verus!
