//! The in-memory invitation repository: invitations kept by id, and
//! indexes by event, by invited user, by invited address and by token.
//! The indexes are written when an invitation is added or created and are
//! never cleared: a lookup through an index skips ids no longer stored, and
//! an updated invitation stays listed where it was first listed.

use vstd::prelude::*;
use crate::api::mocks::index::IdIndex;
use crate::api::mocks::keyed::{
    distinct_keys, holds_key, keyed, lemma_append, lemma_entry, lemma_listed_push, lemma_present_push,
    lemma_replace, listed_under, present,
};
use crate::api::mocks::{check_failure, lookup, mock_failure};
use crate::clock::{now_millis, LATEST_MILLIS};
use crate::domain::errors::{DomainError, DomainErrorView, DomainResult};
use crate::domain::models::{EventInvitation, InvitationStatus};
use crate::ids::uuid_text;
use crate::text::{clone_opt, text_eq};
use std::collections::HashMap;

verus! {

broadcast use vstd::std_specs::hash::group_hash_axioms;

/// The key of an entry of an index by text, as text.
pub open spec fn text_key() -> spec_fn((String, u128)) -> Seq<char> {
    |p: (String, u128)| p.0@
}

/// The listed id of an entry of an index by text.
pub open spec fn text_listed() -> spec_fn((String, u128)) -> u128 {
    |p: (String, u128)| p.1
}

/// Entries of the token index are seen as they are.
pub open spec fn token_as_stored() -> spec_fn((String, u128)) -> (String, u128) {
    |p: (String, u128)| p
}

/// A copy of an invitation.
pub fn copy_invitation(i: &EventInvitation) -> (r: EventInvitation)
    ensures
        r == *i,
{
    EventInvitation {
        id: i.id,
        event_id: i.event_id,
        invited_user_id: i.invited_user_id,
        invited_contact_id: i.invited_contact_id,
        invited_email: clone_opt(&i.invited_email),
        invited_name: clone_opt(&i.invited_name),
        inviter_id: i.inviter_id,
        invitation_method: i.invitation_method,
        personal_message: clone_opt(&i.personal_message),
        status: i.status,
        sent_at: i.sent_at,
        opened_at: i.opened_at,
        responded_at: i.responded_at,
        invitation_token: clone_opt(&i.invitation_token),
        expires_at: i.expires_at,
        created_at: i.created_at,
        updated_at: i.updated_at,
    }
}

/// The ids an index by text lists under `k`.
fn ids_under_text(index: &Vec<(String, u128)>, k: &str) -> (r: Vec<u128>)
    ensures
        r@ == listed_under(index@, text_key(), text_listed(), k@),
{
    let mut r: Vec<u128> = Vec::new();
    let mut i: usize = 0;
    while i < index.len()
        invariant
            i <= index.len(),
            r@ == listed_under(index@.subrange(0, i as int), text_key(), text_listed(), k@),
        decreases index.len() - i,
    {
        proof {
            assert(index@.subrange(0, i + 1) =~= index@.subrange(0, i as int).push(index@[i as int]));
            lemma_listed_push(index@.subrange(0, i as int), text_key(), text_listed(), index@[i as int], k@);
        }
        if text_eq(index[i].0.as_str(), k) {
            r.push(index[i].1);
        }
        i = i + 1;
    }
    assert(index@.subrange(0, index@.len() as int) =~= index@);
    r
}

/// Some id of `ids` names a stored invitation that `pred` holds of.
pub open spec fn some_invitation(
    ids: Seq<u128>,
    m: Map<u128, EventInvitation>,
    pred: spec_fn(EventInvitation) -> bool,
) -> bool {
    exists|j: int| 0 <= j < ids.len() && m.contains_key(#[trigger] ids[j]) && pred(m[ids[j]])
}

/// Invitations kept in memory in a map by id, with their indexes;
/// `should_fail` makes every operation fail.
pub struct MockInvitationRepository {
    invitations: HashMap<u128, EventInvitation>,
    by_event: IdIndex,
    by_user: IdIndex,
    by_email: Vec<(String, u128)>,
    by_token: Vec<(String, u128)>,
    should_fail: bool,
}

impl MockInvitationRepository {
    /// The stored invitations by id.
    pub closed spec fn invitations(&self) -> Map<u128, EventInvitation> {
        self.invitations@
    }

    /// The ids listed under event `event_id`, in the order they were listed.
    pub closed spec fn listed_for_event(&self, event_id: u128) -> Seq<u128> {
        self.by_event.listed(event_id)
    }

    /// The ids listed under invited user `user_id`.
    pub closed spec fn listed_for_user(&self, user_id: u128) -> Seq<u128> {
        self.by_user.listed(user_id)
    }

    /// The ids listed under invited address `email`.
    pub closed spec fn listed_for_email(&self, email: Seq<char>) -> Seq<u128> {
        listed_under(self.by_email@, text_key(), text_listed(), email)
    }

    /// The token index: the last invitation each token was given to.
    pub closed spec fn tokens(&self) -> Map<Seq<char>, (String, u128)> {
        keyed(self.by_token@, text_key(), token_as_stored())
    }

    /// Whether operations fail.
    pub closed spec fn failing(&self) -> bool {
        self.should_fail
    }

    /// Every invitation is stored under its id, and no token is indexed
    /// twice.
    pub closed spec fn well_formed(&self) -> bool {
        &&& forall|id: u128| #[trigger] self.invitations@.contains_key(id) ==> self.invitations@[id].id == id
        &&& distinct_keys(self.by_token@, text_key())
    }

    /// An empty repository that does not fail.
    pub fn new() -> (r: Self)
        ensures
            r.well_formed(),
            r.invitations() == Map::<u128, EventInvitation>::empty(),
            r.tokens() == Map::<Seq<char>, (String, u128)>::empty(),
            forall|e: u128| #[trigger] r.listed_for_event(e) == Seq::<u128>::empty(),
            forall|u: u128| #[trigger] r.listed_for_user(u) == Seq::<u128>::empty(),
            forall|m: Seq<char>| #[trigger] r.listed_for_email(m) == Seq::<u128>::empty(),
            !r.failing(),
    {
        let r = MockInvitationRepository {
            invitations: HashMap::new(),
            by_event: IdIndex::new(),
            by_user: IdIndex::new(),
            by_email: Vec::new(),
            by_token: Vec::new(),
            should_fail: false,
        };
        assert(r.invitations() =~= Map::<u128, EventInvitation>::empty());
        assert(r.tokens() =~= Map::<Seq<char>, (String, u128)>::empty());
        assert forall|e: u128| #[trigger] r.listed_for_event(e) == Seq::<u128>::empty() by {
            assert(r.listed_for_event(e) =~= Seq::<u128>::empty());
        }
        assert forall|u: u128| #[trigger] r.listed_for_user(u) == Seq::<u128>::empty() by {
            assert(r.listed_for_user(u) =~= Seq::<u128>::empty());
        }
        assert forall|m: Seq<char>| #[trigger] r.listed_for_email(m) == Seq::<u128>::empty() by {
            assert(r.listed_for_email(m) =~= Seq::<u128>::empty());
        }
        r
    }

    /// Makes every later operation fail, or succeed again.
    pub fn set_should_fail(&mut self, v: bool)
        ensures
            final(self).failing() == v,
            final(self).invitations() == old(self).invitations(),
            final(self).tokens() == old(self).tokens(),
            forall|e: u128| #[trigger] final(self).listed_for_event(e) == old(self).listed_for_event(e),
            forall|u: u128| #[trigger] final(self).listed_for_user(u) == old(self).listed_for_user(u),
            forall|m: Seq<char>| #[trigger] final(self).listed_for_email(m) == old(self).listed_for_email(m),
            final(self).well_formed() == old(self).well_formed(),
    {
        self.should_fail = v;
    }

    /// Stores `inv` under its id, replacing any invitation stored under it.
    fn put(&mut self, inv: EventInvitation)
        requires
            old(self).well_formed(),
        ensures
            final(self).well_formed(),
            final(self).invitations() == old(self).invitations().insert(inv.id, inv),
            final(self).by_event == old(self).by_event,
            final(self).by_user == old(self).by_user,
            final(self).by_email@ == old(self).by_email@,
            final(self).by_token@ == old(self).by_token@,
            final(self).failing() == old(self).failing(),
    {
        let ghost before = self.invitations@;
        let id = inv.id;
        let ghost w = inv;
        self.invitations.insert(id, inv);
        assert(self.invitations@ =~= before.insert(w.id, w));
    }

    /// The stored invitation with `id`, if any.
    fn lookup_invitation(&self, id: u128) -> (r: Option<EventInvitation>)
        requires
            self.well_formed(),
        ensures
            r == lookup(self.invitations(), id),
    {
        match self.invitations.get(&id) {
            Some(found) => Some(copy_invitation(found)),
            None => None,
        }
    }

    /// The stored invitations that `ids` name, in order.
    fn present_invitations(&self, ids: &Vec<u128>) -> (r: Vec<EventInvitation>)
        requires
            self.well_formed(),
        ensures
            r@ == present(ids@, self.invitations()),
    {
        let mut r: Vec<EventInvitation> = Vec::new();
        let mut i: usize = 0;
        while i < ids.len()
            invariant
                i <= ids.len(),
                self.well_formed(),
                r@ == present(ids@.subrange(0, i as int), self.invitations()),
            decreases ids.len() - i,
        {
            proof {
                assert(ids@.subrange(0, i + 1) =~= ids@.subrange(0, i as int).push(ids@[i as int]));
                lemma_present_push(ids@.subrange(0, i as int), ids@[i as int], self.invitations());
            }
            match self.lookup_invitation(ids[i]) {
                Some(found) => r.push(found),
                None => {},
            }
            i = i + 1;
        }
        assert(ids@.subrange(0, ids@.len() as int) =~= ids@);
        r
    }

    /// Stores `inv` under its id and lists it in the indexes: under its
    /// event, its invited user and its invited address where it has them,
    /// and its token points at it (test set-up; it never fails).
    pub fn add_invitation(&mut self, inv: EventInvitation)
        requires
            old(self).well_formed(),
        ensures
            final(self).well_formed(),
            final(self).failing() == old(self).failing(),
            final(self).invitations() == old(self).invitations().insert(inv.id, inv),
            final(self).tokens() == match inv.invitation_token {
                Some(t) => old(self).tokens().insert(t@, (t, inv.id)),
                None => old(self).tokens(),
            },
            forall|e: u128| #[trigger]
                final(self).listed_for_event(e) == if e == inv.event_id {
                    old(self).listed_for_event(e).push(inv.id)
                } else {
                    old(self).listed_for_event(e)
                },
            forall|u: u128| #[trigger]
                final(self).listed_for_user(u) == if inv.invited_user_id == Some(u) {
                    old(self).listed_for_user(u).push(inv.id)
                } else {
                    old(self).listed_for_user(u)
                },
            forall|m: Seq<char>| #[trigger]
                final(self).listed_for_email(m) == if opt_text(inv.invited_email) == Some(m) {
                    old(self).listed_for_email(m).push(inv.id)
                } else {
                    old(self).listed_for_email(m)
                },
    {
        let ghost before = *self;
        let ghost id = inv.id;
        let ghost invited_email = inv.invited_email;
        match &inv.invitation_token {
            Some(t) => {
                let entry = (t.clone(), inv.id);
                match self.token_position(t.as_str()) {
                    Some(i) => {
                        proof {
                            lemma_replace(self.by_token@, text_key(), token_as_stored(), i as int, entry);
                        }
                        self.by_token.set(i, entry);
                    },
                    None => {
                        proof {
                            lemma_append(self.by_token@, text_key(), token_as_stored(), entry);
                        }
                        self.by_token.push(entry);
                    },
                }
            },
            None => {},
        }
        self.by_event.append(inv.event_id, inv.id);
        match inv.invited_user_id {
            Some(u) => self.by_user.append(u, inv.id),
            None => {},
        }
        match &inv.invited_email {
            Some(m) => self.by_email.push((m.clone(), inv.id)),
            None => {},
        }
        self.put(inv);
        proof {
            assert forall|m: Seq<char>| #[trigger]
                self.listed_for_email(m) == if opt_text(invited_email) == Some(m) {
                    before.listed_for_email(m).push(id)
                } else {
                    before.listed_for_email(m)
                } by {
                if let Some(address) = invited_email {
                    lemma_listed_push(before.by_email@, text_key(), text_listed(), (address, id), m);
                }
            }
        }
    }

    /// The position of the token index entry for `token`, if there is one.
    fn token_position(&self, token: &str) -> (r: Option<usize>)
        requires
            self.well_formed(),
        ensures
            match r {
                Some(i) => i < self.by_token@.len() && self.by_token@[i as int].0@ == token@,
                None => !holds_key(self.by_token@, text_key(), token@),
            },
    {
        let mut i: usize = 0;
        while i < self.by_token.len()
            invariant
                i <= self.by_token.len(),
                forall|k: int| 0 <= k < i ==> self.by_token@[k].0@ != token@,
            decreases self.by_token.len() - i,
        {
            if text_eq(self.by_token[i].0.as_str(), token) {
                return Some(i);
            }
            i = i + 1;
        }
        None
    }

    /// The stored invitation with `id`, if any.
    pub fn find_by_id(&self, id: u128) -> (r: DomainResult<Option<EventInvitation>>)
        requires
            self.well_formed(),
        ensures
            match r {
                Ok(found) => !self.failing() && found == lookup(self.invitations(), id),
                Err(e) => self.failing() && e@ == mock_failure(),
            },
    {
        check_failure(self.should_fail)?;
        Ok(self.lookup_invitation(id))
    }

    /// The stored invitations listed under event `event_id`.
    pub fn find_by_event_id(&self, event_id: u128) -> (r: DomainResult<Vec<EventInvitation>>)
        requires
            self.well_formed(),
        ensures
            match r {
                Ok(found) => !self.failing() && found@ == present(self.listed_for_event(event_id), self.invitations()),
                Err(e) => self.failing() && e@ == mock_failure(),
            },
    {
        check_failure(self.should_fail)?;
        let ids = self.by_event.ids(event_id);
        Ok(self.present_invitations(&ids))
    }

    /// The stored invitations listed under invited user `user_id`.
    pub fn find_by_user_id(&self, user_id: u128) -> (r: DomainResult<Vec<EventInvitation>>)
        requires
            self.well_formed(),
        ensures
            match r {
                Ok(found) => !self.failing() && found@ == present(self.listed_for_user(user_id), self.invitations()),
                Err(e) => self.failing() && e@ == mock_failure(),
            },
    {
        check_failure(self.should_fail)?;
        let ids = self.by_user.ids(user_id);
        Ok(self.present_invitations(&ids))
    }

    /// The stored invitation `token` points at, if any.
    pub fn find_by_token(&self, token: &str) -> (r: DomainResult<Option<EventInvitation>>)
        requires
            self.well_formed(),
        ensures
            match r {
                Ok(found) => !self.failing() && found == if self.tokens().contains_key(token@) {
                    lookup(self.invitations(), self.tokens()[token@].1)
                } else {
                    None
                },
                Err(e) => self.failing() && e@ == mock_failure(),
            },
    {
        check_failure(self.should_fail)?;
        match self.token_position(token) {
            Some(i) => {
                proof {
                    lemma_entry(self.by_token@, text_key(), i as int);
                }
                Ok(self.lookup_invitation(self.by_token[i].1))
            },
            None => Ok(None),
        }
    }

    /// The stored invitations listed under invited address `email`.
    pub fn find_by_email(&self, email: &str) -> (r: DomainResult<Vec<EventInvitation>>)
        requires
            self.well_formed(),
        ensures
            match r {
                Ok(found) => !self.failing() && found@ == present(self.listed_for_email(email@), self.invitations()),
                Err(e) => self.failing() && e@ == mock_failure(),
            },
    {
        check_failure(self.should_fail)?;
        let ids = ids_under_text(&self.by_email, email);
        Ok(self.present_invitations(&ids))
    }

    /// Adds `invitation` as `add_invitation` does.
    pub fn create(&mut self, invitation: &EventInvitation) -> (r: DomainResult<()>)
        requires
            old(self).well_formed(),
        ensures
            final(self).well_formed(),
            final(self).failing() == old(self).failing(),
            match r {
                Ok(_) => {
                    &&& !old(self).failing()
                    &&& final(self).invitations() == old(self).invitations().insert(invitation.id, *invitation)
                    &&& final(self).tokens() == match invitation.invitation_token {
                        Some(t) => old(self).tokens().insert(t@, (t, invitation.id)),
                        None => old(self).tokens(),
                    }
                    &&& forall|e: u128| #[trigger]
                        final(self).listed_for_event(e) == if e == invitation.event_id {
                            old(self).listed_for_event(e).push(invitation.id)
                        } else {
                            old(self).listed_for_event(e)
                        }
                },
                Err(e) => old(self).failing() && e@ == mock_failure() && final(self).invitations() == old(
                    self,
                ).invitations(),
            },
    {
        check_failure(self.should_fail)?;
        self.add_invitation(copy_invitation(invitation));
        Ok(())
    }

    /// Replaces the stored invitation with `invitation`'s id, leaving the
    /// indexes as they were; an invitation not stored is not found.
    pub fn update(&mut self, invitation: &EventInvitation) -> (r: DomainResult<()>)
        requires
            old(self).well_formed(),
        ensures
            final(self).well_formed(),
            final(self).failing() == old(self).failing(),
            final(self).tokens() == old(self).tokens(),
            forall|e: u128| #[trigger] final(self).listed_for_event(e) == old(self).listed_for_event(e),
            match r {
                Ok(_) => !old(self).failing() && old(self).invitations().contains_key(invitation.id)
                    && final(self).invitations() == old(self).invitations().insert(invitation.id, *invitation),
                Err(e) => final(self).invitations() == old(self).invitations() && if old(self).failing() {
                    e@ == mock_failure()
                } else {
                    !old(self).invitations().contains_key(invitation.id) && e@ == (DomainErrorView::NotFound {
                        entity: "EventInvitation"@,
                        identifier: "id"@,
                        value: uuid_text(invitation.id),
                    })
                },
            },
    {
        check_failure(self.should_fail)?;
        if self.invitations.contains_key(&invitation.id) {
            self.put(copy_invitation(invitation));
            Ok(())
        } else {
            Err(DomainError::not_found("EventInvitation", invitation.id))
        }
    }

    /// Sets the status of the stored invitation with `invitation_id` and
    /// stamps it updated at `now`; an invitation not stored is not found.
    pub fn update_status_at(&mut self, invitation_id: u128, status: InvitationStatus, now: i64) -> (r: DomainResult<
        (),
    >)
        requires
            old(self).well_formed(),
        ensures
            final(self).well_formed(),
            final(self).failing() == old(self).failing(),
            final(self).tokens() == old(self).tokens(),
            forall|e: u128| #[trigger] final(self).listed_for_event(e) == old(self).listed_for_event(e),
            match r {
                Ok(_) => !old(self).failing() && old(self).invitations().contains_key(invitation_id)
                    && final(self).invitations() == old(self).invitations().insert(
                    invitation_id,
                    with_status(old(self).invitations()[invitation_id], status, now),
                ),
                Err(e) => final(self).invitations() == old(self).invitations() && if old(self).failing() {
                    e@ == mock_failure()
                } else {
                    !old(self).invitations().contains_key(invitation_id) && e@ == (DomainErrorView::NotFound {
                        entity: "EventInvitation"@,
                        identifier: "id"@,
                        value: uuid_text(invitation_id),
                    })
                },
            },
    {
        check_failure(self.should_fail)?;
        match self.invitations.get(&invitation_id) {
            Some(found) => {
                let mut changed = copy_invitation(found);
                changed.status = status;
                changed.updated_at = now;
                self.put(changed);
                Ok(())
            },
            None => Err(DomainError::not_found("EventInvitation", invitation_id)),
        }
    }

    /// Sets the status as `update_status_at` does, stamped with the current
    /// time.
    pub fn update_status(&mut self, invitation_id: u128, status: InvitationStatus) -> (r: DomainResult<()>)
        requires
            old(self).well_formed(),
        ensures
            final(self).well_formed(),
            final(self).failing() == old(self).failing(),
            match r {
                Ok(_) => !old(self).failing() && old(self).invitations().contains_key(invitation_id) && exists|
                    now: i64,
                |
                    0 <= now < LATEST_MILLIS && final(self).invitations() == old(self).invitations().insert(
                        invitation_id,
                        #[trigger] with_status(old(self).invitations()[invitation_id], status, now),
                    ),
                Err(e) => final(self).invitations() == old(self).invitations() && (old(self).failing() ==> e@
                    == mock_failure()) && (!old(self).failing() ==> !old(self).invitations().contains_key(
                    invitation_id,
                )),
            },
    {
        let now = now_millis();
        self.update_status_at(invitation_id, status, now)
    }

    /// Removes the invitation with `id`, leaving the indexes as they were;
    /// an invitation not stored is not found.
    pub fn delete(&mut self, id: u128) -> (r: DomainResult<()>)
        requires
            old(self).well_formed(),
        ensures
            final(self).well_formed(),
            final(self).failing() == old(self).failing(),
            final(self).tokens() == old(self).tokens(),
            forall|e: u128| #[trigger] final(self).listed_for_event(e) == old(self).listed_for_event(e),
            match r {
                Ok(_) => {
                    &&& !old(self).failing()
                    &&& old(self).invitations().contains_key(id)
                    &&& final(self).invitations() == old(self).invitations().remove(id)
                },
                Err(e) => final(self).invitations() == old(self).invitations() && if old(self).failing() {
                    e@ == mock_failure()
                } else {
                    !old(self).invitations().contains_key(id) && e@ == (DomainErrorView::NotFound {
                        entity: "EventInvitation"@,
                        identifier: "id"@,
                        value: uuid_text(id),
                    })
                },
            },
    {
        check_failure(self.should_fail)?;
        let ghost before = self.invitations@;
        match self.invitations.remove(&id) {
            Some(_) => {
                assert(self.invitations@ =~= before.remove(id));
                Ok(())
            },
            None => Err(DomainError::not_found("EventInvitation", id)),
        }
    }

    /// Whether an invitation with `id` is stored.
    pub fn contains_invitation(&self, id: u128) -> (r: DomainResult<bool>)
        requires
            self.well_formed(),
        ensures
            match r {
                Ok(b) => !self.failing() && b == self.invitations().contains_key(id),
                Err(e) => self.failing() && e@ == mock_failure(),
            },
    {
        check_failure(self.should_fail)?;
        Ok(self.invitations.contains_key(&id))
    }

    /// Whether an invitation listed under event `event_id` and still stored
    /// invites user `user_id`.
    pub fn user_invited_to_event(&self, user_id: u128, event_id: u128) -> (r: DomainResult<bool>)
        requires
            self.well_formed(),
        ensures
            match r {
                Ok(b) => !self.failing() && b == some_invitation(
                    self.listed_for_event(event_id),
                    self.invitations(),
                    |i: EventInvitation| i.invited_user_id == Some(user_id),
                ),
                Err(e) => self.failing() && e@ == mock_failure(),
            },
    {
        check_failure(self.should_fail)?;
        let ids = self.by_event.ids(event_id);
        let ghost pred = |i: EventInvitation| i.invited_user_id == Some(user_id);
        let mut k: usize = 0;
        while k < ids.len()
            invariant
                k <= ids.len(),
                self.well_formed(),
                !self.should_fail,
                ids@ == self.listed_for_event(event_id),
                pred == (|i: EventInvitation| i.invited_user_id == Some(user_id)),
                !some_invitation(ids@.subrange(0, k as int), self.invitations(), pred),
            decreases ids.len() - k,
        {
            let found = self.lookup_invitation(ids[k]);
            if let Some(inv) = found {
                if inv.invited_user_id == Some(user_id) {
                    proof {
                        assert(ids@ == self.listed_for_event(event_id));
                        assert(self.invitations().contains_key(ids@[k as int]) && pred(
                            self.invitations()[ids@[k as int]],
                        ));
                    }
                    return Ok(true);
                }
            }
            proof {
                assert forall|j: int|
                    0 <= j < k + 1 && self.invitations().contains_key(
                        #[trigger] ids@.subrange(0, k + 1)[j],
                    ) implies !pred(self.invitations()[ids@.subrange(0, k + 1)[j]]) by {
                    if j < k {
                        assert(ids@.subrange(0, k + 1)[j] == ids@.subrange(0, k as int)[j]);
                    }
                }
            }
            k = k + 1;
        }
        assert(ids@.subrange(0, ids@.len() as int) =~= ids@);
        Ok(false)
    }

    /// Whether an invitation listed under event `event_id` and still stored
    /// invites the address `email`.
    pub fn email_invited_to_event(&self, email: &str, event_id: u128) -> (r: DomainResult<bool>)
        requires
            self.well_formed(),
        ensures
            match r {
                Ok(b) => !self.failing() && b == some_invitation(
                    self.listed_for_event(event_id),
                    self.invitations(),
                    |i: EventInvitation| opt_text(i.invited_email) == Some(email@),
                ),
                Err(e) => self.failing() && e@ == mock_failure(),
            },
    {
        check_failure(self.should_fail)?;
        let ids = self.by_event.ids(event_id);
        let ghost pred = |i: EventInvitation| opt_text(i.invited_email) == Some(email@);
        let mut k: usize = 0;
        while k < ids.len()
            invariant
                k <= ids.len(),
                self.well_formed(),
                !self.should_fail,
                ids@ == self.listed_for_event(event_id),
                pred == (|i: EventInvitation| opt_text(i.invited_email) == Some(email@)),
                !some_invitation(ids@.subrange(0, k as int), self.invitations(), pred),
            decreases ids.len() - k,
        {
            let found = self.lookup_invitation(ids[k]);
            if let Some(inv) = found {
                if let Some(address) = &inv.invited_email {
                    if text_eq(address.as_str(), email) {
                        proof {
                            assert(ids@ == self.listed_for_event(event_id));
                            assert(self.invitations().contains_key(ids@[k as int]) && pred(
                                self.invitations()[ids@[k as int]],
                            ));
                        }
                        return Ok(true);
                    }
                }
            }
            proof {
                assert forall|j: int|
                    0 <= j < k + 1 && self.invitations().contains_key(
                        #[trigger] ids@.subrange(0, k + 1)[j],
                    ) implies !pred(self.invitations()[ids@.subrange(0, k + 1)[j]]) by {
                    if j < k {
                        assert(ids@.subrange(0, k + 1)[j] == ids@.subrange(0, k as int)[j]);
                    }
                }
            }
            k = k + 1;
        }
        assert(ids@.subrange(0, ids@.len() as int) =~= ids@);
        Ok(false)
    }
}

/// `i` with status `status`, stamped updated at `now`.
pub open spec fn with_status(i: EventInvitation, status: InvitationStatus, now: i64) -> EventInvitation {
    EventInvitation { status, updated_at: now, ..i }
}

/// An optional text, as text.
pub open spec fn opt_text(o: Option<String>) -> Option<Seq<char>> {
    match o {
        Some(s) => Some(s@),
        None => None,
    }
}

} // verus!
