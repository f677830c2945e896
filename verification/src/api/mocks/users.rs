//! The in-memory user repository: users kept by id, and an index from
//! e-mail address to user id. The index is written when a user is added or
//! created and cleared for a deleted user's current address; an update
//! leaves it as it was.

use vstd::prelude::*;
use vstd::seq_lib::*;
use crate::api::mocks::keyed::{
    distinct_keys, holds_key, keyed, lemma_append, lemma_entry, lemma_replace, lemma_take_out,
};
use crate::api::mocks::{check_failure, lookup, mock_failure, page_of};
use crate::domain::errors::{DomainError, DomainErrorView, DomainResult};
use crate::domain::models::{PaginatedResult, PaginationParams, User};
use crate::text::text_eq;
use std::collections::HashMap;
use vstd::std_specs::iter::IteratorSpec;

verus! {

broadcast use {vstd::seq_lib::group_to_multiset_ensures, vstd::std_specs::hash::group_hash_axioms};

/// An entry of the e-mail index.
pub struct EmailEntry {
    pub email: String,
    pub user_id: u128,
}

/// Users are kept by id.
pub open spec fn user_id() -> spec_fn(User) -> u128 {
    |u: User| u.id
}

/// Users are seen as they are.
pub open spec fn user_as_stored() -> spec_fn(User) -> User {
    |u: User| u
}

/// Index entries are kept by the text of the address.
pub open spec fn entry_email() -> spec_fn(EmailEntry) -> Seq<char> {
    |e: EmailEntry| e.email@
}

/// Index entries are seen as they are.
pub open spec fn entry_as_stored() -> spec_fn(EmailEntry) -> EmailEntry {
    |e: EmailEntry| e
}

/// A copy of a user.
pub fn copy_user(u: &User) -> (r: User)
    ensures
        r == *u,
{
    User {
        id: u.id,
        keycloak_id: u.keycloak_id.clone(),
        email: u.email.clone(),
        name: u.name.clone(),
        company_id: u.company_id,
        role: u.role,
        is_active: u.is_active,
        created_at: u.created_at,
        updated_at: u.updated_at,
    }
}

/// Latest-created first.
pub open spec fn users_newest_first(s: Seq<User>) -> bool {
    forall|i: int, j: int| 0 <= i < j < s.len() ==> s[i].created_at >= s[j].created_at
}

/// Inserts `u` into `sorted` after every user created at the same time or
/// later, so that ties keep their order.
fn insert_user_newest_first(sorted: &mut Vec<User>, u: User)
    requires
        users_newest_first(old(sorted)@),
    ensures
        users_newest_first(final(sorted)@),
        final(sorted)@.to_multiset() == old(sorted)@.to_multiset().insert(u),
{
    let mut p: usize = 0;
    while p < sorted.len() && sorted[p].created_at >= u.created_at
        invariant
            p <= sorted.len(),
            forall|k: int| 0 <= k < p ==> sorted@[k].created_at >= u.created_at,
        decreases sorted.len() - p,
    {
        p = p + 1;
    }
    let ghost before = sorted@;
    let ghost w = u;
    sorted.insert(p, u);
    proof {
        to_multiset_insert(before, p as int, w);
        assert forall|i: int, j: int| 0 <= i < j < sorted@.len() implies sorted@[i].created_at
            >= sorted@[j].created_at by {
            if j < p {
            } else if j == p {
                assert(sorted@[i] == before[i]);
            } else if i < p {
                assert(sorted@[j] == before[j - 1]);
                assert(sorted@[i] == before[i]);
                if j - 1 >= p {
                    assert(before[i].created_at >= before[j - 1].created_at);
                }
            } else if i == p {
                assert(sorted@[j] == before[j - 1]);
                if p < before.len() {
                    assert(before[p as int].created_at < w.created_at);
                    if j - 1 > p {
                        assert(before[p as int].created_at >= before[j - 1].created_at);
                    }
                }
            } else {
                assert(sorted@[j] == before[j - 1]);
                assert(sorted@[i] == before[i - 1]);
            }
        }
    }
}

/// Copies of the users of `s`, latest-created first.
fn users_newest_first_of(s: &Vec<User>) -> (r: Vec<User>)
    ensures
        users_newest_first(r@),
        r@.to_multiset() == s@.to_multiset(),
{
    let mut sorted: Vec<User> = Vec::new();
    let mut i: usize = 0;
    while i < s.len()
        invariant
            i <= s.len(),
            users_newest_first(sorted@),
            sorted@.to_multiset() == s@.subrange(0, i as int).to_multiset(),
        decreases s.len() - i,
    {
        proof {
            assert(s@.subrange(0, i + 1) =~= s@.subrange(0, i as int).push(s@[i as int]));
        }
        insert_user_newest_first(&mut sorted, copy_user(&s[i]));
        i = i + 1;
    }
    assert(s@.subrange(0, s@.len() as int) =~= s@);
    sorted
}

/// The page of `all` from `offset` holding at most `limit` users.
fn user_page(all: &Vec<User>, offset: usize, limit: usize) -> (r: Vec<User>)
    requires
        offset + limit <= usize::MAX,
    ensures
        r@ == page_of(all@, offset as int, limit as int),
{
    let mut page: Vec<User> = Vec::new();
    if offset < all.len() {
        let end: usize = if offset + limit < all.len() {
            offset + limit
        } else {
            all.len()
        };
        let mut i: usize = offset;
        while i < end
            invariant
                offset <= i <= end <= all.len(),
                page@ == all@.subrange(offset as int, i as int),
            decreases end - i,
        {
            page.push(copy_user(&all[i]));
            i = i + 1;
        }
    }
    assert(page@ =~= page_of(all@, offset as int, limit as int));
    page
}

/// `s` lists the users of `m`, each once, in some order.
pub open spec fn is_user_snapshot(s: Seq<User>, m: Map<u128, User>) -> bool {
    distinct_keys(s, user_id()) && keyed(s, user_id(), user_as_stored()) == m
}

/// Users kept in memory in a map by id, with the e-mail index;
/// `should_fail` makes every operation fail.
pub struct MockUserRepository {
    users: HashMap<u128, User>,
    users_by_email: Vec<EmailEntry>,
    should_fail: bool,
}

impl MockUserRepository {
    /// The stored users by id.
    pub closed spec fn users(&self) -> Map<u128, User> {
        self.users@
    }

    /// The e-mail index: the user id each indexed address points to.
    pub closed spec fn emails(&self) -> Map<Seq<char>, EmailEntry> {
        keyed(self.users_by_email@, entry_email(), entry_as_stored())
    }

    /// Whether operations fail.
    pub closed spec fn failing(&self) -> bool {
        self.should_fail
    }

    /// Every user is stored under its id, and no address is indexed twice.
    pub closed spec fn well_formed(&self) -> bool {
        &&& forall|id: u128| #[trigger] self.users@.contains_key(id) ==> self.users@[id].id == id
        &&& distinct_keys(self.users_by_email@, entry_email())
    }

    /// An empty repository that does not fail.
    pub fn new() -> (r: Self)
        ensures
            r.well_formed(),
            r.users() == Map::<u128, User>::empty(),
            r.emails() == Map::<Seq<char>, EmailEntry>::empty(),
            !r.failing(),
    {
        let r = MockUserRepository { users: HashMap::new(), users_by_email: Vec::new(), should_fail: false };
        assert(r.users() =~= Map::<u128, User>::empty());
        assert(r.emails() =~= Map::<Seq<char>, EmailEntry>::empty());
        r
    }

    /// Makes every later operation fail, or succeed again.
    pub fn set_should_fail(&mut self, should_fail: bool)
        ensures
            final(self).failing() == should_fail,
            final(self).users() == old(self).users(),
            final(self).emails() == old(self).emails(),
            final(self).well_formed() == old(self).well_formed(),
    {
        self.should_fail = should_fail;
    }

    /// Copies of the stored users, each once, in the order the map yields
    /// them.
    fn snapshot(&self) -> (r: Vec<User>)
        requires
            self.well_formed(),
        ensures
            is_user_snapshot(r@, self.users()),
    {
        let ghost m = self.users@;
        let mut r: Vec<User> = Vec::new();
        let it0 = self.users.iter();
        let ghost pairs = it0.remaining();
        for pair in it: it0
            invariant
                m == self.users@,
                forall|id: u128| #[trigger] m.contains_key(id) ==> m[id].id == id,
                pairs == it.seq(),
                pairs.no_duplicates(),
                pairs.len() == m.dom().len(),
                forall|i: int| 0 <= i < pairs.len() ==> m.contains_key(*pairs[i].0) && m[*pairs[i].0] == *pairs[i].1,
                forall|k: u128| #[trigger] m.contains_key(k) ==> pairs.contains((&k, &m[k])),
                r.len() == it.index(),
                forall|i: int| 0 <= i < r.len() ==> r@[i] == *pairs[i].1 && r@[i].id == *pairs[i].0,
        {
            let (_, u) = pair;
            r.push(copy_user(u));
        }
        proof {
            assert(r.len() == pairs.len());
            assert forall|a: int, b: int| #![trigger r@[a], r@[b]] 0 <= a < b < r@.len() implies r@[a].id != r@[b].id by {
                if r@[a].id == r@[b].id {
                    assert(pairs[a] == pairs[b]);
                }
            }
            let got = keyed(r@, user_id(), user_as_stored());
            assert forall|k: u128| #[trigger] got.contains_key(k) == m.contains_key(k) by {
                if m.contains_key(k) {
                    let i = pairs.index_of((&k, &m[k]));
                    assert(r@[i].id == k);
                    lemma_entry(r@, user_id(), i);
                }
                if holds_key(r@, user_id(), k) {
                    let i = choose|i: int| #![trigger r@[i]] 0 <= i < r@.len() && r@[i].id == k;
                    assert(m.contains_key(*pairs[i].0));
                }
            }
            assert forall|k: u128| #[trigger] got.contains_key(k) implies got[k] == m[k] by {
                let i = choose|i: int| #![trigger r@[i]] 0 <= i < r@.len() && r@[i].id == k;
                lemma_entry(r@, user_id(), i);
            }
            assert(got =~= m);
        }
        r
    }

    /// The position of the index entry for `email`, if there is one.
    fn email_position(&self, email: &str) -> (r: Option<usize>)
        requires
            self.well_formed(),
        ensures
            match r {
                Some(i) => i < self.users_by_email@.len() && self.users_by_email@[i as int].email@ == email@,
                None => !holds_key(self.users_by_email@, entry_email(), email@),
            },
    {
        let mut i: usize = 0;
        while i < self.users_by_email.len()
            invariant
                i <= self.users_by_email.len(),
                forall|k: int| 0 <= k < i ==> self.users_by_email@[k].email@ != email@,
            decreases self.users_by_email.len() - i,
        {
            if text_eq(self.users_by_email[i].email.as_str(), email) {
                return Some(i);
            }
            i = i + 1;
        }
        None
    }

    /// Points `email` at `user_id` in the index.
    fn index_email(&mut self, email: &String, owner: u128)
        requires
            old(self).well_formed(),
        ensures
            final(self).well_formed(),
            final(self).emails() == old(self).emails().insert(email@, EmailEntry { email: *email, user_id: owner }),
            final(self).users@ == old(self).users@,
            final(self).failing() == old(self).failing(),
    {
        let entry = EmailEntry { email: email.clone(), user_id: owner };
        match self.email_position(email.as_str()) {
            Some(i) => {
                proof {
                    lemma_replace(self.users_by_email@, entry_email(), entry_as_stored(), i as int, entry);
                }
                self.users_by_email.set(i, entry);
            },
            None => {
                proof {
                    lemma_append(self.users_by_email@, entry_email(), entry_as_stored(), entry);
                }
                self.users_by_email.push(entry);
            },
        }
    }

    /// Stores `user` under its id, replacing any user stored under it.
    fn put(&mut self, user: User)
        requires
            old(self).well_formed(),
        ensures
            final(self).well_formed(),
            final(self).users() == old(self).users().insert(user.id, user),
            final(self).users_by_email@ == old(self).users_by_email@,
            final(self).failing() == old(self).failing(),
    {
        let ghost before = self.users@;
        let id = user.id;
        let ghost u = user;
        self.users.insert(id, user);
        assert(self.users@ =~= before.insert(u.id, u));
    }

    /// Stores `user` and points its address at it (test set-up; it never
    /// fails).
    pub fn add_user(&mut self, user: User)
        requires
            old(self).well_formed(),
        ensures
            final(self).well_formed(),
            final(self).users() == old(self).users().insert(user.id, user),
            final(self).emails() == old(self).emails().insert(
                user.email@,
                EmailEntry { email: user.email, user_id: user.id },
            ),
            final(self).failing() == old(self).failing(),
    {
        self.index_email(&user.email, user.id);
        self.put(user);
    }

    /// The user stored with `id`, if any.
    pub fn find_by_id(&self, id: u128) -> (r: DomainResult<Option<User>>)
        requires
            self.well_formed(),
        ensures
            match r {
                Ok(found) => !self.failing() && found == lookup(self.users(), id),
                Err(e) => self.failing() && e@ == mock_failure(),
            },
    {
        check_failure(self.should_fail)?;
        match self.users.get(&id) {
            Some(u) => Ok(Some(copy_user(u))),
            None => Ok(None),
        }
    }

    /// The user the index points `email` at, if the address is indexed and
    /// that user is stored.
    pub fn find_by_email(&self, email: &str) -> (r: DomainResult<Option<User>>)
        requires
            self.well_formed(),
        ensures
            match r {
                Ok(found) => !self.failing() && found == if self.emails().contains_key(email@) {
                    lookup(self.users(), self.emails()[email@].user_id)
                } else {
                    None
                },
                Err(e) => self.failing() && e@ == mock_failure(),
            },
    {
        check_failure(self.should_fail)?;
        match self.email_position(email) {
            Some(i) => {
                proof {
                    lemma_entry(self.users_by_email@, entry_email(), i as int);
                }
                let owner = self.users_by_email[i].user_id;
                match self.users.get(&owner) {
                    Some(u) => Ok(Some(copy_user(u))),
                    None => Ok(None),
                }
            },
            None => Ok(None),
        }
    }

    /// A stored user with `keycloak_id`, if there is one.
    pub fn find_by_keycloak_id(&self, keycloak_id: &str) -> (r: DomainResult<Option<User>>)
        requires
            self.well_formed(),
        ensures
            match r {
                Ok(found) => !self.failing() && match found {
                    Some(u) => self.users().contains_key(u.id) && self.users()[u.id] == u && u.keycloak_id@
                        == keycloak_id@,
                    None => forall|id: u128| #[trigger]
                        self.users().contains_key(id) ==> self.users()[id].keycloak_id@ != keycloak_id@,
                },
                Err(e) => self.failing() && e@ == mock_failure(),
            },
    {
        check_failure(self.should_fail)?;
        let stored = self.snapshot();
        let mut i: usize = 0;
        while i < stored.len()
            invariant
                i <= stored.len(),
                is_user_snapshot(stored@, self.users()),
                !self.should_fail,
                forall|k: int| 0 <= k < i ==> stored@[k].keycloak_id@ != keycloak_id@,
            decreases stored.len() - i,
        {
            if text_eq(stored[i].keycloak_id.as_str(), keycloak_id) {
                proof {
                    lemma_entry(stored@, user_id(), i as int);
                }
                return Ok(Some(copy_user(&stored[i])));
            }
            i = i + 1;
        }
        proof {
            assert forall|id: u128| #[trigger]
                self.users().contains_key(id) implies self.users()[id].keycloak_id@ != keycloak_id@ by {
                let k = choose|k: int| #![trigger stored@[k]] 0 <= k < stored@.len() && stored@[k].id == id;
                lemma_entry(stored@, user_id(), k);
            }
        }
        Ok(None)
    }

    /// Stores `user` and indexes its address, unless the address is already
    /// indexed.
    pub fn create(&mut self, user: &User) -> (r: DomainResult<()>)
        requires
            old(self).well_formed(),
        ensures
            final(self).well_formed(),
            final(self).failing() == old(self).failing(),
            match r {
                Ok(_) => {
                    &&& !old(self).failing()
                    &&& !old(self).emails().contains_key(user.email@)
                    &&& final(self).users() == old(self).users().insert(user.id, *user)
                    &&& final(self).emails() == old(self).emails().insert(
                        user.email@,
                        EmailEntry { email: user.email, user_id: user.id },
                    )
                },
                Err(e) => final(self).users() == old(self).users() && final(self).emails() == old(self).emails() && if old(
                    self,
                ).failing() {
                    e@ == mock_failure()
                } else {
                    old(self).emails().contains_key(user.email@) && e@ == (DomainErrorView::ValidationError {
                        field: "email"@,
                        message: "Email already exists"@,
                        constraint: None,
                        value: None,
                    })
                },
            },
    {
        check_failure(self.should_fail)?;
        if self.email_position(user.email.as_str()).is_some() {
            return Err(DomainError::validation("email", "Email already exists"));
        }
        self.add_user(copy_user(user));
        Ok(())
    }

    /// Replaces the stored user with `user`'s id, leaving the index as it
    /// was; a user not stored is not found.
    pub fn update(&mut self, user: &User) -> (r: DomainResult<()>)
        requires
            old(self).well_formed(),
        ensures
            final(self).well_formed(),
            final(self).failing() == old(self).failing(),
            final(self).emails() == old(self).emails(),
            match r {
                Ok(_) => !old(self).failing() && old(self).users().contains_key(user.id) && final(self).users()
                    == old(self).users().insert(user.id, *user),
                Err(e) => final(self).users() == old(self).users() && if old(self).failing() {
                    e@ == mock_failure()
                } else {
                    !old(self).users().contains_key(user.id) && e@ == (DomainErrorView::NotFound {
                        entity: "User"@,
                        identifier: "id"@,
                        value: crate::ids::uuid_text(user.id),
                    })
                },
            },
    {
        check_failure(self.should_fail)?;
        if self.users.contains_key(&user.id) {
            self.put(copy_user(user));
            Ok(())
        } else {
            Err(DomainError::not_found("User", user.id))
        }
    }

    /// Removes the user with `id` and the index entry of its address; a
    /// user not stored is not found.
    pub fn delete(&mut self, id: u128) -> (r: DomainResult<()>)
        requires
            old(self).well_formed(),
        ensures
            final(self).well_formed(),
            final(self).failing() == old(self).failing(),
            match r {
                Ok(_) => {
                    &&& !old(self).failing()
                    &&& old(self).users().contains_key(id)
                    &&& final(self).users() == old(self).users().remove(id)
                    &&& final(self).emails() == old(self).emails().remove(old(self).users()[id].email@)
                },
                Err(e) => final(self).users() == old(self).users() && final(self).emails() == old(self).emails() && if old(
                    self,
                ).failing() {
                    e@ == mock_failure()
                } else {
                    !old(self).users().contains_key(id) && e@ == (DomainErrorView::NotFound {
                        entity: "User"@,
                        identifier: "id"@,
                        value: crate::ids::uuid_text(id),
                    })
                },
            },
    {
        check_failure(self.should_fail)?;
        let ghost before = self.users@;
        match self.users.remove(&id) {
            Some(removed) => {
                assert(self.users@ =~= before.remove(id));
                match self.email_position(removed.email.as_str()) {
                    Some(j) => {
                        proof {
                            lemma_entry(self.users_by_email@, entry_email(), j as int);
                            lemma_take_out(self.users_by_email@, entry_email(), entry_as_stored(), j as int);
                        }
                        self.users_by_email.remove(j);
                    },
                    None => {
                        proof {
                            assert(self.emails().remove(removed.email@) =~= self.emails());
                        }
                    },
                }
                Ok(())
            },
            None => Err(DomainError::not_found("User", id)),
        }
    }

    /// The page from `pagination.offset` of the stored users, latest-created
    /// first; the total counts every user.
    pub fn list_all(&self, pagination: PaginationParams) -> (r: DomainResult<PaginatedResult<User>>)
        requires
            self.well_formed(),
            i64::MIN <= pagination.offset + pagination.limit <= i64::MAX,
            (pagination.offset as usize) + (pagination.limit as usize) <= usize::MAX,
        ensures
            match r {
                Ok(page) => !self.failing() && exists|s: Seq<User>, all: Seq<User>|
                    {
                        &&& #[trigger] is_user_snapshot(s, self.users())
                        &&& users_newest_first(all)
                        &&& all.to_multiset() == s.to_multiset()
                        &&& page.items@ == #[trigger] page_of(all, pagination.offset as usize as int, pagination.limit as usize as int)
                        &&& page.total_count == all.len() as i64
                    } && page.offset == pagination.offset && page.limit == pagination.limit && page.has_next == (
                pagination.offset + pagination.limit < page.total_count),
                Err(e) => self.failing() && e@ == mock_failure(),
            },
    {
        check_failure(self.should_fail)?;
        let stored = self.snapshot();
        let all = users_newest_first_of(&stored);
        let total_count = all.len() as i64;
        let items = user_page(&all, pagination.offset as usize, pagination.limit as usize);
        let page = PaginatedResult::new(items, total_count, pagination);
        proof {
            assert(page.items@ == page_of(all@, pagination.offset as usize as int, pagination.limit as usize as int));
            assert(is_user_snapshot(stored@, self.users()));
        }
        Ok(page)
    }

    /// Whether a user with `id` is stored.
    pub fn contains_user(&self, id: u128) -> (r: DomainResult<bool>)
        requires
            self.well_formed(),
        ensures
            match r {
                Ok(b) => !self.failing() && b == self.users().contains_key(id),
                Err(e) => self.failing() && e@ == mock_failure(),
            },
    {
        check_failure(self.should_fail)?;
        Ok(self.users.contains_key(&id))
    }

    /// Whether the address `email` is indexed.
    pub fn email_exists(&self, email: &str) -> (r: DomainResult<bool>)
        requires
            self.well_formed(),
        ensures
            match r {
                Ok(b) => !self.failing() && b == self.emails().contains_key(email@),
                Err(e) => self.failing() && e@ == mock_failure(),
            },
    {
        check_failure(self.should_fail)?;
        Ok(self.email_position(email).is_some())
    }
}

} // verus!
