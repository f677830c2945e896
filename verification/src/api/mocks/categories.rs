//! The in-memory category repository: categories kept by id.

use vstd::prelude::*;
use crate::api::mocks::keyed::{
    distinct_keys, holds_key, keyed, lemma_append, lemma_entry, lemma_replace, lemma_take_out,
};
use crate::api::mocks::{check_failure, lookup, mock_failure};
use crate::domain::errors::{DomainError, DomainErrorView, DomainResult};
use crate::domain::models::EventCategory;
use crate::text::{clone_opt, text_eq};

verus! {

/// Categories are kept by the text of their id.
pub open spec fn category_id() -> spec_fn(EventCategory) -> Seq<char> {
    |c: EventCategory| c.id@
}

/// Categories are seen as they are.
pub open spec fn as_stored() -> spec_fn(EventCategory) -> EventCategory {
    |c: EventCategory| c
}

/// The stored categories by id.
pub open spec fn categories_by_id(s: Seq<EventCategory>) -> Map<Seq<char>, EventCategory> {
    keyed(s, category_id(), as_stored())
}

/// A copy of a category.
pub fn copy_category(c: &EventCategory) -> (r: EventCategory)
    ensures
        r == *c,
{
    EventCategory {
        id: c.id.clone(),
        name: c.name.clone(),
        description: clone_opt(&c.description),
        color_hex: clone_opt(&c.color_hex),
        icon_name: clone_opt(&c.icon_name),
        is_active: c.is_active,
        created_at: c.created_at,
    }
}

/// Copies of the categories of `s` that `active_only` lets through: the
/// active ones, or all of them.
fn copy_categories(s: &Vec<EventCategory>, active_only: bool) -> (r: Vec<EventCategory>)
    ensures
        r@ == if active_only {
            s@.filter(|c: EventCategory| c.is_active)
        } else {
            s@
        },
{
    let ghost keep = |c: EventCategory| !active_only || c.is_active;
    let mut r: Vec<EventCategory> = Vec::new();
    let mut i: usize = 0;
    while i < s.len()
        invariant
            i <= s.len(),
            keep == (|c: EventCategory| !active_only || c.is_active),
            r@ == s@.subrange(0, i as int).filter(keep),
        decreases s.len() - i,
    {
        proof {
            assert(s@.subrange(0, i + 1) =~= s@.subrange(0, i as int).push(s@[i as int]));
            s@.subrange(0, i as int).lemma_filter_push(s@[i as int], keep);
        }
        if !active_only || s[i].is_active {
            r.push(copy_category(&s[i]));
        }
        i = i + 1;
    }
    proof {
        assert(s@.subrange(0, s@.len() as int) =~= s@);
        if active_only {
            assert(keep =~= (|c: EventCategory| c.is_active));
        } else {
            assert(keep =~= (|c: EventCategory| true));
            lemma_keep_all(s@);
        }
    }
    r
}

/// Keeping every category keeps the sequence.
proof fn lemma_keep_all(s: Seq<EventCategory>)
    ensures
        s.filter(|c: EventCategory| true) == s,
    decreases s.len(),
{
    if s.len() > 0 {
        lemma_keep_all(s.drop_last());
        assert(s.drop_last().push(s.last()) =~= s);
        s.drop_last().lemma_filter_push(s.last(), |c: EventCategory| true);
    }
}

/// Categories kept in memory, by id; `should_fail` makes every operation
/// fail.
pub struct MockEventCategoryRepository {
    categories: Vec<EventCategory>,
    should_fail: bool,
}

impl View for MockEventCategoryRepository {
    type V = Map<Seq<char>, EventCategory>;

    open spec fn view(&self) -> Map<Seq<char>, EventCategory> {
        categories_by_id(self.stored())
    }
}

impl MockEventCategoryRepository {
    /// The stored categories, in the order they were first stored.
    pub closed spec fn stored(&self) -> Seq<EventCategory> {
        self.categories@
    }

    /// Whether operations fail.
    pub closed spec fn failing(&self) -> bool {
        self.should_fail
    }

    /// No two stored categories share an id.
    pub closed spec fn well_formed(&self) -> bool {
        distinct_keys(self.categories@, category_id())
    }

    /// An empty repository that does not fail.
    pub fn new() -> (r: Self)
        ensures
            r.well_formed(),
            r@ == Map::<Seq<char>, EventCategory>::empty(),
            r.stored() == Seq::<EventCategory>::empty(),
            !r.failing(),
    {
        let r = MockEventCategoryRepository { categories: Vec::new(), should_fail: false };
        assert(r@ =~= Map::<Seq<char>, EventCategory>::empty());
        r
    }

    /// Makes every later operation fail, or succeed again.
    pub fn set_should_fail(&mut self, should_fail: bool)
        ensures
            final(self).failing() == should_fail,
            final(self).stored() == old(self).stored(),
            final(self).well_formed() == old(self).well_formed(),
    {
        self.should_fail = should_fail;
    }

    /// The position of the category with id `id`, if one is stored.
    fn position(&self, id: &str) -> (r: Option<usize>)
        requires
            self.well_formed(),
        ensures
            match r {
                Some(i) => i < self.stored().len() && self.stored()[i as int].id@ == id@,
                None => !holds_key(self.stored(), category_id(), id@),
            },
    {
        let mut i: usize = 0;
        while i < self.categories.len()
            invariant
                i <= self.categories.len(),
                forall|k: int| 0 <= k < i ==> self.categories@[k].id@ != id@,
            decreases self.categories.len() - i,
        {
            if text_eq(self.categories[i].id.as_str(), id) {
                return Some(i);
            }
            i = i + 1;
        }
        None
    }

    /// Stores `category` under its id, replacing any category stored under it.
    fn put(&mut self, category: EventCategory)
        requires
            old(self).well_formed(),
        ensures
            final(self).well_formed(),
            final(self)@ == old(self)@.insert(category.id@, category),
            final(self).failing() == old(self).failing(),
    {
        match self.position(category.id.as_str()) {
            Some(i) => {
                proof {
                    lemma_replace(self.categories@, category_id(), as_stored(), i as int, category);
                }
                self.categories.set(i, category);
            },
            None => {
                proof {
                    lemma_append(self.categories@, category_id(), as_stored(), category);
                }
                self.categories.push(category);
            },
        }
    }

    /// Stores `category` (test set-up; it never fails).
    pub fn add_category(&mut self, category: EventCategory)
        requires
            old(self).well_formed(),
        ensures
            final(self).well_formed(),
            final(self)@ == old(self)@.insert(category.id@, category),
            final(self).failing() == old(self).failing(),
    {
        self.put(category);
    }

    /// The category stored with id `id`, if any.
    pub fn find_by_id(&self, id: &str) -> (r: DomainResult<Option<EventCategory>>)
        requires
            self.well_formed(),
        ensures
            match r {
                Ok(found) => !self.failing() && found == lookup(self@, id@),
                Err(e) => self.failing() && e@ == mock_failure(),
            },
    {
        check_failure(self.should_fail)?;
        match self.position(id) {
            Some(i) => {
                proof {
                    lemma_entry(self.categories@, category_id(), i as int);
                }
                Ok(Some(copy_category(&self.categories[i])))
            },
            None => Ok(None),
        }
    }

    /// The active stored categories, in stored order.
    pub fn list_active(&self) -> (r: DomainResult<Vec<EventCategory>>)
        ensures
            match r {
                Ok(found) => !self.failing() && found@ == self.stored().filter(|c: EventCategory| c.is_active),
                Err(e) => self.failing() && e@ == mock_failure(),
            },
    {
        check_failure(self.should_fail)?;
        Ok(copy_categories(&self.categories, true))
    }

    /// Every stored category, in stored order.
    pub fn list_all(&self) -> (r: DomainResult<Vec<EventCategory>>)
        ensures
            match r {
                Ok(found) => !self.failing() && found@ == self.stored(),
                Err(e) => self.failing() && e@ == mock_failure(),
            },
    {
        check_failure(self.should_fail)?;
        Ok(copy_categories(&self.categories, false))
    }

    /// Stores `category`, replacing any category with its id.
    pub fn create(&mut self, category: &EventCategory) -> (r: DomainResult<()>)
        requires
            old(self).well_formed(),
        ensures
            final(self).well_formed(),
            final(self).failing() == old(self).failing(),
            match r {
                Ok(_) => !old(self).failing() && final(self)@ == old(self)@.insert(category.id@, *category),
                Err(e) => old(self).failing() && e@ == mock_failure() && final(self)@ == old(self)@,
            },
    {
        check_failure(self.should_fail)?;
        self.put(copy_category(category));
        Ok(())
    }

    /// Replaces the stored category with `category`'s id; a category not
    /// stored is not found.
    pub fn update(&mut self, category: &EventCategory) -> (r: DomainResult<()>)
        requires
            old(self).well_formed(),
        ensures
            final(self).well_formed(),
            final(self).failing() == old(self).failing(),
            match r {
                Ok(_) => !old(self).failing() && old(self)@.contains_key(category.id@) && final(self)@ == old(
                    self,
                )@.insert(category.id@, *category),
                Err(e) => final(self)@ == old(self)@ && if old(self).failing() {
                    e@ == mock_failure()
                } else {
                    !old(self)@.contains_key(category.id@) && e@ == (DomainErrorView::NotFound {
                        entity: "EventCategory"@,
                        identifier: "id"@,
                        value: category.id@,
                    })
                },
            },
    {
        check_failure(self.should_fail)?;
        match self.position(category.id.as_str()) {
            Some(i) => {
                proof {
                    lemma_entry(self.categories@, category_id(), i as int);
                    lemma_replace(self.categories@, category_id(), as_stored(), i as int, *category);
                }
                self.categories.set(i, copy_category(category));
                Ok(())
            },
            None => Err(DomainError::not_found_by_field("EventCategory", "id", category.id.as_str())),
        }
    }

    /// Removes the category with id `id`; a category not stored is not found.
    pub fn delete(&mut self, id: &str) -> (r: DomainResult<()>)
        requires
            old(self).well_formed(),
        ensures
            final(self).well_formed(),
            final(self).failing() == old(self).failing(),
            match r {
                Ok(_) => !old(self).failing() && old(self)@.contains_key(id@) && final(self)@ == old(self)@.remove(
                    id@,
                ),
                Err(e) => final(self)@ == old(self)@ && if old(self).failing() {
                    e@ == mock_failure()
                } else {
                    !old(self)@.contains_key(id@) && e@ == (DomainErrorView::NotFound {
                        entity: "EventCategory"@,
                        identifier: "id"@,
                        value: id@,
                    })
                },
            },
    {
        check_failure(self.should_fail)?;
        match self.position(id) {
            Some(i) => {
                proof {
                    lemma_entry(self.categories@, category_id(), i as int);
                    lemma_take_out(self.categories@, category_id(), as_stored(), i as int);
                }
                self.categories.remove(i);
                Ok(())
            },
            None => Err(DomainError::not_found_by_field("EventCategory", "id", id)),
        }
    }
}

} // verus!
