//! The in-memory event repository.

use vstd::prelude::*;
use vstd::seq_lib::*;
use crate::api::mocks::keyed::{
    distinct_keys, holds_key, keyed, lemma_entry,
};
use crate::api::mocks::{check_failure, lookup, mock_failure, page_of};
use crate::domain::errors::{DomainError, DomainErrorView, DomainResult};
use crate::domain::models::{Event, EventFilter, PaginatedResult, PaginationParams};
use crate::ids::uuid_text;
use crate::text::{clone_opt, text_eq};
use std::collections::HashMap;
use vstd::std_specs::iter::IteratorSpec;

verus! {

broadcast use {vstd::seq_lib::group_to_multiset_ensures, vstd::std_specs::hash::group_hash_axioms};

// ============================================================================
// Copies
// ============================================================================

/// A copy of a list of ids.
fn copy_ids(v: &Vec<u128>) -> (r: Vec<u128>)
    ensures
        r@ == v@,
{
    let mut r: Vec<u128> = Vec::new();
    let mut i: usize = 0;
    while i < v.len()
        invariant
            i <= v.len(),
            r@ == v@.subrange(0, i as int),
        decreases v.len() - i,
    {
        r.push(v[i]);
        i = i + 1;
    }
    assert(r@ =~= v@);
    r
}

/// An event up to the identity of its co-organiser list: every field as it
/// is, the co-organisers by their contents.
pub open spec fn image(e: Event) -> Event {
    Event { co_organizers: holding(e.co_organizers@), ..e }
}

/// A list of ids holding exactly `s`.
pub open spec fn holding(s: Seq<u128>) -> Vec<u128> {
    choose|v: Vec<u128>| v@ == s
}

/// The images of a sequence of events, in order.
pub open spec fn images(s: Seq<Event>) -> Seq<Event> {
    s.map_values(|e: Event| image(e))
}

/// A copy of an event.
pub fn copy_event(e: &Event) -> (r: Event)
    ensures
        image(r) == image(*e),
{
    let co_organizers = copy_ids(&e.co_organizers);
    Event {
        id: e.id,
        title: e.title.clone(),
        description: e.description.clone(),
        category_id: e.category_id.clone(),
        start_date: e.start_date,
        end_date: e.end_date,
        timezone: e.timezone.clone(),
        location_type: e.location_type,
        location_name: clone_opt(&e.location_name),
        address: clone_opt(&e.address),
        virtual_link: clone_opt(&e.virtual_link),
        virtual_access_code: clone_opt(&e.virtual_access_code),
        organizer_id: e.organizer_id,
        co_organizers,
        is_private: e.is_private,
        requires_approval: e.requires_approval,
        max_attendees: e.max_attendees,
        allow_guests: e.allow_guests,
        max_guests_per_person: e.max_guests_per_person,
        registration_opens: e.registration_opens,
        registration_closes: e.registration_closes,
        registration_required: e.registration_required,
        allow_waitlist: e.allow_waitlist,
        send_reminders: e.send_reminders,
        collect_dietary_info: e.collect_dietary_info,
        collect_accessibility_info: e.collect_accessibility_info,
        image_url: clone_opt(&e.image_url),
        custom_fields: clone_opt(&e.custom_fields),
        status: e.status,
        created_at: e.created_at,
        updated_at: e.updated_at,
    }
}

// ============================================================================
// Stored events
// ============================================================================

/// Events are kept by id.
pub open spec fn event_id() -> spec_fn(Event) -> u128 {
    |e: Event| e.id
}

/// Events are seen up to the identity of their co-organiser lists.
pub open spec fn event_image() -> spec_fn(Event) -> Event {
    |e: Event| image(e)
}

/// The stored events by id.
pub open spec fn events_by_id(s: Seq<Event>) -> Map<u128, Event> {
    keyed(s, event_id(), event_image())
}

/// Keeping every element keeps the sequence.
proof fn lemma_filter_all(s: Seq<Event>)
    ensures
        s.filter(|e: Event| true) == s,
    decreases s.len(),
{
    if s.len() > 0 {
        lemma_filter_all(s.drop_last());
        assert(s.drop_last().push(s.last()) =~= s);
        s.drop_last().lemma_filter_push(s.last(), |e: Event| true);
    }
}

// ============================================================================
// Listings
// ============================================================================

/// An event meets the criteria the in-memory listing applies: the category
/// and the organiser, where given.
pub open spec fn listed(e: Event, filter: EventFilter) -> bool {
    &&& (filter.category_id matches Some(c) ==> e.category_id@ == c@)
    &&& (filter.organizer_id matches Some(o) ==> e.organizer_id == o)
}

/// Latest-created first.
pub open spec fn newest_first(s: Seq<Event>) -> bool {
    forall|i: int, j: int| 0 <= i < j < s.len() ==> s[i].created_at >= s[j].created_at
}

/// Inserts `e` into `sorted` after every event created at the same time or
/// later, so that ties keep their order.
fn insert_newest_first(sorted: &mut Vec<Event>, e: Event)
    requires
        newest_first(old(sorted)@),
    ensures
        newest_first(final(sorted)@),
        images(final(sorted)@).to_multiset() == images(old(sorted)@).to_multiset().insert(image(e)),
{
    let mut p: usize = 0;
    while p < sorted.len() && sorted[p].created_at >= e.created_at
        invariant
            p <= sorted.len(),
            forall|k: int| 0 <= k < p ==> sorted@[k].created_at >= e.created_at,
        decreases sorted.len() - p,
    {
        p = p + 1;
    }
    let ghost before = sorted@;
    let ghost img = image(e);
    sorted.insert(p, e);
    proof {
        assert(images(sorted@) =~= images(before).insert(p as int, img));
        to_multiset_insert(images(before), p as int, img);
        assert forall|i: int, j: int| 0 <= i < j < sorted@.len() implies sorted@[i].created_at
            >= sorted@[j].created_at by {
            if j < p {
            } else if j == p {
                assert(sorted@[i] == before[i]);
            } else if i < p {
                assert(sorted@[j] == before[j - 1]);
                assert(sorted@[i] == before[i]);
                if j - 1 < p {
                } else {
                    assert(before[i].created_at >= before[j - 1].created_at);
                }
            } else if i == p {
                assert(sorted@[j] == before[j - 1]);
                if p < before.len() {
                    assert(before[p as int].created_at < img.created_at);
                    if j - 1 > p {
                        assert(before[p as int].created_at >= before[j - 1].created_at);
                    }
                }
            } else {
                assert(sorted@[j] == before[j - 1]);
                assert(sorted@[i] == before[i - 1]);
            }
        }
    }
}

/// Events whose categories and organisers match, latest-created first.
fn matching_newest_first(events: &Vec<Event>, filter: &EventFilter) -> (r: Vec<Event>)
    ensures
        newest_first(r@),
        images(r@).to_multiset() == images(events@.filter(|e: Event| listed(e, *filter))).to_multiset(),
{
    let ghost keep = |e: Event| listed(e, *filter);
    let mut sorted: Vec<Event> = Vec::new();
    let mut i: usize = 0;
    while i < events.len()
        invariant
            i <= events.len(),
            newest_first(sorted@),
            keep == (|e: Event| listed(e, *filter)),
            images(sorted@).to_multiset() == images(events@.subrange(0, i as int).filter(keep)).to_multiset(),
        decreases events.len() - i,
    {
        let ghost prefix = events@.subrange(0, i as int);
        let ghost x = events@[i as int];
        proof {
            assert(events@.subrange(0, i + 1) =~= prefix.push(x));
            prefix.lemma_filter_push(x, keep);
            assert(images(prefix.filter(keep).push(x)) =~= images(prefix.filter(keep)).push(image(x)));
        }
        let e = &events[i];
        let category_ok = match &filter.category_id {
            Some(c) => text_eq(e.category_id.as_str(), c.as_str()),
            None => true,
        };
        let organizer_ok = match filter.organizer_id {
            Some(o) => e.organizer_id == o,
            None => true,
        };
        if category_ok && organizer_ok {
            insert_newest_first(&mut sorted, copy_event(e));
        }
        i = i + 1;
    }
    assert(events@.subrange(0, events@.len() as int) =~= events@);
    sorted
}

/// The page of `all` from `offset` holding at most `limit` items.
fn slice_page(all: &Vec<Event>, offset: usize, limit: usize) -> (r: Vec<Event>)
    requires
        offset + limit <= usize::MAX,
    ensures
        images(r@) == images(page_of(all@, offset as int, limit as int)),
{
    let mut page: Vec<Event> = Vec::new();
    if offset < all.len() {
        let end: usize = if offset + limit < all.len() {
            offset + limit
        } else {
            all.len()
        };
        let mut i: usize = offset;
        while i < end
            invariant
                offset <= i <= end <= all.len(),
                images(page@) == images(all@.subrange(offset as int, i as int)),
            decreases end - i,
        {
            let c = copy_event(&all[i]);
            proof {
                assert(all@.subrange(offset as int, i + 1) =~= all@.subrange(offset as int, i as int).push(
                    all@[i as int],
                ));
                assert(images(page@.push(c)) =~= images(page@).push(image(c)));
                assert(images(all@.subrange(offset as int, i as int).push(all@[i as int])) =~= images(
                    all@.subrange(offset as int, i as int),
                ).push(image(all@[i as int])));
            }
            page.push(c);
            i = i + 1;
        }
        assert(all@.subrange(offset as int, end as int) =~= page_of(all@, offset as int, limit as int));
    } else {
        assert(images(page@) =~= images(page_of(all@, offset as int, limit as int)));
    }
    page
}

// ============================================================================
// The in-memory event repository
// ============================================================================

/// Events kept in memory in a map by id; `should_fail` makes every
/// operation fail.
pub struct MockEventRepository {
    events: HashMap<u128, Event>,
    should_fail: bool,
}

impl View for MockEventRepository {
    type V = Map<u128, Event>;

    open spec fn view(&self) -> Map<u128, Event> {
        Map::new(|id: u128| self.stored().contains_key(id), |id: u128| image(self.stored()[id]))
    }
}

/// The image of an event that may be absent.
pub open spec fn image_opt(o: Option<Event>) -> Option<Event> {
    match o {
        Some(e) => Some(image(e)),
        None => None,
    }
}

/// `s` lists the events of `m`, each once, in some order.
pub open spec fn is_snapshot(s: Seq<Event>, m: Map<u128, Event>) -> bool {
    distinct_keys(s, event_id()) && events_by_id(s) == m
}

impl MockEventRepository {
    /// The stored events by id.
    pub closed spec fn stored(&self) -> Map<u128, Event> {
        self.events@
    }

    /// Whether operations fail.
    pub closed spec fn failing(&self) -> bool {
        self.should_fail
    }

    /// The repository is consistent: every event is stored under its id.
    pub closed spec fn well_formed(&self) -> bool {
        forall|id: u128| #[trigger] self.events@.contains_key(id) ==> self.events@[id].id == id
    }

    /// An empty repository that does not fail.
    pub fn new() -> (r: Self)
        ensures
            r.well_formed(),
            r@ == Map::<u128, Event>::empty(),
            !r.failing(),
    {
        let r = MockEventRepository { events: HashMap::new(), should_fail: false };
        assert(r@ =~= Map::<u128, Event>::empty());
        r
    }

    /// Makes every later operation fail, or succeed again.
    pub fn set_should_fail(&mut self, should_fail: bool)
        ensures
            final(self).failing() == should_fail,
            final(self)@ == old(self)@,
            final(self).well_formed() == old(self).well_formed(),
    {
        self.should_fail = should_fail;
    }

    /// Copies of the stored events, each once, in the order the map yields
    /// them.
    fn snapshot(&self) -> (r: Vec<Event>)
        requires
            self.well_formed(),
        ensures
            is_snapshot(r@, self@),
    {
        let ghost m = self.events@;
        let mut r: Vec<Event> = Vec::new();
        let it0 = self.events.iter();
        let ghost pairs = it0.remaining();
        for pair in it: it0
            invariant
                m == self.events@,
                forall|id: u128| #[trigger] m.contains_key(id) ==> m[id].id == id,
                pairs == it.seq(),
                pairs.no_duplicates(),
                pairs.len() == m.dom().len(),
                forall|i: int| 0 <= i < pairs.len() ==> m.contains_key(*pairs[i].0) && m[*pairs[i].0] == *pairs[i].1,
                forall|k: u128| #[trigger] m.contains_key(k) ==> pairs.contains((&k, &m[k])),
                r.len() == it.index(),
                forall|i: int| 0 <= i < r.len() ==> r@[i].id == *pairs[i].0 && image(r@[i]) == image(*pairs[i].1),
        {
            let (_, e) = pair;
            r.push(copy_event(e));
        }
        proof {
            assert(r.len() == pairs.len());
            assert forall|a: int, b: int| #![trigger r@[a], r@[b]] 0 <= a < b < r@.len() implies r@[a].id != r@[b].id by {
                if r@[a].id == r@[b].id {
                    assert(*pairs[a].1 == m[*pairs[a].0]);
                    assert(*pairs[b].1 == m[*pairs[b].0]);
                    assert(pairs[a] == pairs[b]);
                }
            }
            let got = events_by_id(r@);
            assert forall|k: u128| #[trigger] got.contains_key(k) == self@.contains_key(k) by {
                if m.contains_key(k) {
                    let i = pairs.index_of((&k, &m[k]));
                    assert(r@[i].id == k);
                    lemma_entry(r@, event_id(), i);
                }
                if holds_key(r@, event_id(), k) {
                    let i = choose|i: int| #![trigger r@[i]] 0 <= i < r@.len() && r@[i].id == k;
                    assert(m.contains_key(*pairs[i].0));
                }
            }
            assert forall|k: u128| #[trigger] got.contains_key(k) implies got[k] == self@[k] by {
                let i = choose|i: int| #![trigger r@[i]] 0 <= i < r@.len() && r@[i].id == k;
                lemma_entry(r@, event_id(), i);
            }
            assert(got =~= self@);
        }
        r
    }

    /// Stores `event` under its id, replacing any event stored under it.
    fn put(&mut self, event: Event)
        requires
            old(self).well_formed(),
        ensures
            final(self).well_formed(),
            final(self)@ == old(self)@.insert(event.id, image(event)),
            final(self).failing() == old(self).failing(),
    {
        let ghost before = self@;
        let id = event.id;
        let ghost e = event;
        self.events.insert(id, event);
        assert(self@ =~= before.insert(e.id, image(e)));
    }

    /// Stores `event` (test set-up; it never fails).
    pub fn add_event(&mut self, event: Event)
        requires
            old(self).well_formed(),
        ensures
            final(self).well_formed(),
            final(self)@ == old(self)@.insert(event.id, image(event)),
            final(self).failing() == old(self).failing(),
    {
        self.put(event);
    }

    /// The event stored with `id`, if any.
    pub fn find_by_id(&self, id: u128) -> (r: DomainResult<Option<Event>>)
        requires
            self.well_formed(),
        ensures
            match r {
                Ok(found) => !self.failing() && image_opt(found) == lookup(self@, id),
                Err(e) => self.failing() && e@ == mock_failure(),
            },
    {
        check_failure(self.should_fail)?;
        match self.events.get(&id) {
            Some(e) => Ok(Some(copy_event(e))),
            None => Ok(None),
        }
    }

    /// The page from `pagination.offset` of the stored events that match
    /// the category and organiser of `filter` (its other criteria are not
    /// applied), latest-created first; the total counts every match.
    pub fn find_by_filter(&self, filter: &EventFilter, pagination: PaginationParams) -> (r: DomainResult<
        PaginatedResult<Event>,
    >)
        requires
            self.well_formed(),
            i64::MIN <= pagination.offset + pagination.limit <= i64::MAX,
            (pagination.offset as usize) + (pagination.limit as usize) <= usize::MAX,
        ensures
            match r {
                Ok(page) => !self.failing() && exists|s: Seq<Event>, all: Seq<Event>|
                    {
                        &&& #[trigger] is_snapshot(s, self@)
                        &&& newest_first(all)
                        &&& images(all).to_multiset() == images(s.filter(|e: Event| listed(e, *filter))).to_multiset()
                        &&& images(page.items@) == images(
                            #[trigger] page_of(all, pagination.offset as usize as int, pagination.limit as usize as int),
                        )
                        &&& page.total_count == all.len() as i64
                    } && page.offset == pagination.offset && page.limit == pagination.limit && page.has_next == (
                pagination.offset + pagination.limit < page.total_count),
                Err(e) => self.failing() && e@ == mock_failure(),
            },
    {
        check_failure(self.should_fail)?;
        let stored = self.snapshot();
        let all = matching_newest_first(&stored, filter);
        let total_count = all.len() as i64;
        let items = slice_page(&all, pagination.offset as usize, pagination.limit as usize);
        let page = PaginatedResult::new(items, total_count, pagination);
        proof {
            assert(images(page.items@) == images(
                page_of(all@, pagination.offset as usize as int, pagination.limit as usize as int),
            ));
            assert(is_snapshot(stored@, self@));
        }
        Ok(page)
    }

    /// The page of the events organised by `organizer_id`.
    pub fn find_by_organizer(&self, organizer_id: u128, pagination: PaginationParams) -> (r: DomainResult<
        PaginatedResult<Event>,
    >)
        requires
            self.well_formed(),
            i64::MIN <= pagination.offset + pagination.limit <= i64::MAX,
            (pagination.offset as usize) + (pagination.limit as usize) <= usize::MAX,
        ensures
            match r {
                Ok(page) => !self.failing() && exists|s: Seq<Event>, all: Seq<Event>|
                    {
                        &&& #[trigger] is_snapshot(s, self@)
                        &&& newest_first(all)
                        &&& images(all).to_multiset() == images(
                            s.filter(|e: Event| e.organizer_id == organizer_id),
                        ).to_multiset()
                        &&& images(page.items@) == images(
                            #[trigger] page_of(all, pagination.offset as usize as int, pagination.limit as usize as int),
                        )
                        &&& page.total_count == all.len() as i64
                    },
                Err(e) => self.failing() && e@ == mock_failure(),
            },
    {
        let filter = EventFilter {
            title_contains: None,
            category_id: None,
            organizer_id: Some(organizer_id),
            is_private: None,
            status: None,
            location_type: None,
            start_date_from: None,
            start_date_to: None,
        };
        let r = self.find_by_filter(&filter, pagination);
        proof {
            assert((|e: Event| listed(e, filter)) =~= (|e: Event| e.organizer_id == organizer_id));
        }
        r
    }

    /// The page of all stored events.
    pub fn list_all(&self, pagination: PaginationParams) -> (r: DomainResult<PaginatedResult<Event>>)
        requires
            self.well_formed(),
            i64::MIN <= pagination.offset + pagination.limit <= i64::MAX,
            (pagination.offset as usize) + (pagination.limit as usize) <= usize::MAX,
        ensures
            match r {
                Ok(page) => !self.failing() && exists|s: Seq<Event>, all: Seq<Event>|
                    {
                        &&& #[trigger] is_snapshot(s, self@)
                        &&& newest_first(all)
                        &&& images(all).to_multiset() == images(s).to_multiset()
                        &&& images(page.items@) == images(
                            #[trigger] page_of(all, pagination.offset as usize as int, pagination.limit as usize as int),
                        )
                        &&& page.total_count == all.len() as i64
                    },
                Err(e) => self.failing() && e@ == mock_failure(),
            },
    {
        let filter = EventFilter {
            title_contains: None,
            category_id: None,
            organizer_id: None,
            is_private: None,
            status: None,
            location_type: None,
            start_date_from: None,
            start_date_to: None,
        };
        let r = self.find_by_filter(&filter, pagination);
        proof {
            assert((|e: Event| listed(e, filter)) =~= (|e: Event| true));
            if r is Ok {
                let page = r->Ok_0;
                let (s, all) = choose|s: Seq<Event>, all: Seq<Event>|
                    {
                        &&& #[trigger] is_snapshot(s, self@)
                        &&& newest_first(all)
                        &&& images(all).to_multiset() == images(s.filter(|e: Event| listed(e, filter))).to_multiset()
                        &&& images(page.items@) == images(
                            #[trigger] page_of(all, pagination.offset as usize as int, pagination.limit as usize as int),
                        )
                        &&& page.total_count == all.len() as i64
                    };
                lemma_filter_all(s);
            }
        }
        r
    }

    /// The stored events of category `category_id`.
    pub fn find_by_category(&self, category_id: &str) -> (r: DomainResult<Vec<Event>>)
        requires
            self.well_formed(),
        ensures
            match r {
                Ok(found) => !self.failing() && exists|s: Seq<Event>|
                    #[trigger] is_snapshot(s, self@) && images(found@) == images(
                        s.filter(|e: Event| e.category_id@ == category_id@),
                    ),
                Err(e) => self.failing() && e@ == mock_failure(),
            },
    {
        check_failure(self.should_fail)?;
        let stored = self.snapshot();
        let ghost keep = |e: Event| e.category_id@ == category_id@;
        let mut found: Vec<Event> = Vec::new();
        let mut i: usize = 0;
        while i < stored.len()
            invariant
                i <= stored.len(),
                keep == (|e: Event| e.category_id@ == category_id@),
                images(found@) == images(stored@.subrange(0, i as int).filter(keep)),
            decreases stored.len() - i,
        {
            let ghost prefix = stored@.subrange(0, i as int);
            let ghost x = stored@[i as int];
            proof {
                assert(stored@.subrange(0, i + 1) =~= prefix.push(x));
                prefix.lemma_filter_push(x, keep);
                assert(images(prefix.filter(keep).push(x)) =~= images(prefix.filter(keep)).push(image(x)));
            }
            if text_eq(stored[i].category_id.as_str(), category_id) {
                let c = copy_event(&stored[i]);
                proof {
                    assert(images(found@.push(c)) =~= images(found@).push(image(c)));
                }
                found.push(c);
            }
            i = i + 1;
        }
        assert(stored@.subrange(0, stored@.len() as int) =~= stored@);
        assert(is_snapshot(stored@, self@));
        Ok(found)
    }

    /// Stores `event`, replacing any event with its id.
    pub fn create(&mut self, event: &Event) -> (r: DomainResult<()>)
        requires
            old(self).well_formed(),
        ensures
            final(self).well_formed(),
            final(self).failing() == old(self).failing(),
            match r {
                Ok(_) => !old(self).failing() && final(self)@ == old(self)@.insert(event.id, image(*event)),
                Err(e) => old(self).failing() && e@ == mock_failure() && final(self)@ == old(self)@,
            },
    {
        check_failure(self.should_fail)?;
        self.put(copy_event(event));
        Ok(())
    }

    /// Replaces the stored event with `event`'s id; an event not stored is
    /// not found.
    pub fn update(&mut self, event: &Event) -> (r: DomainResult<()>)
        requires
            old(self).well_formed(),
        ensures
            final(self).well_formed(),
            final(self).failing() == old(self).failing(),
            match r {
                Ok(_) => !old(self).failing() && old(self)@.contains_key(event.id) && final(self)@ == old(
                    self,
                )@.insert(event.id, image(*event)),
                Err(e) => final(self)@ == old(self)@ && if old(self).failing() {
                    e@ == mock_failure()
                } else {
                    !old(self)@.contains_key(event.id) && e@ == (DomainErrorView::NotFound {
                        entity: "Event"@,
                        identifier: "id"@,
                        value: uuid_text(event.id),
                    })
                },
            },
    {
        check_failure(self.should_fail)?;
        if self.events.contains_key(&event.id) {
            self.put(copy_event(event));
            Ok(())
        } else {
            Err(DomainError::not_found("Event", event.id))
        }
    }

    /// Removes the event with `id`; an event not stored is not found.
    pub fn delete(&mut self, id: u128) -> (r: DomainResult<()>)
        requires
            old(self).well_formed(),
        ensures
            final(self).well_formed(),
            final(self).failing() == old(self).failing(),
            match r {
                Ok(_) => !old(self).failing() && old(self)@.contains_key(id) && final(self)@ == old(self)@.remove(
                    id,
                ),
                Err(e) => final(self)@ == old(self)@ && if old(self).failing() {
                    e@ == mock_failure()
                } else {
                    !old(self)@.contains_key(id) && e@ == (DomainErrorView::NotFound {
                        entity: "Event"@,
                        identifier: "id"@,
                        value: uuid_text(id),
                    })
                },
            },
    {
        check_failure(self.should_fail)?;
        let ghost before = self@;
        match self.events.remove(&id) {
            Some(_) => {
                assert(self@ =~= before.remove(id));
                Ok(())
            },
            None => Err(DomainError::not_found("Event", id)),
        }
    }

    /// Whether an event with `id` is stored.
    pub fn contains_event(&self, id: u128) -> (r: DomainResult<bool>)
        requires
            self.well_formed(),
        ensures
            match r {
                Ok(b) => !self.failing() && b == self@.contains_key(id),
                Err(e) => self.failing() && e@ == mock_failure(),
            },
    {
        check_failure(self.should_fail)?;
        Ok(self.events.contains_key(&id))
    }
}

} // verus!
