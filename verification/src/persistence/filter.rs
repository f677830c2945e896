//! The conditions an event listing adds to its query for a filter: one per
//! criterion that is given, each a piece of SQL followed by a bound value.

use vstd::prelude::*;
use crate::domain::models::EventFilter;
use crate::ids::{uuid_text, uuid_to_string};
use crate::persistence::mapping::{
    event_status_name, event_status_to_string, location_type_name, location_type_to_string,
};
use crate::text::{concat3, own};

verus! {

/// A value bound to a query condition.
#[derive(Debug)]
pub enum BoundValue {
    Text(String),
    Flag(bool),
    /// Milliseconds since the Unix epoch.
    Instant(i64),
}

/// A bound value as plain values.
pub enum BoundValueView {
    Text(Seq<char>),
    Flag(bool),
    Instant(i64),
}

impl View for BoundValue {
    type V = BoundValueView;

    open spec fn view(&self) -> BoundValueView {
        match self {
            BoundValue::Text(t) => BoundValueView::Text(t@),
            BoundValue::Flag(b) => BoundValueView::Flag(*b),
            BoundValue::Instant(ms) => BoundValueView::Instant(*ms),
        }
    }
}

/// A condition: the SQL that precedes the bound value, and the value.
#[derive(Debug)]
pub struct QueryCondition {
    pub clause: String,
    pub value: BoundValue,
}

/// A condition as plain values.
pub open spec fn condition_view(c: QueryCondition) -> (Seq<char>, BoundValueView) {
    (c.clause@, c.value@)
}

/// The conditions of a list, as plain values.
pub open spec fn conditions_view(s: Seq<QueryCondition>) -> Seq<(Seq<char>, BoundValueView)> {
    s.map_values(|c: QueryCondition| condition_view(c))
}

/// The one condition of a criterion that is given, none for one that is not.
pub open spec fn when_given<T>(o: Option<T>, f: spec_fn(T) -> (Seq<char>, BoundValueView)) -> Seq<
    (Seq<char>, BoundValueView),
> {
    match o {
        Some(v) => seq![f(v)],
        None => Seq::empty(),
    }
}

/// The condition on the title: it holds the given text anywhere.
pub open spec fn title_part(f: EventFilter) -> Seq<(Seq<char>, BoundValueView)> {
    when_given(f.title_contains, |t: String| (" AND title LIKE "@, BoundValueView::Text("%"@ + t@ + "%"@)))
}

/// The condition on the category.
pub open spec fn category_part(f: EventFilter) -> Seq<(Seq<char>, BoundValueView)> {
    when_given(f.category_id, |c: String| (" AND category_id = "@, BoundValueView::Text(c@)))
}

/// The condition on the organiser, by the id's text.
pub open spec fn organizer_part(f: EventFilter) -> Seq<(Seq<char>, BoundValueView)> {
    when_given(f.organizer_id, |o: u128| (" AND organizer_id = "@, BoundValueView::Text(uuid_text(o))))
}

/// The condition on privacy.
pub open spec fn privacy_part(f: EventFilter) -> Seq<(Seq<char>, BoundValueView)> {
    when_given(f.is_private, |p: bool| (" AND is_private = "@, BoundValueView::Flag(p)))
}

/// The condition on the status, by its stored name.
pub open spec fn status_part(f: EventFilter) -> Seq<(Seq<char>, BoundValueView)> {
    when_given(f.status, |s| (" AND status = "@, BoundValueView::Text(event_status_name(s))))
}

/// The condition on the location type, by its stored name.
pub open spec fn location_part(f: EventFilter) -> Seq<(Seq<char>, BoundValueView)> {
    when_given(f.location_type, |l| (" AND location_type = "@, BoundValueView::Text(location_type_name(l))))
}

/// The condition on the earliest start.
pub open spec fn from_part(f: EventFilter) -> Seq<(Seq<char>, BoundValueView)> {
    when_given(f.start_date_from, |ms: i64| (" AND start_date >= "@, BoundValueView::Instant(ms)))
}

/// The condition on the latest start.
pub open spec fn to_part(f: EventFilter) -> Seq<(Seq<char>, BoundValueView)> {
    when_given(f.start_date_to, |ms: i64| (" AND start_date <= "@, BoundValueView::Instant(ms)))
}

/// The conditions a filter adds, in this order: the title, the category,
/// the organiser, privacy, status, location type, and the earliest and
/// latest start.
pub open spec fn filter_conditions(f: EventFilter) -> Seq<(Seq<char>, BoundValueView)> {
    title_part(f) + category_part(f) + organizer_part(f) + privacy_part(f) + status_part(f) + location_part(f)
        + from_part(f) + to_part(f)
}

/// How many criteria of `f` are given.
pub open spec fn criteria_given(f: EventFilter) -> int {
    (if f.title_contains is Some { 1int } else { 0 }) + (if f.category_id is Some { 1int } else { 0 }) + (
    if f.organizer_id is Some { 1int } else { 0 }) + (if f.is_private is Some { 1int } else { 0 }) + (
    if f.status is Some { 1int } else { 0 }) + (if f.location_type is Some { 1int } else { 0 }) + (
    if f.start_date_from is Some { 1int } else { 0 }) + (if f.start_date_to is Some { 1int } else { 0 })
}

/// An element of either part is an element of the two joined.
proof fn lemma_contains_join<T>(a: Seq<T>, b: Seq<T>, x: T)
    ensures
        a.contains(x) || b.contains(x) ==> (a + b).contains(x),
{
    if a.contains(x) {
        let i = choose|i: int| 0 <= i < a.len() && a[i] == x;
        assert((a + b)[i] == x);
    } else if b.contains(x) {
        let j = choose|j: int| 0 <= j < b.len() && b[j] == x;
        assert((a + b)[a.len() + j] == x);
    }
}

/// Every element of two joined sequences meets `pred` when every element of
/// each does.
proof fn lemma_all_join<T>(a: Seq<T>, b: Seq<T>, pred: spec_fn(T) -> bool)
    requires
        forall|i: int| 0 <= i < a.len() ==> #[trigger] pred(a[i]),
        forall|j: int| 0 <= j < b.len() ==> #[trigger] pred(b[j]),
    ensures
        forall|k: int| 0 <= k < (a + b).len() ==> #[trigger] pred((a + b)[k]),
{
    assert forall|k: int| 0 <= k < (a + b).len() implies #[trigger] pred((a + b)[k]) by {
        if k < a.len() {
            assert((a + b)[k] == a[k]);
        } else {
            assert((a + b)[k] == b[k - a.len()]);
        }
    }
}

/// A bound flag is the privacy `f` asks for.
pub open spec fn flag_as_asked(f: EventFilter) -> spec_fn((Seq<char>, BoundValueView)) -> bool {
    |c: (Seq<char>, BoundValueView)| c.1 is Flag ==> f.is_private == Some(c.1->Flag_0)
}

proof fn lemma_flags_as_asked(f: EventFilter)
    ensures
        forall|i: int|
            0 <= i < filter_conditions(f).len() ==> #[trigger] flag_as_asked(f)(filter_conditions(f)[i]),
{
    let pred = flag_as_asked(f);
    let s1 = title_part(f) + category_part(f);
    let s2 = s1 + organizer_part(f);
    let s3 = s2 + privacy_part(f);
    let s4 = s3 + status_part(f);
    let s5 = s4 + location_part(f);
    let s6 = s5 + from_part(f);
    lemma_all_join(title_part(f), category_part(f), pred);
    lemma_all_join(s1, organizer_part(f), pred);
    lemma_all_join(s2, privacy_part(f), pred);
    lemma_all_join(s3, status_part(f), pred);
    lemma_all_join(s4, location_part(f), pred);
    lemma_all_join(s5, from_part(f), pred);
    lemma_all_join(s6, to_part(f), pred);
}

proof fn lemma_privacy_bound(f: EventFilter)
    ensures
        f.is_private matches Some(p) ==> filter_conditions(f).contains((" AND is_private = "@, BoundValueView::Flag(p))),
{
    if let Some(p) = f.is_private {
        let x = (" AND is_private = "@, BoundValueView::Flag(p));
        let s1 = title_part(f) + category_part(f);
        let s2 = s1 + organizer_part(f);
        let s3 = s2 + privacy_part(f);
        let s4 = s3 + status_part(f);
        let s5 = s4 + location_part(f);
        let s6 = s5 + from_part(f);
        assert(privacy_part(f)[0] == x);
        lemma_contains_join(s2, privacy_part(f), x);
        lemma_contains_join(s3, status_part(f), x);
        lemma_contains_join(s4, location_part(f), x);
        lemma_contains_join(s5, from_part(f), x);
        lemma_contains_join(s6, to_part(f), x);
    }
}

proof fn lemma_texts_bound(f: EventFilter)
    ensures
        f.category_id matches Some(c) ==> filter_conditions(f).contains((" AND category_id = "@, BoundValueView::Text(c@))),
        f.organizer_id matches Some(o) ==> filter_conditions(f).contains(
            (" AND organizer_id = "@, BoundValueView::Text(uuid_text(o))),
        ),
        f.title_contains matches Some(t) ==> filter_conditions(f).contains(
            (" AND title LIKE "@, BoundValueView::Text("%"@ + t@ + "%"@)),
        ),
{
    let s1 = title_part(f) + category_part(f);
    let s2 = s1 + organizer_part(f);
    let s3 = s2 + privacy_part(f);
    let s4 = s3 + status_part(f);
    let s5 = s4 + location_part(f);
    let s6 = s5 + from_part(f);
    if let Some(c) = f.category_id {
        let x = (" AND category_id = "@, BoundValueView::Text(c@));
        assert(category_part(f)[0] == x);
        lemma_contains_join(title_part(f), category_part(f), x);
        lemma_contains_join(s1, organizer_part(f), x);
        lemma_contains_join(s2, privacy_part(f), x);
        lemma_contains_join(s3, status_part(f), x);
        lemma_contains_join(s4, location_part(f), x);
        lemma_contains_join(s5, from_part(f), x);
        lemma_contains_join(s6, to_part(f), x);
    }
    if let Some(o) = f.organizer_id {
        let x = (" AND organizer_id = "@, BoundValueView::Text(uuid_text(o)));
        assert(organizer_part(f)[0] == x);
        lemma_contains_join(s1, organizer_part(f), x);
        lemma_contains_join(s2, privacy_part(f), x);
        lemma_contains_join(s3, status_part(f), x);
        lemma_contains_join(s4, location_part(f), x);
        lemma_contains_join(s5, from_part(f), x);
        lemma_contains_join(s6, to_part(f), x);
    }
    if let Some(t) = f.title_contains {
        let x = (" AND title LIKE "@, BoundValueView::Text("%"@ + t@ + "%"@));
        assert(title_part(f)[0] == x);
        lemma_contains_join(title_part(f), category_part(f), x);
        lemma_contains_join(s1, organizer_part(f), x);
        lemma_contains_join(s2, privacy_part(f), x);
        lemma_contains_join(s3, status_part(f), x);
        lemma_contains_join(s4, location_part(f), x);
        lemma_contains_join(s5, from_part(f), x);
        lemma_contains_join(s6, to_part(f), x);
    }
}

proof fn lemma_dates_bound(f: EventFilter)
    ensures
        f.start_date_from matches Some(ms) ==> filter_conditions(f).contains(
            (" AND start_date >= "@, BoundValueView::Instant(ms)),
        ),
        f.start_date_to matches Some(ms) ==> filter_conditions(f).contains(
            (" AND start_date <= "@, BoundValueView::Instant(ms)),
        ),
{
    let s5 = title_part(f) + category_part(f) + organizer_part(f) + privacy_part(f) + status_part(f) + location_part(f);
    let s6 = s5 + from_part(f);
    if let Some(ms) = f.start_date_from {
        let x = (" AND start_date >= "@, BoundValueView::Instant(ms));
        assert(from_part(f)[0] == x);
        lemma_contains_join(s5, from_part(f), x);
        lemma_contains_join(s6, to_part(f), x);
    }
    if let Some(ms) = f.start_date_to {
        let x = (" AND start_date <= "@, BoundValueView::Instant(ms));
        assert(to_part(f)[0] == x);
        lemma_contains_join(s6, to_part(f), x);
    }
}

/// Filter conditions: there is one condition for each criterion given and
/// none other; each given criterion is bound as the filter gives it (the
/// privacy flag asked for, the category, organiser and title text, the
/// bounds of the start); and the only flag bound is the privacy the filter
/// asks for.
pub proof fn law_filter_binds_what_is_asked(f: EventFilter)
    ensures
        filter_conditions(f).len() == criteria_given(f),
        f.is_private matches Some(p) ==> filter_conditions(f).contains((" AND is_private = "@, BoundValueView::Flag(p))),
        f.category_id matches Some(c) ==> filter_conditions(f).contains((" AND category_id = "@, BoundValueView::Text(c@))),
        f.organizer_id matches Some(o) ==> filter_conditions(f).contains(
            (" AND organizer_id = "@, BoundValueView::Text(uuid_text(o))),
        ),
        f.title_contains matches Some(t) ==> filter_conditions(f).contains(
            (" AND title LIKE "@, BoundValueView::Text("%"@ + t@ + "%"@)),
        ),
        f.start_date_from matches Some(ms) ==> filter_conditions(f).contains(
            (" AND start_date >= "@, BoundValueView::Instant(ms)),
        ),
        f.start_date_to matches Some(ms) ==> filter_conditions(f).contains(
            (" AND start_date <= "@, BoundValueView::Instant(ms)),
        ),
        forall|i: int|
            0 <= i < filter_conditions(f).len() && #[trigger] filter_conditions(f)[i].1 is Flag ==> f.is_private == Some(
                filter_conditions(f)[i].1->Flag_0,
            ),
{
    lemma_privacy_bound(f);
    lemma_texts_bound(f);
    lemma_dates_bound(f);
    lemma_flags_as_asked(f);
    assert forall|i: int|
        0 <= i < filter_conditions(f).len() && #[trigger] filter_conditions(f)[i].1 is Flag implies f.is_private
            == Some(filter_conditions(f)[i].1->Flag_0) by {
        assert(flag_as_asked(f)(filter_conditions(f)[i]));
    }
}

/// The conditions of an optional condition.
pub open spec fn optional_conditions(c: Option<QueryCondition>) -> Seq<(Seq<char>, BoundValueView)> {
    match c {
        Some(c) => seq![condition_view(c)],
        None => Seq::empty(),
    }
}

fn append_condition(conditions: &mut Vec<QueryCondition>, c: Option<QueryCondition>)
    ensures
        conditions_view(final(conditions)@) == conditions_view(old(conditions)@) + optional_conditions(c),
{
    let ghost before = conditions@;
    let ghost wanted = optional_conditions(c);
    if let Some(c) = c {
        conditions.push(c);
    }
    assert(conditions_view(conditions@) =~= conditions_view(before) + wanted);
}

fn title_condition(f: &EventFilter) -> (r: Option<QueryCondition>)
    ensures
        optional_conditions(r) == title_part(*f),
{
    match &f.title_contains {
        Some(t) => Some(
            QueryCondition {
                clause: own(" AND title LIKE "),
                value: BoundValue::Text(concat3("%", t.as_str(), "%")),
            },
        ),
        None => None,
    }
}

fn category_condition(f: &EventFilter) -> (r: Option<QueryCondition>)
    ensures
        optional_conditions(r) == category_part(*f),
{
    match &f.category_id {
        Some(c) => Some(
            QueryCondition { clause: own(" AND category_id = "), value: BoundValue::Text(own(c.as_str())) },
        ),
        None => None,
    }
}

fn organizer_condition(f: &EventFilter) -> (r: Option<QueryCondition>)
    ensures
        optional_conditions(r) == organizer_part(*f),
{
    match f.organizer_id {
        Some(o) => Some(
            QueryCondition { clause: own(" AND organizer_id = "), value: BoundValue::Text(uuid_to_string(o)) },
        ),
        None => None,
    }
}

fn privacy_condition(f: &EventFilter) -> (r: Option<QueryCondition>)
    ensures
        optional_conditions(r) == privacy_part(*f),
{
    match f.is_private {
        Some(p) => Some(QueryCondition { clause: own(" AND is_private = "), value: BoundValue::Flag(p) }),
        None => None,
    }
}

fn status_condition(f: &EventFilter) -> (r: Option<QueryCondition>)
    ensures
        optional_conditions(r) == status_part(*f),
{
    match &f.status {
        Some(s) => Some(
            QueryCondition {
                clause: own(" AND status = "),
                value: BoundValue::Text(own(event_status_to_string(s))),
            },
        ),
        None => None,
    }
}

fn location_condition(f: &EventFilter) -> (r: Option<QueryCondition>)
    ensures
        optional_conditions(r) == location_part(*f),
{
    match &f.location_type {
        Some(l) => Some(
            QueryCondition {
                clause: own(" AND location_type = "),
                value: BoundValue::Text(own(location_type_to_string(l))),
            },
        ),
        None => None,
    }
}

fn from_condition(f: &EventFilter) -> (r: Option<QueryCondition>)
    ensures
        optional_conditions(r) == from_part(*f),
{
    match f.start_date_from {
        Some(ms) => Some(QueryCondition { clause: own(" AND start_date >= "), value: BoundValue::Instant(ms) }),
        None => None,
    }
}

fn to_condition(f: &EventFilter) -> (r: Option<QueryCondition>)
    ensures
        optional_conditions(r) == to_part(*f),
{
    match f.start_date_to {
        Some(ms) => Some(QueryCondition { clause: own(" AND start_date <= "), value: BoundValue::Instant(ms) }),
        None => None,
    }
}

/// The conditions that `filter` adds to an event listing.
pub fn event_filter_conditions(filter: &EventFilter) -> (r: Vec<QueryCondition>)
    ensures
        conditions_view(r@) == filter_conditions(*filter),
{
    let mut r: Vec<QueryCondition> = Vec::new();
    let ghost f = *filter;
    assert(conditions_view(r@) =~= Seq::empty());
    append_condition(&mut r, title_condition(filter));
    assert(conditions_view(r@) =~= title_part(f));
    append_condition(&mut r, category_condition(filter));
    append_condition(&mut r, organizer_condition(filter));
    append_condition(&mut r, privacy_condition(filter));
    append_condition(&mut r, status_condition(filter));
    append_condition(&mut r, location_condition(filter));
    append_condition(&mut r, from_condition(filter));
    append_condition(&mut r, to_condition(filter));
    r
}

} // verus!
