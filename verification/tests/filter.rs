use aqio::domain::models::{EventFilter, EventStatus, LocationType};
use aqio::persistence::filter::{event_filter_conditions, BoundValue};

fn empty_filter() -> EventFilter {
    EventFilter {
        title_contains: None,
        category_id: None,
        organizer_id: None,
        is_private: None,
        status: None,
        location_type: None,
        start_date_from: None,
        start_date_to: None,
    }
}

#[test]
fn no_criteria_add_no_conditions() {
    assert!(event_filter_conditions(&empty_filter()).is_empty());
}

#[test]
fn each_criterion_adds_its_condition_in_order() {
    let filter = EventFilter {
        title_contains: Some("rust".to_string()),
        category_id: Some("tech".to_string()),
        organizer_id: Some(1),
        is_private: Some(false),
        status: Some(EventStatus::Published),
        location_type: Some(LocationType::Hybrid),
        start_date_from: Some(1_000),
        start_date_to: Some(2_000),
    };
    let conditions = event_filter_conditions(&filter);
    let clauses: Vec<&str> = conditions.iter().map(|c| c.clause.as_str()).collect();
    assert_eq!(
        clauses,
        vec![
            " AND title LIKE ",
            " AND category_id = ",
            " AND organizer_id = ",
            " AND is_private = ",
            " AND status = ",
            " AND location_type = ",
            " AND start_date >= ",
            " AND start_date <= ",
        ]
    );
    assert!(matches!(&conditions[0].value, BoundValue::Text(t) if t == "%rust%"));
    assert!(matches!(&conditions[1].value, BoundValue::Text(t) if t == "tech"));
    assert!(
        matches!(&conditions[2].value, BoundValue::Text(t) if t == "00000000-0000-0000-0000-000000000001")
    );
    assert!(matches!(&conditions[3].value, BoundValue::Flag(false)));
    assert!(matches!(&conditions[4].value, BoundValue::Text(t) if t == "published"));
    assert!(matches!(&conditions[5].value, BoundValue::Text(t) if t == "hybrid"));
    assert!(matches!(&conditions[6].value, BoundValue::Instant(1_000)));
    assert!(matches!(&conditions[7].value, BoundValue::Instant(2_000)));
}

#[test]
fn only_given_criteria_add_conditions() {
    let mut filter = empty_filter();
    filter.status = Some(EventStatus::Draft);
    filter.start_date_to = Some(5);
    let conditions = event_filter_conditions(&filter);
    assert_eq!(conditions.len(), 2);
    assert_eq!(conditions[0].clause, " AND status = ");
    assert!(matches!(&conditions[0].value, BoundValue::Text(t) if t == "draft"));
    assert_eq!(conditions[1].clause, " AND start_date <= ");
}
