use sparka::calendar::{CalendarEvent, EventTime, TicketAnalysis};
use sparka::confidence::Confidence;
use sparka::generator::SuggestionEngine;
use sparka::instant::Instant;
use sparka::overlay::count_overlays;
use sparka::scheduler::{
    Frequency, GoalType, ScheduleRequest, ScheduleSuggestion, SchedulingGoal, SuggestionStatus,
    TimePreference, Weekday,
};
use sparka::state::AppState;
use sparka::storage::{Database, StorageError, TicketRecord};

const T: i64 = 1_737_367_200;

fn at(secs: i64) -> Instant {
    Instant { secs, nanos: 0 }
}

fn goal(id: &str) -> SchedulingGoal {
    SchedulingGoal {
        id: id.to_string(),
        user_id: "ann".to_string(),
        goal_type: GoalType::Hobby,
        description: "paint".to_string(),
        frequency: Frequency::Weekly,
        duration_minutes: 50,
        preferred_times: vec![TimePreference {
            day_of_week: Some(Weekday::Sun),
            start_time: "10:00".to_string(),
            end_time: "12:00".to_string(),
        }],
        created_at: at(T),
        is_active: true,
    }
}

fn suggestion(id: &str, score: f64) -> ScheduleSuggestion {
    ScheduleSuggestion {
        id: id.to_string(),
        goal_id: "goal_temp".to_string(),
        title: "t".to_string(),
        description: String::new(),
        start_time: at(T),
        end_time: at(T + 60),
        confidence_score: Confidence::from_double_bits(score.to_bits()),
        reasoning: String::new(),
        created_at: at(T),
        status: SuggestionStatus::Pending,
    }
}

fn ticket(id: i64, event_date: &str) -> TicketRecord {
    TicketRecord {
        id,
        event_id: format!("evt-{}", id),
        analysis: "{}".to_string(),
        raw_content: String::new(),
        created_at: String::new(),
        event_date: event_date.to_string(),
    }
}

fn analysis() -> TicketAnalysis {
    TicketAnalysis {
        event_name: "E".to_string(),
        event_date: "2025-01-20".to_string(),
        event_time: "10:00".to_string(),
        venue: "V".to_string(),
        seat_info: None,
        ticket_type: None,
    }
}

#[test]
fn recording_a_goal_stores_and_keeps_it() {
    let mut state = AppState::new();
    state.record_goal(goal("g1"));
    state.record_goal(goal("g2"));
    assert_eq!(state.scheduling_goals.len(), 2);
    assert_eq!(state.scheduling_goals[1].id, "g2");
    assert_eq!(state.db.get_active_goals("ann").len(), 2);
    assert_eq!(state.db.get_goal("g1").unwrap().description, "paint");
}

#[test]
fn recording_suggestions_binds_and_stores_them() {
    let mut state = AppState::new();
    state.record_goal(goal("g1"));
    let batch = vec![suggestion("suggestion_0", 0.4), suggestion("suggestion_1", 0.6)];
    let bound = state.record_suggestions("g1", &batch);
    assert_eq!(bound.len(), 2);
    assert_eq!(bound[0].goal_id, "g1");
    assert_eq!(bound[1].goal_id, "g1");
    assert_eq!(bound[0].id, "suggestion_0");
    let pending: Vec<String> =
        state.db.get_pending_suggestions("ann").into_iter().map(|s| s.id).collect();
    assert_eq!(pending, vec!["suggestion_1".to_string(), "suggestion_0".to_string()]);
    assert_eq!(state.db.get_suggestion("suggestion_0").unwrap().goal_id, "g1");
    assert!(state.suggestions.is_empty());
}

#[test]
fn storing_a_batch_stores_each_in_turn() {
    let mut db = Database::new();
    let mut again = suggestion("a", 0.9);
    again.title = "second".to_string();
    db.store_suggestions(&vec![suggestion("a", 0.1), suggestion("b", 0.2), again]);
    assert_eq!(db.get_suggestion("a").unwrap().title, "second");
    assert_eq!(
        f64::from_bits(db.get_suggestion("a").unwrap().confidence_score.to_double_bits()),
        0.9
    );
    assert!(db.get_suggestion("b").is_some());
    db.store_suggestions(&Vec::new());
    assert!(db.get_suggestion("c").is_none());
}

#[test]
fn ids_of_a_batch_differ() {
    let mut items = String::new();
    for i in 0..25 {
        if i > 0 {
            items.push(',');
        }
        items.push_str("{\"start_time\": \"2025-01-21T07:00:00Z\", \"end_time\": \"2025-01-21T08:00:00Z\"}");
    }
    let answer = format!("{{\"suggestions\": [{}]}}", items);
    let batch = SuggestionEngine::new().parse_suggestions(&answer, "g", at(T));
    assert_eq!(batch.len(), 25);
    let mut ids: Vec<String> = batch.iter().map(|s| s.id.clone()).collect();
    ids.sort();
    ids.dedup();
    assert_eq!(ids.len(), 25);
    assert_eq!(batch[10].id, "suggestion_10");
    assert_eq!(batch[24].id, "suggestion_24");
}

#[test]
fn request_for_a_goal() {
    let event = CalendarEvent {
        id: "e1".to_string(),
        summary: "Dentist".to_string(),
        description: None,
        start: EventTime { date_time: Some(at(T)), date: None },
        end: EventTime { date_time: Some(at(T + 1800)), date: None },
    };
    let request = ScheduleRequest::for_goal(&goal("g1"), vec![event]);
    assert_eq!(request.goal_description, "paint");
    assert_eq!(request.duration_minutes, 50);
    assert_eq!(request.preferences.len(), 1);
    assert_eq!(request.preferences[0].day_of_week, Some(Weekday::Sun));
    assert_eq!(request.preferences[0].start_time, "10:00");
    assert_eq!(request.existing_events.len(), 1);
    assert_eq!(request.existing_events[0].summary, "Dentist");
}

#[test]
fn status_names() {
    assert_eq!(SuggestionStatus::Pending.name(), "Pending");
    assert_eq!(SuggestionStatus::Accepted.name(), "Accepted");
    assert_eq!(SuggestionStatus::Rejected.name(), "Rejected");
    assert_eq!(SuggestionStatus::Expired.name(), "Expired");
    for status in [
        SuggestionStatus::Pending,
        SuggestionStatus::Accepted,
        SuggestionStatus::Rejected,
        SuggestionStatus::Expired,
    ] {
        assert_eq!(SuggestionStatus::from_name(status.name()), status);
    }
    assert_eq!(SuggestionStatus::from_name("pending"), SuggestionStatus::Pending);
    assert_eq!(SuggestionStatus::from_name("accepted"), SuggestionStatus::Pending);
    assert_eq!(SuggestionStatus::from_name(""), SuggestionStatus::Pending);
}

#[test]
fn overlays_are_counted() {
    let tickets = vec![
        ticket(1, "2025-01-20T10:00:00Z"),
        ticket(2, "garbage"),
        ticket(3, "2025-01-20T10:59:59Z"),
        ticket(4, "2025-01-20T12:00:00Z"),
        ticket(5, "2025-01-20T09:00:00Z"),
    ];
    assert_eq!(count_overlays(&tickets, at(T)), 3);
    assert_eq!(count_overlays(&tickets, at(T + 3600)), 3);
    assert_eq!(count_overlays(&tickets, at(T + 7201)), 1);
    assert_eq!(count_overlays(&tickets, at(T + 10801)), 0);
    assert_eq!(count_overlays(&Vec::new(), at(T)), 0);
}

#[test]
fn restored_tickets_keep_their_numbers() {
    let mut db = Database::new();
    assert_eq!(db.restore_ticket(&ticket(7, "2025-01-20T10:00:00Z")), Ok(()));
    assert_eq!(db.restore_ticket(&ticket(3, "2025-01-20T10:00:00Z")), Ok(()));
    let stored = db.store_ticket("new", &analysis(), "{}", "", at(T)).unwrap();
    assert_eq!(stored.id, 8);
    assert_eq!(db.get_ticket_by_event_id("evt-7").unwrap().id, 7);
    assert_eq!(db.get_ticket_by_event_id("evt-3").unwrap().id, 3);
    assert_eq!(db.get_active_tickets(at(T)).len(), 3);
}

#[test]
fn store_is_full_when_no_number_is_left() {
    let mut db = Database::new();
    assert_eq!(db.restore_ticket(&ticket(i64::MAX, "x")), Err(StorageError::Full));
    assert!(db.get_ticket_by_event_id(&format!("evt-{}", i64::MAX)).is_none());
    assert_eq!(db.restore_ticket(&ticket(i64::MAX - 1, "x")), Ok(()));
    assert_eq!(
        db.store_ticket("late", &analysis(), "{}", "", at(T)).unwrap_err(),
        StorageError::Full
    );
    assert!(db.get_ticket_by_event_id("late").is_none());
    assert_eq!(db.get_active_tickets(at(T)).len(), 0);
}

#[test]
fn normalized_instants() {
    assert_eq!(
        Instant { secs: 5, nanos: 2_500_000_000 }.normalized(),
        Some(Instant { secs: 7, nanos: 500_000_000 })
    );
    assert_eq!(Instant { secs: -1, nanos: 7 }.normalized(), Some(Instant { secs: -1, nanos: 7 }));
    assert_eq!(Instant { secs: i64::MAX, nanos: 999_999_999 }.normalized().unwrap().secs, i64::MAX);
    assert_eq!(Instant { secs: i64::MAX, nanos: 1_000_000_000 }.normalized(), None);
}
