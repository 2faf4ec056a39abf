use sparka::confidence::Confidence;
use sparka::generator::{
    bind_to_goal, read_candidates, suggestion_from_candidate, suggestions_from_candidates,
    SuggestionCandidate, SuggestionEngine, TimeField,
};
use sparka::instant::Instant;
use sparka::scheduler::{ScheduleRequest, ScheduleSuggestion, SuggestionStatus};

const T: i64 = 1_737_367_200; // 2025-01-20T10:00:00Z

fn now() -> Instant {
    Instant { secs: T, nanos: 0 }
}

fn at(secs: i64) -> Instant {
    Instant { secs, nanos: 0 }
}

fn score(s: &ScheduleSuggestion) -> f64 {
    f64::from_bits(s.confidence_score.to_double_bits())
}

fn candidate(start: TimeField, end: TimeField) -> SuggestionCandidate {
    SuggestionCandidate {
        title: None,
        description: None,
        start_time: start,
        end_time: end,
        confidence_bits: None,
        reasoning: None,
    }
}

#[test]
fn one_of_three_items_lacks_its_start() {
    let answer = r#"{"suggestions": [
        {"title": "Morning run", "start_time": "2025-01-21T07:00:00Z", "end_time": "2025-01-21T08:00:00Z", "confidence_score": 0.9},
        {"title": "No start", "end_time": "2025-01-22T08:00:00Z", "confidence_score": 0.8},
        {"title": "Evening run", "start_time": "2025-01-23T18:00:00Z", "end_time": "2025-01-23T19:00:00Z", "confidence_score": 0.7}
    ]}"#;
    let batch = SuggestionEngine::new().parse_suggestions(answer, "run", now());
    assert_eq!(batch.len(), 2);
    assert_eq!(batch[0].title, "Morning run");
    assert_eq!(batch[0].id, "suggestion_0");
    assert_eq!(batch[1].title, "Evening run");
    assert_eq!(batch[1].id, "suggestion_2");
    assert_eq!(batch[0].start_time, at(1_737_442_800));
    assert_eq!(batch[0].end_time, at(1_737_446_400));
    for s in &batch {
        assert_eq!(s.status, SuggestionStatus::Pending);
        assert_eq!(s.goal_id, "goal_temp");
        assert_eq!(s.created_at, now());
        assert!(s.start_time.is_before(&s.end_time));
    }
}

#[test]
fn scores_are_clamped_to_the_unit_interval() {
    let answer = r#"{"suggestions": [
        {"start_time": "2025-01-21T07:00:00Z", "end_time": "2025-01-21T08:00:00Z", "confidence_score": 1.5},
        {"start_time": "2025-01-21T07:00:00Z", "end_time": "2025-01-21T08:00:00Z", "confidence_score": -0.2},
        {"start_time": "2025-01-21T07:00:00Z", "end_time": "2025-01-21T08:00:00Z", "confidence_score": 0.85},
        {"start_time": "2025-01-21T07:00:00Z", "end_time": "2025-01-21T08:00:00Z"},
        {"start_time": "2025-01-21T07:00:00Z", "end_time": "2025-01-21T08:00:00Z", "confidence_score": "high"},
        {"start_time": "2025-01-21T07:00:00Z", "end_time": "2025-01-21T08:00:00Z", "confidence_score": 1},
        {"start_time": "2025-01-21T07:00:00Z", "end_time": "2025-01-21T08:00:00Z", "confidence_score": 0},
        {"start_time": "2025-01-21T07:00:00Z", "end_time": "2025-01-21T08:00:00Z", "confidence_score": 7},
        {"start_time": "2025-01-21T07:00:00Z", "end_time": "2025-01-21T08:00:00Z", "confidence_score": -3},
        {"start_time": "2025-01-21T07:00:00Z", "end_time": "2025-01-21T08:00:00Z", "confidence_score": 1e300},
        {"start_time": "2025-01-21T07:00:00Z", "end_time": "2025-01-21T08:00:00Z", "confidence_score": -0.0}
    ]}"#;
    let batch = SuggestionEngine::new().parse_suggestions(answer, "run", now());
    let scores: Vec<f64> = batch.iter().map(score).collect();
    assert_eq!(scores, vec![1.0, 0.0, 0.85, 0.5, 0.5, 1.0, 0.0, 1.0, 0.0, 1.0, 0.0]);
    for s in &batch {
        assert!(score(s) >= 0.0 && score(s) <= 1.0);
        assert!(score(s).is_sign_positive());
    }
}

#[test]
fn clamping_of_bit_patterns() {
    let clamp = |x: f64| f64::from_bits(Confidence::from_double_bits(x.to_bits()).to_double_bits());
    assert_eq!(clamp(1.5), 1.0);
    assert_eq!(clamp(-0.2), 0.0);
    assert_eq!(clamp(0.0), 0.0);
    assert_eq!(clamp(1.0), 1.0);
    assert_eq!(clamp(0.3), 0.3);
    assert_eq!(clamp(f64::MIN_POSITIVE), f64::MIN_POSITIVE);
    assert_eq!(clamp(0.999_999_999_999), 0.999_999_999_999);
    assert_eq!(clamp(1.000_000_000_001), 1.0);
    assert_eq!(clamp(f64::INFINITY), 1.0);
    assert_eq!(clamp(f64::NEG_INFINITY), 0.0);
    assert_eq!(clamp(f64::MAX), 1.0);
    assert_eq!(clamp(f64::MIN), 0.0);
    assert_eq!(f64::from_bits(Confidence::unstated().to_double_bits()), 0.5);
    let low = Confidence::from_double_bits(0.25_f64.to_bits());
    let high = Confidence::from_double_bits(0.75_f64.to_bits());
    assert!(high.at_least(&low));
    assert!(!low.at_least(&high));
    assert!(low.at_least(&low));
}

#[test]
fn defaults_of_an_item() {
    let answer = r#"{"suggestions": [{"start_time": "2025-01-21T07:00:00Z", "end_time": "2025-01-21T07:30:00Z"}]}"#;
    let batch = SuggestionEngine::new().parse_suggestions(answer, "practice the piano", now());
    assert_eq!(batch.len(), 1);
    assert_eq!(batch[0].title, "practice the piano");
    assert_eq!(batch[0].description, "");
    assert_eq!(batch[0].reasoning, "");
    assert_eq!(score(&batch[0]), 0.5);
    assert_eq!(batch[0].id, "suggestion_0");
}

#[test]
fn stated_fields_of_an_item() {
    let answer = r#"{"suggestions": [{"title": "Piano", "description": "Scales first", "reasoning": "Free slot", "start_time": "2025-01-21T07:00:00+01:00", "end_time": "2025-01-21T07:30:00+01:00", "confidence_score": 0.25}]}"#;
    let batch = SuggestionEngine::new().parse_suggestions(answer, "practice", now());
    assert_eq!(batch.len(), 1);
    assert_eq!(batch[0].title, "Piano");
    assert_eq!(batch[0].description, "Scales first");
    assert_eq!(batch[0].reasoning, "Free slot");
    assert_eq!(batch[0].start_time, at(1_737_439_200));
    assert_eq!(batch[0].end_time, at(1_737_441_000));
    assert_eq!(score(&batch[0]), 0.25);
}

#[test]
fn unreadable_answers_give_an_empty_batch() {
    let engine = SuggestionEngine::new();
    for answer in [
        "",
        "[]",
        "no json here",
        "{",
        "{\"suggestions\": [",
        "{\"suggestions\": 3}",
        "{\"suggestions\": {}}",
        "{\"suggestions\": []}",
        "{\"other\": [{\"start_time\": \"2025-01-21T07:00:00Z\", \"end_time\": \"2025-01-21T08:00:00Z\"}]}",
        "[{\"start_time\": \"2025-01-21T07:00:00Z\", \"end_time\": \"2025-01-21T08:00:00Z\"}]",
    ] {
        assert!(engine.parse_suggestions(answer, "g", now()).is_empty(), "answer {:?}", answer);
    }
}

#[test]
fn items_that_are_not_objects_are_skipped() {
    let answer = r#"Here you go: {"suggestions": [null, 5, "text", [], {}, {"start_time": "2025-01-21T07:00:00Z", "end_time": "2025-01-21T08:00:00Z"}, {"start_time": 7, "end_time": 8}]} Enjoy!"#;
    let batch = SuggestionEngine::new().parse_suggestions(answer, "g", now());
    assert_eq!(batch.len(), 1);
    assert_eq!(batch[0].id, "suggestion_5");
}

#[test]
fn items_that_do_not_end_after_they_start_are_dropped() {
    let answer = r#"{"suggestions": [
        {"start_time": "2025-01-21T08:00:00Z", "end_time": "2025-01-21T08:00:00Z"},
        {"start_time": "2025-01-21T09:00:00Z", "end_time": "2025-01-21T08:00:00Z"},
        {"start_time": "2025-01-21T08:00:00Z", "end_time": "2025-01-21T08:00:00.000000001Z"}
    ]}"#;
    let batch = SuggestionEngine::new().parse_suggestions(answer, "g", now());
    assert_eq!(batch.len(), 1);
    assert_eq!(batch[0].id, "suggestion_2");
    assert_eq!(batch[0].end_time, Instant { secs: 1_737_446_400, nanos: 1 });
}

#[test]
fn unreadable_times_fall_back_on_now() {
    let answer = r#"{"suggestions": [
        {"start_time": "tomorrow morning", "end_time": "2025-01-21T08:00:00Z"},
        {"start_time": "2025-01-20T10:30:00Z", "end_time": "a bit later"},
        {"start_time": "soon", "end_time": "later"},
        {"start_time": "2025-01-20T11:00:00Z", "end_time": "later"},
        {"start_time": "soon", "end_time": "2025-01-20T10:00:00Z"}
    ]}"#;
    let batch = SuggestionEngine::new().parse_suggestions(answer, "g", now());
    assert_eq!(batch.len(), 3);
    assert_eq!(batch[0].start_time, now());
    assert_eq!(batch[0].end_time, at(1_737_446_400));
    assert_eq!(batch[1].start_time, at(T + 1800));
    assert_eq!(batch[1].end_time, at(T + 3600));
    assert_eq!(batch[2].start_time, now());
    assert_eq!(batch[2].end_time, at(T + 3600));
    assert_eq!(batch[2].id, "suggestion_2");
}

#[test]
fn candidate_by_candidate() {
    assert!(suggestion_from_candidate(0, &candidate(TimeField::Absent, TimeField::At(at(5))), "g", now()).is_none());
    assert!(suggestion_from_candidate(0, &candidate(TimeField::At(at(5)), TimeField::Absent), "g", now()).is_none());
    assert!(suggestion_from_candidate(0, &candidate(TimeField::Absent, TimeField::Absent), "g", now()).is_none());
    assert!(suggestion_from_candidate(0, &candidate(TimeField::At(at(5)), TimeField::At(at(5))), "g", now()).is_none());
    assert!(suggestion_from_candidate(0, &candidate(TimeField::At(at(6)), TimeField::At(at(5))), "g", now()).is_none());
    let made = suggestion_from_candidate(12, &candidate(TimeField::At(at(5)), TimeField::At(at(6))), "g", now()).unwrap();
    assert_eq!(made.id, "suggestion_12");
    assert_eq!(made.title, "g");
    assert_eq!(made.start_time, at(5));
    assert_eq!(made.end_time, at(6));
    let late = Instant { secs: i64::MAX - 10, nanos: 0 };
    assert!(suggestion_from_candidate(0, &candidate(TimeField::Unreadable, TimeField::Unreadable), "g", late).is_none());
    let made = suggestion_from_candidate(usize::MAX, &candidate(TimeField::Unreadable, TimeField::Unreadable), "g", now()).unwrap();
    assert_eq!(made.id, format!("suggestion_{}", usize::MAX));
}

#[test]
fn batch_from_candidates_keeps_order_and_places() {
    let candidates = vec![
        candidate(TimeField::At(at(10)), TimeField::At(at(20))),
        candidate(TimeField::Absent, TimeField::At(at(20))),
        candidate(TimeField::At(at(30)), TimeField::At(at(40))),
        candidate(TimeField::At(at(50)), TimeField::At(at(40))),
    ];
    let batch = suggestions_from_candidates(&candidates, "goal", now());
    assert_eq!(batch.len(), 2);
    assert_eq!(batch[0].id, "suggestion_0");
    assert_eq!(batch[1].id, "suggestion_2");
    assert!(suggestions_from_candidates(&Vec::new(), "goal", now()).is_empty());
}

#[test]
fn candidates_read_from_an_answer() {
    let candidates = read_candidates(
        r#"{"suggestions": [{"title": 5, "start_time": "2025-01-20T10:00:00Z", "end_time": "x", "confidence_score": 2}, {}]}"#,
    );
    assert_eq!(candidates.len(), 2);
    assert_eq!(candidates[0].title, None);
    assert_eq!(candidates[0].start_time, TimeField::At(now()));
    assert_eq!(candidates[0].end_time, TimeField::Unreadable);
    assert_eq!(candidates[0].confidence_bits, Some(2.0_f64.to_bits()));
    assert_eq!(candidates[1].start_time, TimeField::Absent);
    assert_eq!(candidates[1].end_time, TimeField::Absent);
    assert_eq!(candidates[1].confidence_bits, None);
}

#[test]
fn binding_a_batch_to_its_goal() {
    let answer = r#"{"suggestions": [
        {"title": "A", "start_time": "2025-01-21T07:00:00Z", "end_time": "2025-01-21T08:00:00Z", "confidence_score": 0.9},
        {"title": "B", "start_time": "2025-01-22T07:00:00Z", "end_time": "2025-01-22T08:00:00Z", "confidence_score": 0.1}
    ]}"#;
    let batch = SuggestionEngine::new().parse_suggestions(answer, "g", now());
    let bound = bind_to_goal(&batch, "goal_1737367200");
    assert_eq!(bound.len(), 2);
    for (before, after) in batch.iter().zip(bound.iter()) {
        assert_eq!(after.goal_id, "goal_1737367200");
        assert_eq!(after.id, before.id);
        assert_eq!(after.title, before.title);
        assert_eq!(after.start_time, before.start_time);
        assert_eq!(after.end_time, before.end_time);
        assert_eq!(score(after), score(before));
        assert_eq!(after.status, before.status);
    }
}

#[test]
fn generate_reads_the_answer_for_the_request() {
    let request = ScheduleRequest {
        goal_description: "stretch".to_string(),
        existing_events: Vec::new(),
        preferences: Vec::new(),
        duration_minutes: 15,
    };
    let answer = r#"{"suggestions": [{"start_time": "2025-01-21T07:00:00Z", "end_time": "2025-01-21T07:15:00Z"}]}"#;
    let batch = SuggestionEngine::new().generate_suggestions(&request, answer, now());
    assert_eq!(batch.len(), 1);
    assert_eq!(batch[0].title, "stretch");
}
