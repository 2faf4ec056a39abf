use sparka::calendar::{
    analysis_from_completion, calendar_users, parse_ticket_analysis, ticket_event_draft,
    AclResponse, AclRule, AclScope, AnalysisError, TicketAnalysis,
};
use sparka::overlay::{format_overlay_text, overlay_text_for};
use sparka::storage::TicketRecord;

fn rule(kind: Option<&str>, value: Option<&str>) -> AclRule {
    AclRule {
        id: "rule".to_string(),
        scope: kind.map(|k| AclScope { type_: k.to_string(), value: value.map(|v| v.to_string()) }),
        role: "reader".to_string(),
    }
}

fn full() -> TicketAnalysis {
    TicketAnalysis {
        event_name: "Jazz Night".to_string(),
        event_date: "2025-03-01".to_string(),
        event_time: "20:30".to_string(),
        venue: "Blue Hall".to_string(),
        seat_info: Some("Row 3, Seat 14".to_string()),
        ticket_type: None,
    }
}

#[test]
fn analysis_with_all_fields() {
    let a = parse_ticket_analysis(
        r#"{"event_name": "Jazz Night", "event_date": "2025-03-01", "event_time": "20:30", "venue": "Blue Hall", "seat_info": "Row 3", "ticket_type": "VIP", "extra": 1}"#,
    )
    .unwrap();
    assert_eq!(a.event_name, "Jazz Night");
    assert_eq!(a.event_date, "2025-03-01");
    assert_eq!(a.event_time, "20:30");
    assert_eq!(a.venue, "Blue Hall");
    assert_eq!(a.seat_info.as_deref(), Some("Row 3"));
    assert_eq!(a.ticket_type.as_deref(), Some("VIP"));
}

#[test]
fn analysis_without_the_optional_fields() {
    let a = parse_ticket_analysis(
        r#"{"event_name": "E", "event_date": "D", "event_time": "T", "venue": "V", "seat_info": null}"#,
    )
    .unwrap();
    assert_eq!(a.seat_info, None);
    assert_eq!(a.ticket_type, None);
}

#[test]
fn analysis_errors() {
    let err = |text: &str| parse_ticket_analysis(text).unwrap_err();
    assert_eq!(err(""), AnalysisError::NotAnObject);
    assert_eq!(err("[]"), AnalysisError::NotAnObject);
    assert_eq!(err("\"text\""), AnalysisError::NotAnObject);
    assert_eq!(err("{\"event_name\": "), AnalysisError::NotAnObject);
    assert_eq!(err("{}"), AnalysisError::MissingField);
    assert_eq!(
        err(r#"{"event_name": "E", "event_date": "D", "event_time": "T"}"#),
        AnalysisError::MissingField
    );
    assert_eq!(
        err(r#"{"event_name": "E", "event_date": "D", "event_time": 20, "venue": "V"}"#),
        AnalysisError::MissingField
    );
    assert_eq!(
        err(r#"{"event_name": null, "event_date": "D", "event_time": "T", "venue": "V"}"#),
        AnalysisError::MissingField
    );
    assert_eq!(
        err(r#"{"event_name": "E", "event_date": "D", "event_time": "T", "venue": "V", "seat_info": 12}"#),
        AnalysisError::MalformedField
    );
    assert_eq!(
        err(r#"{"event_name": "E", "event_date": "D", "event_time": "T", "venue": "V", "ticket_type": ["x"]}"#),
        AnalysisError::MalformedField
    );
    assert_eq!(
        err(r#"{"event_name": "E", "event_date": "D", "event_time": "T", "seat_info": 12}"#),
        AnalysisError::MissingField
    );
}

#[test]
fn analysis_out_of_an_answer() {
    let a = analysis_from_completion(
        "Here it is:\n{\"event_name\": \"E\", \"event_date\": \"D\", \"event_time\": \"T\", \"venue\": \"V\"}\nDone.",
    )
    .unwrap();
    assert_eq!(a.venue, "V");
    assert_eq!(analysis_from_completion("nothing").unwrap_err(), AnalysisError::NotAnObject);
    assert_eq!(analysis_from_completion("} {").unwrap_err(), AnalysisError::NotAnObject);
    assert_eq!(analysis_from_completion("{ {").unwrap_err(), AnalysisError::NotAnObject);
    assert_eq!(analysis_from_completion("so: {} ok").unwrap_err(), AnalysisError::MissingField);
}

#[test]
fn users_named_by_access_rules() {
    let response = AclResponse {
        items: vec![
            rule(Some("user"), Some("ann@example.com")),
            rule(Some("group"), Some("team@example.com")),
            rule(None, None),
            rule(Some("user"), None),
            rule(Some("User"), Some("upper@example.com")),
            rule(Some("user"), Some("bob@example.com")),
            rule(Some("default"), None),
            rule(Some("user"), Some("ann@example.com")),
        ],
    };
    assert_eq!(
        calendar_users(&response),
        vec!["ann@example.com", "bob@example.com", "ann@example.com"]
    );
    assert!(calendar_users(&AclResponse { items: Vec::new() }).is_empty());
}

#[test]
fn event_draft_of_a_ticket() {
    let draft = ticket_event_draft(&full());
    assert_eq!(draft.summary, "\u{1F3AB} Jazz Night");
    assert_eq!(draft.description, "Venue: Blue Hall\nSeat: Row 3, Seat 14\nType: N/A");
    assert_eq!(draft.start_date_time, "2025-03-01T20:30:00");
    assert_eq!(draft.end_date_time, "2025-03-01T20:30:00");
    assert_eq!(draft.time_zone, "UTC");
    let mut bare = full();
    bare.seat_info = None;
    bare.ticket_type = Some("Standing".to_string());
    assert_eq!(ticket_event_draft(&bare).description, "Venue: Blue Hall\nSeat: N/A\nType: Standing");
}

#[test]
fn overlay_text_of_a_ticket() {
    assert_eq!(
        overlay_text_for(&full()),
        "\u{1F3AB} Jazz Night\n\u{1F4CD} Blue Hall\n\u{23F0} 2025-03-01 20:30"
    );
    let ticket = TicketRecord {
        id: 3,
        event_id: "e".to_string(),
        analysis: r#"{"event_name": "Match", "event_date": "2025-05-05", "event_time": "15:00", "venue": "Arena"}"#.to_string(),
        raw_content: String::new(),
        created_at: String::new(),
        event_date: "2025-05-05T15:00:00Z".to_string(),
    };
    assert_eq!(
        format_overlay_text(&ticket),
        Ok("\u{1F3AB} Match\n\u{1F4CD} Arena\n\u{23F0} 2025-05-05 15:00".to_string())
    );
    assert_eq!(ticket.parse_analysis().unwrap().event_name, "Match");
    let mut broken = ticket.clone();
    broken.analysis = "not json".to_string();
    assert_eq!(format_overlay_text(&broken), Err(AnalysisError::NotAnObject));
    broken.analysis = "{\"event_name\": \"only\"}".to_string();
    assert_eq!(format_overlay_text(&broken), Err(AnalysisError::MissingField));
    assert_eq!(broken.parse_analysis().unwrap_err(), AnalysisError::MissingField);
}
