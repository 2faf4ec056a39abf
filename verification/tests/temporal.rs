use sparka::instant::{Instant, InstantError};
use sparka::overlay::{get_overlay_priority, should_show_overlay};
use sparka::storage::TicketRecord;
use sparka::window::{
    is_active, is_record_active, priority, priority_of_record, whole_minutes_until,
};

const T: i64 = 1_737_367_200; // 2025-01-20T10:00:00Z

fn at(secs: i64) -> Instant {
    Instant { secs, nanos: 0 }
}

fn ticket(event_date: &str) -> TicketRecord {
    TicketRecord {
        id: 1,
        event_id: "evt".to_string(),
        analysis: "{}".to_string(),
        raw_content: "raw".to_string(),
        created_at: "2025-01-01T00:00:00Z".to_string(),
        event_date: event_date.to_string(),
    }
}

#[test]
fn exact_match_is_active_with_priority_90() {
    assert!(is_active(at(T), at(T)));
    assert_eq!(priority(at(T), at(T)), 90);
    assert_eq!(whole_minutes_until(at(T), at(T)), 0);
}

#[test]
fn event_59_minutes_ahead_has_priority_80() {
    assert_eq!(priority(at(T + 59 * 60), at(T)), 80);
    assert!(is_active(at(T + 59 * 60), at(T)));
}

#[test]
fn event_two_hours_back_is_inactive_with_priority_100() {
    assert!(!is_active(at(T - 2 * 3600), at(T)));
    assert_eq!(priority(at(T - 2 * 3600), at(T)), 100);
}

#[test]
fn window_bounds_are_included() {
    assert!(is_active(at(T), at(T - 3600)));
    assert!(is_active(at(T), at(T + 3600)));
    assert!(!is_active(at(T), at(T - 3601)));
    assert!(!is_active(at(T), at(T + 3601)));
    assert!(!is_active(at(T), Instant { secs: T + 3600, nanos: 1 }));
    assert!(is_active(at(T), Instant { secs: T - 3601, nanos: 999_999_999 }) == false);
}

#[test]
fn priority_band_edges() {
    assert_eq!(priority(at(T + 29 * 60 + 59), at(T)), 90);
    assert_eq!(priority(at(T + 30 * 60), at(T)), 80);
    assert_eq!(priority(at(T + 59 * 60 + 59), at(T)), 80);
    assert_eq!(priority(at(T + 60 * 60), at(T)), 50);
    assert_eq!(priority(at(T + 86_400), at(T)), 50);
}

#[test]
fn minutes_truncate_toward_zero() {
    assert_eq!(whole_minutes_until(at(T - 59), at(T)), 0);
    assert_eq!(priority(at(T - 59), at(T)), 90);
    assert_eq!(whole_minutes_until(at(T - 60), at(T)), -1);
    assert_eq!(priority(at(T - 60), at(T)), 100);
    assert_eq!(whole_minutes_until(at(T), Instant { secs: T + 59, nanos: 999_999_999 }), 0);
    assert_eq!(whole_minutes_until(at(T + 119), at(T)), 1);
    assert_eq!(whole_minutes_until(at(T - 119), at(T)), -1);
}

#[test]
fn far_apart_instants_do_not_overflow() {
    let early = Instant { secs: i64::MIN, nanos: 0 };
    let late = Instant { secs: i64::MAX, nanos: u32::MAX };
    assert_eq!(priority(late, early), 50);
    assert_eq!(priority(early, late), 100);
    assert!(!is_active(early, late));
}

#[test]
fn record_without_event_time_is_inactive_and_lowest() {
    assert!(!is_record_active(None, at(T)));
    assert_eq!(priority_of_record(None, at(T)), 0);
    assert!(is_record_active(Some(at(T)), at(T)));
    assert_eq!(priority_of_record(Some(at(T + 45 * 60)), at(T)), 80);
}

#[test]
fn overlay_of_ticket_with_readable_time() {
    let t = ticket("2025-01-20T10:00:00Z");
    assert_eq!(t.get_event_datetime(), Ok(at(T)));
    assert!(should_show_overlay(&t, at(T)));
    assert!(should_show_overlay(&t, at(T + 3600)));
    assert!(!should_show_overlay(&t, at(T + 3601)));
    assert_eq!(get_overlay_priority(&t, at(T)), 90);
    assert_eq!(get_overlay_priority(&t, at(T - 59 * 60)), 80);
    assert_eq!(get_overlay_priority(&t, at(T + 2 * 3600)), 100);
}

#[test]
fn overlay_of_ticket_with_unreadable_time() {
    for text in ["", "tomorrow", "2025-01-20T10:00:00", "2025-13-40T10:00:00Z"] {
        let t = ticket(text);
        assert_eq!(t.get_event_datetime(), Err(InstantError::Unreadable));
        assert!(!should_show_overlay(&t, at(T)));
        assert_eq!(get_overlay_priority(&t, at(T)), 0);
    }
}
