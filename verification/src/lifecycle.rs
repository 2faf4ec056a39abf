//! The life of a suggestion: pending at first, then accepted, rejected or
//! expired.
//!
//! The store takes any status at any time, the last write wins. Nothing
//! expires by itself: a suggestion is expired once that status is written
//! for it. Accepting a suggestion that is not accepted yet also asks for an
//! event in the calendar; making that event is the caller's part, and the
//! status is written whether or not it succeeds.

use vstd::prelude::*;
use vstd::string::*;
use crate::calendar::{CalendarEvent, CalendarEventModel, EventTime, EventTimeModel};
use crate::keyed::{found, lemma_position_is, lemma_position_of, position_of};
use crate::scheduler::{ScheduleSuggestion, ScheduleSuggestionModel, SuggestionStatus};
use crate::storage::{suggestion_key, with_status, Database};

verus! {

/// What the user does with a suggestion.
#[derive(Clone, Copy, Debug, PartialEq, Eq)]
pub enum UserAction {
    Accept,
    Reject,
}

/// The status that an action of the user leads to.
pub open spec fn status_after(action: UserAction) -> SuggestionStatus {
    match action {
        UserAction::Accept => SuggestionStatus::Accepted,
        UserAction::Reject => SuggestionStatus::Rejected,
    }
}

/// The summary of the event made for an accepted suggestion: a marker that
/// tells where it came from, then the suggestion's title.
pub open spec fn event_summary(title: Seq<char>) -> Seq<char> {
    "\u{1F3AF} "@ + title
}

/// The event to be made in the calendar for an accepted suggestion.
pub open spec fn event_for(suggestion: ScheduleSuggestionModel) -> CalendarEventModel {
    CalendarEventModel {
        id: Seq::empty(),
        summary: event_summary(suggestion.title),
        description: Some("AI-generated schedule suggestion"@),
        start: EventTimeModel { date_time: Some(suggestion.start_time), date: None },
        end: EventTimeModel { date_time: Some(suggestion.end_time), date: None },
    }
}

/// The event that an action asks for: one where a suggestion that is in
/// the store, and not accepted yet, is accepted; none otherwise.
pub open spec fn event_asked(
    suggestions: Seq<ScheduleSuggestionModel>,
    id: Seq<char>,
    action: UserAction,
) -> Option<CalendarEventModel> {
    match (action, found(suggestions, suggestion_key(), id)) {
        (UserAction::Accept, Some(suggestion)) => if suggestion.status
            == SuggestionStatus::Accepted {
            None
        } else {
            Some(event_for(suggestion))
        },
        _ => None,
    }
}

/// The status that an action of the user leads to.
pub fn next_status(action: UserAction) -> (status: SuggestionStatus)
    ensures
        status == status_after(action),
{
    match action {
        UserAction::Accept => SuggestionStatus::Accepted,
        UserAction::Reject => SuggestionStatus::Rejected,
    }
}

/// The event to be made in the calendar for an accepted suggestion: the
/// suggestion's title behind the marker, its start and its end.
pub fn event_for_suggestion(suggestion: &ScheduleSuggestion) -> (event: CalendarEvent)
    ensures
        event@ == event_for(suggestion@),
{
    let mut summary = "\u{1F3AF} ".to_owned();
    summary.append(suggestion.title.as_str());
    CalendarEvent {
        id: String::new(),
        summary,
        description: Some("AI-generated schedule suggestion".to_owned()),
        start: EventTime { date_time: Some(suggestion.start_time), date: None },
        end: EventTime { date_time: Some(suggestion.end_time), date: None },
    }
}

/// Applies an action of the user to the suggestion stored under
/// `suggestion_id`: writes the new status, whatever the old one was, and
/// hands back the event to be made in the calendar, if the action asks for
/// one. Accepting what is accepted already asks for no second event. Where
/// no suggestion is stored under this id, nothing changes and no event is
/// asked for.
pub fn apply_action(store: &mut Database, suggestion_id: &str, action: UserAction) -> (event:
    Option<CalendarEvent>)
    ensures
        final(store).suggestions() == with_status(
            old(store).suggestions(),
            suggestion_id@,
            status_after(action),
        ),
        event.deep_view() == event_asked(old(store).suggestions(), suggestion_id@, action),
        final(store).goals() == old(store).goals(),
        final(store).tickets() == old(store).tickets(),
        final(store).settings() == old(store).settings(),
        final(store).next_ticket_id() == old(store).next_ticket_id(),
{
    let event = match action {
        UserAction::Accept => match store.get_suggestion(suggestion_id) {
            Some(suggestion) => match suggestion.status {
                SuggestionStatus::Accepted => None,
                _ => Some(event_for_suggestion(&suggestion)),
            },
            None => None,
        },
        UserAction::Reject => None,
    };
    store.update_suggestion_status(suggestion_id, next_status(action));
    event
}

/// Accepts the suggestion stored under `suggestion_id`: its status becomes
/// accepted, and the event to be made in the calendar is handed back,
/// unless the suggestion was accepted already.
pub fn accept_suggestion(store: &mut Database, suggestion_id: &str) -> (event: Option<
    CalendarEvent,
>)
    ensures
        final(store).suggestions() == with_status(
            old(store).suggestions(),
            suggestion_id@,
            SuggestionStatus::Accepted,
        ),
        event.deep_view() == event_asked(
            old(store).suggestions(),
            suggestion_id@,
            UserAction::Accept,
        ),
        final(store).goals() == old(store).goals(),
        final(store).tickets() == old(store).tickets(),
        final(store).settings() == old(store).settings(),
        final(store).next_ticket_id() == old(store).next_ticket_id(),
{
    apply_action(store, suggestion_id, UserAction::Accept)
}

/// Rejects the suggestion stored under `suggestion_id`: its status becomes
/// rejected, and nothing else happens.
pub fn reject_suggestion(store: &mut Database, suggestion_id: &str)
    ensures
        final(store).suggestions() == with_status(
            old(store).suggestions(),
            suggestion_id@,
            SuggestionStatus::Rejected,
        ),
        final(store).goals() == old(store).goals(),
        final(store).tickets() == old(store).tickets(),
        final(store).settings() == old(store).settings(),
        final(store).next_ticket_id() == old(store).next_ticket_id(),
{
    let _ = apply_action(store, suggestion_id, UserAction::Reject);
}

/// After a status has been written for a stored suggestion, that status is
/// what the store holds for it, whatever stood there before, and the rest
/// of the suggestion is as it was.
pub proof fn lemma_status_written(
    suggestions: Seq<ScheduleSuggestionModel>,
    id: Seq<char>,
    status: SuggestionStatus,
)
    requires
        found(suggestions, suggestion_key(), id) is Some,
    ensures
        found(with_status(suggestions, id, status), suggestion_key(), id) == Some(
            ScheduleSuggestionModel { status, ..found(suggestions, suggestion_key(), id)->0 },
        ),
{
    let at = position_of(suggestions, suggestion_key(), id, 0);
    lemma_position_of(suggestions, suggestion_key(), id, 0);
    lemma_position_is(with_status(suggestions, id, status), suggestion_key(), id, 0, at);
}

/// Writing a status leaves every other suggestion as it was.
pub proof fn lemma_status_keeps_others(
    suggestions: Seq<ScheduleSuggestionModel>,
    id: Seq<char>,
    status: SuggestionStatus,
    other: Seq<char>,
)
    requires
        other != id,
    ensures
        found(with_status(suggestions, id, status), suggestion_key(), other) == found(
            suggestions,
            suggestion_key(),
            other,
        ),
{
    let at = position_of(suggestions, suggestion_key(), id, 0);
    lemma_position_of(suggestions, suggestion_key(), id, 0);
    let there = position_of(suggestions, suggestion_key(), other, 0);
    lemma_position_of(suggestions, suggestion_key(), other, 0);
    lemma_position_is(with_status(suggestions, id, status), suggestion_key(), other, 0, there);
}

/// Once a suggestion has been accepted, accepting it again asks for no
/// event.
pub proof fn lemma_accept_asks_once(suggestions: Seq<ScheduleSuggestionModel>, id: Seq<char>)
    ensures
        event_asked(
            with_status(suggestions, id, SuggestionStatus::Accepted),
            id,
            UserAction::Accept,
        ) is None,
{
    let at = position_of(suggestions, suggestion_key(), id, 0);
    lemma_position_of(suggestions, suggestion_key(), id, 0);
    let once = with_status(suggestions, id, SuggestionStatus::Accepted);
    lemma_position_is(once, suggestion_key(), id, 0, at);
}

/// Writing the same status twice is the same as writing it once: a
/// suggestion that is rejected already can be rejected again.
pub proof fn lemma_status_idempotent(
    suggestions: Seq<ScheduleSuggestionModel>,
    id: Seq<char>,
    status: SuggestionStatus,
)
    ensures
        with_status(with_status(suggestions, id, status), id, status) == with_status(
            suggestions,
            id,
            status,
        ),
{
    let at = position_of(suggestions, suggestion_key(), id, 0);
    lemma_position_of(suggestions, suggestion_key(), id, 0);
    let once = with_status(suggestions, id, status);
    lemma_position_is(once, suggestion_key(), id, 0, at);
    assert(with_status(once, id, status) =~= once);
}

/// Of two statuses written one after the other, the second stands.
pub proof fn lemma_last_status_wins(
    suggestions: Seq<ScheduleSuggestionModel>,
    id: Seq<char>,
    first: SuggestionStatus,
    second: SuggestionStatus,
)
    ensures
        with_status(with_status(suggestions, id, first), id, second) == with_status(
            suggestions,
            id,
            second,
        ),
{
    let at = position_of(suggestions, suggestion_key(), id, 0);
    lemma_position_of(suggestions, suggestion_key(), id, 0);
    let once = with_status(suggestions, id, first);
    lemma_position_is(once, suggestion_key(), id, 0, at);
    assert(with_status(once, id, second) =~= with_status(suggestions, id, second));
}

} // verus!
