//! The goal and suggestion store: keyed storage of goals, suggestions,
//! tickets and settings, with the queries the other components rely on.
//!
//! Storing under a key that is taken replaces the record there in full.
//! Nothing is ever removed. The store holds its records in memory; writing
//! them to disk, and taking them in again at the start, is the caller's
//! part.

use vstd::prelude::*;
use vstd::string::*;
use crate::calendar::{
    analysis_in, parse_ticket_analysis, AnalysisError, TicketAnalysis, TicketAnalysisModel,
};
use crate::instant::{instant_of_text, read_instant, Instant, InstantError};
use crate::keyed::{
    distinct_keys, found, kept, kept_upto, lemma_position_of, lemma_upsert_distinct, position_of,
    upserted,
};
use crate::scheduler::{
    ScheduleSuggestion, ScheduleSuggestionModel, SchedulingGoal, SchedulingGoalModel,
    SuggestionStatus,
};
use crate::text::same_text;
use crate::window::{is_record_active, record_active, within_window};

verus! {

/// Why the store did not take a record.
#[derive(Clone, Copy, Debug, PartialEq, Eq)]
pub enum StorageError {
    /// No number is left for a new ticket.
    Full,
}

/// An imported ticket as the store holds it.
#[derive(Clone, Debug)]
pub struct TicketRecord {
    pub id: i64,
    pub event_id: String,
    /// The ticket's analysis, as JSON.
    pub analysis: String,
    pub raw_content: String,
    pub created_at: String,
    /// The instant of the event, as text.
    pub event_date: String,
}

/// The mathematical content of a `TicketRecord`.
pub struct TicketRecordModel {
    pub id: i64,
    pub event_id: Seq<char>,
    pub analysis: Seq<char>,
    pub raw_content: Seq<char>,
    pub created_at: Seq<char>,
    pub event_date: Seq<char>,
}

impl View for TicketRecord {
    type V = TicketRecordModel;

    open spec fn view(&self) -> TicketRecordModel {
        TicketRecordModel {
            id: self.id,
            event_id: self.event_id@,
            analysis: self.analysis@,
            raw_content: self.raw_content@,
            created_at: self.created_at@,
            event_date: self.event_date@,
        }
    }
}

impl DeepView for TicketRecord {
    type V = TicketRecordModel;

    open spec fn deep_view(&self) -> TicketRecordModel {
        self@
    }
}

impl TicketRecord {
    /// A copy of this record.
    pub fn duplicate(&self) -> (copy: TicketRecord)
        ensures
            copy@ == self@,
    {
        TicketRecord {
            id: self.id,
            event_id: self.event_id.clone(),
            analysis: self.analysis.clone(),
            raw_content: self.raw_content.clone(),
            created_at: self.created_at.clone(),
            event_date: self.event_date.clone(),
        }
    }

    /// Reads the ticket's analysis from its JSON.
    pub fn parse_analysis(&self) -> (analysis: Result<TicketAnalysis, AnalysisError>)
        ensures
            analysis is Ok <==> analysis_in(self.analysis@) is Ok,
            analysis matches Ok(a) ==> analysis_in(self.analysis@) == Ok::<
                TicketAnalysisModel,
                AnalysisError,
            >(a@),
            analysis matches Err(e) ==> analysis_in(self.analysis@) == Err::<
                TicketAnalysisModel,
                AnalysisError,
            >(e),
    {
        parse_ticket_analysis(self.analysis.as_str())
    }

    /// Reads the instant of the ticket's event.
    pub fn get_event_datetime(&self) -> (event: Result<Instant, InstantError>)
        ensures
            match event {
                Ok(instant) => instant_of_text(self.event_date@) == Some(instant),
                Err(_) => instant_of_text(self.event_date@) is None,
            },
    {
        Instant::parse(self.event_date.as_str())
    }
}

/// The key of a goal: its id.
pub open spec fn goal_key() -> spec_fn(SchedulingGoalModel) -> Seq<char> {
    |goal: SchedulingGoalModel| goal.id
}

/// The key of a suggestion: its id.
pub open spec fn suggestion_key() -> spec_fn(ScheduleSuggestionModel) -> Seq<char> {
    |suggestion: ScheduleSuggestionModel| suggestion.id
}

/// The key of a setting.
pub open spec fn setting_key() -> spec_fn((Seq<char>, Seq<char>)) -> Seq<char> {
    |setting: (Seq<char>, Seq<char>)| setting.0
}

/// The key by which a ticket is asked for: the id of its event.
pub open spec fn ticket_event_key() -> spec_fn(TicketRecordModel) -> Seq<char> {
    |ticket: TicketRecordModel| ticket.event_id
}

/// The goals of `user_id` that are active.
pub open spec fn active_for(user_id: Seq<char>) -> spec_fn(SchedulingGoalModel) -> bool {
    |goal: SchedulingGoalModel| goal.user_id == user_id && goal.is_active
}

/// The suggestions that are pending and belong to a stored goal of
/// `user_id`.
pub open spec fn pending_for(goals: Seq<SchedulingGoalModel>, user_id: Seq<char>) -> spec_fn(
    ScheduleSuggestionModel,
) -> bool {
    |suggestion: ScheduleSuggestionModel|
        suggestion.status == SuggestionStatus::Pending && (found(
            goals,
            goal_key(),
            suggestion.goal_id,
        ) matches Some(goal) && goal.user_id == user_id)
}

/// The tickets whose event is within one hour of `now`.
pub open spec fn ticket_active_at(now: Instant) -> spec_fn(TicketRecordModel) -> bool {
    |ticket: TicketRecordModel| record_active(instant_of_text(ticket.event_date), now)
}

/// The suggestions whose start is within one hour of `now`.
pub open spec fn suggestion_active_at(now: Instant) -> spec_fn(ScheduleSuggestionModel) -> bool {
    |suggestion: ScheduleSuggestionModel| within_window(suggestion.start_time, now)
}

/// From the highest score to the lowest.
pub open spec fn by_confidence_descending(suggestions: Seq<ScheduleSuggestionModel>) -> bool {
    forall|i: int, j: int|
        0 <= i < j < suggestions.len() ==> (#[trigger] suggestions[i]).confidence_bits >= (
        #[trigger] suggestions[j]).confidence_bits
}

/// The suggestions after the one stored under `id` has been given the
/// status `status`; unchanged where none is stored under `id`.
pub open spec fn with_status(
    suggestions: Seq<ScheduleSuggestionModel>,
    id: Seq<char>,
    status: SuggestionStatus,
) -> Seq<ScheduleSuggestionModel> {
    let at = position_of(suggestions, suggestion_key(), id, 0);
    if at < suggestions.len() {
        suggestions.update(at, ScheduleSuggestionModel { status, ..suggestions[at] })
    } else {
        suggestions
    }
}

/// The suggestions after the first `n` suggestions of `batch` have been
/// stored, one after the other.
pub open spec fn upserted_all(
    suggestions: Seq<ScheduleSuggestionModel>,
    batch: Seq<ScheduleSuggestionModel>,
    n: nat,
) -> Seq<ScheduleSuggestionModel>
    decreases n,
{
    if n == 0 {
        suggestions
    } else {
        upserted(upserted_all(suggestions, batch, (n - 1) as nat), suggestion_key(), batch[n - 1])
    }
}

/// The value that `settings` holds under `key`.
pub open spec fn setting_value(settings: Seq<(Seq<char>, Seq<char>)>, key: Seq<char>) -> Option<
    Seq<char>,
> {
    match found(settings, setting_key(), key) {
        Some(setting) => Some(setting.1),
        None => None,
    }
}

/// The text under which the time of storing is kept: the canonical text of
/// `now`, empty where there is none.
pub open spec fn stored_at_text(now: Instant) -> Seq<char> {
    match now.canonical_text_of() {
        Some(text) => text,
        None => Seq::empty(),
    }
}

/// The goals after the one stored under `id` has been switched on or off;
/// unchanged where none is stored under `id`.
pub open spec fn with_active(
    goals: Seq<SchedulingGoalModel>,
    id: Seq<char>,
    is_active: bool,
) -> Seq<SchedulingGoalModel> {
    let at = position_of(goals, goal_key(), id, 0);
    if at < goals.len() {
        goals.update(at, SchedulingGoalModel { is_active, ..goals[at] })
    } else {
        goals
    }
}

/// The text under which a ticket's event time is stored: date, `T`, time
/// of day, and `:00Z` for the seconds and the offset.
pub open spec fn ticket_event_text(event_date: Seq<char>, event_time: Seq<char>) -> Seq<char> {
    event_date + "T"@ + event_time + ":00Z"@
}

/// The store.
#[derive(Debug)]
pub struct Database {
    goals: Vec<SchedulingGoal>,
    suggestions: Vec<ScheduleSuggestion>,
    tickets: Vec<TicketRecord>,
    settings: Vec<(String, String)>,
    next_ticket_id: i64,
}

impl Database {
    #[verifier::type_invariant]
    spec fn well_formed(self) -> bool {
        &&& distinct_keys(self.goals.deep_view(), goal_key())
        &&& distinct_keys(self.suggestions.deep_view(), suggestion_key())
        &&& distinct_keys(self.settings.deep_view(), setting_key())
        &&& self.next_ticket_id >= 1
    }

    /// The goals in the store.
    pub closed spec fn goals(self) -> Seq<SchedulingGoalModel> {
        self.goals.deep_view()
    }

    /// The suggestions in the store.
    pub closed spec fn suggestions(self) -> Seq<ScheduleSuggestionModel> {
        self.suggestions.deep_view()
    }

    /// The tickets in the store, in the order they were stored.
    pub closed spec fn tickets(self) -> Seq<TicketRecordModel> {
        self.tickets.deep_view()
    }

    /// The settings in the store, each a key with its value.
    pub closed spec fn settings(self) -> Seq<(Seq<char>, Seq<char>)> {
        self.settings.deep_view()
    }

    /// The number that the next ticket gets.
    pub closed spec fn next_ticket_id(self) -> int {
        self.next_ticket_id as int
    }

    /// An empty store.
    pub fn new() -> (store: Database)
        ensures
            store.goals() == Seq::<SchedulingGoalModel>::empty(),
            store.suggestions() == Seq::<ScheduleSuggestionModel>::empty(),
            store.tickets() == Seq::<TicketRecordModel>::empty(),
            store.settings() == Seq::<(Seq<char>, Seq<char>)>::empty(),
            store.next_ticket_id() == 1,
    {
        let store = Database {
            goals: Vec::new(),
            suggestions: Vec::new(),
            tickets: Vec::new(),
            settings: Vec::new(),
            next_ticket_id: 1,
        };
        assert(store.goals.deep_view() =~= Seq::empty());
        assert(store.suggestions.deep_view() =~= Seq::empty());
        assert(store.tickets.deep_view() =~= Seq::empty());
        assert(store.settings.deep_view() =~= Seq::empty());
        store
    }

    fn goal_slot(&self, id: &str) -> (at: usize)
        ensures
            at == position_of(self.goals(), goal_key(), id@, 0),
            at <= self.goals.len(),
    {
        let mut at: usize = 0;
        while at < self.goals.len()
            invariant
                at <= self.goals.len(),
                position_of(self.goals.deep_view(), goal_key(), id@, 0) == position_of(
                    self.goals.deep_view(),
                    goal_key(),
                    id@,
                    at as int,
                ),
            decreases self.goals.len() - at,
        {
            assert(self.goals.deep_view()[at as int] == self.goals[at as int]@);
            if same_text(self.goals[at].id.as_str(), id) {
                return at;
            }
            at += 1;
        }
        at
    }

    fn suggestion_slot(&self, id: &str) -> (at: usize)
        ensures
            at == position_of(self.suggestions(), suggestion_key(), id@, 0),
            at <= self.suggestions.len(),
    {
        let mut at: usize = 0;
        while at < self.suggestions.len()
            invariant
                at <= self.suggestions.len(),
                position_of(self.suggestions.deep_view(), suggestion_key(), id@, 0) == position_of(
                    self.suggestions.deep_view(),
                    suggestion_key(),
                    id@,
                    at as int,
                ),
            decreases self.suggestions.len() - at,
        {
            assert(self.suggestions.deep_view()[at as int] == self.suggestions[at as int]@);
            if same_text(self.suggestions[at].id.as_str(), id) {
                return at;
            }
            at += 1;
        }
        at
    }

    fn setting_slot(&self, key: &str) -> (at: usize)
        ensures
            at == position_of(self.settings(), setting_key(), key@, 0),
            at <= self.settings.len(),
    {
        let mut at: usize = 0;
        while at < self.settings.len()
            invariant
                at <= self.settings.len(),
                position_of(self.settings.deep_view(), setting_key(), key@, 0) == position_of(
                    self.settings.deep_view(),
                    setting_key(),
                    key@,
                    at as int,
                ),
            decreases self.settings.len() - at,
        {
            assert(self.settings.deep_view()[at as int] == self.settings[at as int].deep_view());
            if same_text(self.settings[at].0.as_str(), key) {
                return at;
            }
            at += 1;
        }
        at
    }

    /// Stores a goal under its id. A goal already stored under this id is
    /// replaced in full.
    pub fn store_scheduling_goal(&mut self, goal: &SchedulingGoal)
        ensures
            final(self).goals() == upserted(old(self).goals(), goal_key(), goal@),
            found(final(self).goals(), goal_key(), goal.id@) == Some(goal@),
            final(self).suggestions() == old(self).suggestions(),
            final(self).tickets() == old(self).tickets(),
            final(self).settings() == old(self).settings(),
            final(self).next_ticket_id() == old(self).next_ticket_id(),
    {
        let at = self.goal_slot(goal.id.as_str());
        let copy = goal.duplicate();
        proof {
            use_type_invariant(&*self);
            lemma_upsert_distinct(self.goals.deep_view(), goal_key(), goal@);
            crate::keyed::lemma_upsert_then_find(self.goals.deep_view(), goal_key(), goal@);
        }
        let mut goals: Vec<SchedulingGoal> = Vec::new();
        std::mem::swap(&mut self.goals, &mut goals);
        if at < goals.len() {
            goals.set(at, copy);
        } else {
            goals.push(copy);
        }
        assert(goals.deep_view() =~= upserted(old(self).goals.deep_view(), goal_key(), goal@));
        self.goals = goals;
    }

    /// The goal stored under `id`.
    pub fn get_goal(&self, id: &str) -> (goal: Option<SchedulingGoal>)
        ensures
            goal.deep_view() == found(self.goals(), goal_key(), id@),
            distinct_keys(self.goals(), goal_key()),
    {
        proof {
            use_type_invariant(self);
        }
        let at = self.goal_slot(id);
        if at < self.goals.len() {
            assert(self.goals.deep_view()[at as int] == self.goals[at as int]@);
            Some(self.goals[at].duplicate())
        } else {
            None
        }
    }

    /// Switches the goal stored under `goal_id` on or off; a goal that is
    /// switched off stays in the store. Where no goal is stored under this
    /// id, nothing changes.
    pub fn set_goal_active(&mut self, goal_id: &str, is_active: bool)
        ensures
            final(self).goals() == with_active(old(self).goals(), goal_id@, is_active),
            final(self).suggestions() == old(self).suggestions(),
            final(self).tickets() == old(self).tickets(),
            final(self).settings() == old(self).settings(),
            final(self).next_ticket_id() == old(self).next_ticket_id(),
    {
        let at = self.goal_slot(goal_id);
        if at < self.goals.len() {
            let mut updated = self.goals[at].duplicate();
            updated.is_active = is_active;
            proof {
                use_type_invariant(&*self);
                lemma_position_of(self.goals.deep_view(), goal_key(), goal_id@, 0);
                assert(self.goals.deep_view()[at as int] == self.goals[at as int]@);
                lemma_with_active_distinct(self.goals.deep_view(), goal_id@, is_active);
            }
            let mut goals: Vec<SchedulingGoal> = Vec::new();
            std::mem::swap(&mut self.goals, &mut goals);
            goals.set(at, updated);
            assert(goals.deep_view() =~= with_active(
                old(self).goals.deep_view(),
                goal_id@,
                is_active,
            ));
            self.goals = goals;
        }
    }

    /// The active goals of a user, in the order of the store.
    pub fn get_active_goals(&self, user_id: &str) -> (goals: Vec<SchedulingGoal>)
        ensures
            goals.deep_view() == kept(self.goals(), active_for(user_id@)),
    {
        let mut goals: Vec<SchedulingGoal> = Vec::new();
        let mut at: usize = 0;
        assert(goals.deep_view() =~= kept_upto(self.goals.deep_view(), active_for(user_id@), 0));
        while at < self.goals.len()
            invariant
                at <= self.goals.len(),
                goals.deep_view() == kept_upto(
                    self.goals.deep_view(),
                    active_for(user_id@),
                    at as nat,
                ),
            decreases self.goals.len() - at,
        {
            let ghost before = goals.deep_view();
            let one = &self.goals[at];
            assert(self.goals.deep_view()[at as int] == one@);
            if one.is_active && same_text(one.user_id.as_str(), user_id) {
                goals.push(one.duplicate());
                assert(goals.deep_view() =~= before.push(one@));
            }
            at += 1;
        }
        goals
    }

    /// Stores a suggestion under its id. A suggestion already stored under
    /// this id is replaced in full.
    pub fn store_schedule_suggestion(&mut self, suggestion: &ScheduleSuggestion)
        ensures
            final(self).suggestions() == upserted(
                old(self).suggestions(),
                suggestion_key(),
                suggestion@,
            ),
            found(final(self).suggestions(), suggestion_key(), suggestion.id@) == Some(
                suggestion@,
            ),
            final(self).goals() == old(self).goals(),
            final(self).tickets() == old(self).tickets(),
            final(self).settings() == old(self).settings(),
            final(self).next_ticket_id() == old(self).next_ticket_id(),
    {
        let at = self.suggestion_slot(suggestion.id.as_str());
        let copy = suggestion.duplicate();
        proof {
            use_type_invariant(&*self);
            lemma_upsert_distinct(self.suggestions.deep_view(), suggestion_key(), suggestion@);
            crate::keyed::lemma_upsert_then_find(
                self.suggestions.deep_view(),
                suggestion_key(),
                suggestion@,
            );
        }
        let mut suggestions: Vec<ScheduleSuggestion> = Vec::new();
        std::mem::swap(&mut self.suggestions, &mut suggestions);
        if at < suggestions.len() {
            suggestions.set(at, copy);
        } else {
            suggestions.push(copy);
        }
        assert(suggestions.deep_view() =~= upserted(
            old(self).suggestions.deep_view(),
            suggestion_key(),
            suggestion@,
        ));
        self.suggestions = suggestions;
    }

    /// Stores each suggestion of a batch, in the batch's order.
    pub fn store_suggestions(&mut self, batch: &Vec<ScheduleSuggestion>)
        ensures
            final(self).suggestions() == upserted_all(
                old(self).suggestions(),
                batch.deep_view(),
                batch.len() as nat,
            ),
            final(self).goals() == old(self).goals(),
            final(self).tickets() == old(self).tickets(),
            final(self).settings() == old(self).settings(),
            final(self).next_ticket_id() == old(self).next_ticket_id(),
    {
        let mut at: usize = 0;
        while at < batch.len()
            invariant
                at <= batch.len(),
                self.suggestions() == upserted_all(
                    old(self).suggestions(),
                    batch.deep_view(),
                    at as nat,
                ),
                self.goals() == old(self).goals(),
                self.tickets() == old(self).tickets(),
                self.settings() == old(self).settings(),
                self.next_ticket_id() == old(self).next_ticket_id(),
            decreases batch.len() - at,
        {
            assert(batch.deep_view()[at as int] == batch[at as int]@);
            self.store_schedule_suggestion(&batch[at]);
            at += 1;
        }
    }

    /// The suggestion stored under `id`.
    pub fn get_suggestion(&self, id: &str) -> (suggestion: Option<ScheduleSuggestion>)
        ensures
            suggestion.deep_view() == found(self.suggestions(), suggestion_key(), id@),
            distinct_keys(self.suggestions(), suggestion_key()),
    {
        proof {
            use_type_invariant(self);
        }
        let at = self.suggestion_slot(id);
        if at < self.suggestions.len() {
            assert(self.suggestions.deep_view()[at as int] == self.suggestions[at as int]@);
            Some(self.suggestions[at].duplicate())
        } else {
            None
        }
    }

    /// Gives the suggestion stored under `suggestion_id` the status
    /// `status`, whatever its status was. Where no suggestion is stored
    /// under this id, nothing changes.
    pub fn update_suggestion_status(&mut self, suggestion_id: &str, status: SuggestionStatus)
        ensures
            final(self).suggestions() == with_status(
                old(self).suggestions(),
                suggestion_id@,
                status,
            ),
            final(self).goals() == old(self).goals(),
            final(self).tickets() == old(self).tickets(),
            final(self).settings() == old(self).settings(),
            final(self).next_ticket_id() == old(self).next_ticket_id(),
    {
        let at = self.suggestion_slot(suggestion_id);
        if at < self.suggestions.len() {
            let updated = self.suggestions[at].with_status(status);
            proof {
                use_type_invariant(&*self);
                lemma_position_of(
                    self.suggestions.deep_view(),
                    suggestion_key(),
                    suggestion_id@,
                    0,
                );
                assert(self.suggestions.deep_view()[at as int] == self.suggestions[at as int]@);
                lemma_with_status_distinct(self.suggestions.deep_view(), suggestion_id@, status);
            }
            let mut suggestions: Vec<ScheduleSuggestion> = Vec::new();
            std::mem::swap(&mut self.suggestions, &mut suggestions);
            suggestions.set(at, updated);
            assert(suggestions.deep_view() =~= with_status(
                old(self).suggestions.deep_view(),
                suggestion_id@,
                status,
            ));
            self.suggestions = suggestions;
        }
    }

    /// The pending suggestions for the goals of a user, from the highest
    /// score to the lowest.
    pub fn get_pending_suggestions(&self, user_id: &str) -> (pending: Vec<ScheduleSuggestion>)
        ensures
            by_confidence_descending(pending.deep_view()),
            pending.deep_view().to_multiset() == kept(
                self.suggestions(),
                pending_for(self.goals(), user_id@),
            ).to_multiset(),
            pending.len() == kept(self.suggestions(), pending_for(self.goals(), user_id@)).len(),
    {
        let mut pending: Vec<ScheduleSuggestion> = Vec::new();
        let mut at: usize = 0;
        let ghost keep = pending_for(self.goals.deep_view(), user_id@);
        assert(pending.deep_view() =~= kept_upto(self.suggestions.deep_view(), keep, 0));
        while at < self.suggestions.len()
            invariant
                at <= self.suggestions.len(),
                keep == pending_for(self.goals.deep_view(), user_id@),
                by_confidence_descending(pending.deep_view()),
                pending.deep_view().to_multiset() == kept_upto(
                    self.suggestions.deep_view(),
                    keep,
                    at as nat,
                ).to_multiset(),
                pending.len() == kept_upto(self.suggestions.deep_view(), keep, at as nat).len(),
            decreases self.suggestions.len() - at,
        {
            let one = &self.suggestions[at];
            assert(self.suggestions.deep_view()[at as int] == one@);
            let is_pending = match one.status {
                SuggestionStatus::Pending => true,
                _ => false,
            };
            let slot = self.goal_slot(one.goal_id.as_str());
            let mut belongs = false;
            if slot < self.goals.len() {
                assert(self.goals.deep_view()[slot as int] == self.goals[slot as int]@);
                belongs = same_text(self.goals[slot].user_id.as_str(), user_id);
            }
            assert((is_pending && belongs) == keep(one@));
            if is_pending && belongs {
                let mut place: usize = 0;
                while place < pending.len() && pending[place].confidence_score.at_least(
                    &one.confidence_score,
                )
                    invariant
                        place <= pending.len(),
                        forall|i: int|
                            0 <= i < place ==> (#[trigger] pending[i]).confidence_score.bits()
                                >= one.confidence_score.bits(),
                    decreases pending.len() - place,
                {
                    place += 1;
                }
                let ghost before = pending.deep_view();
                let ghost before_items = pending@;
                pending.insert(place, one.duplicate());
                proof {
                    assert(pending.deep_view() =~= before.insert(place as int, one@));
                    vstd::seq_lib::to_multiset_insert(before, place as int, one@);
                    vstd::seq_lib::to_multiset_build(
                        kept_upto(self.suggestions.deep_view(), keep, at as nat),
                        one@,
                    );
                    assert forall|i: int, j: int| 0 <= i < j < pending.deep_view().len() implies (
                    #[trigger] pending.deep_view()[i]).confidence_bits >= (
                    #[trigger] pending.deep_view()[j]).confidence_bits by {
                        let after = pending.deep_view();
                        if j < place {
                            assert(after[i] == before[i] && after[j] == before[j]);
                        } else if j == place {
                            assert(after[i] == before[i]);
                            assert(before[i] == before_items[i]@);
                        } else if i < place {
                            assert(after[i] == before[i] && after[j] == before[j - 1]);
                        } else if i == place {
                            assert(after[j] == before[j - 1]);
                            assert(before[j - 1] == before_items[j - 1]@);
                            assert(before[place as int] == before_items[place as int]@);
                        } else {
                            assert(after[i] == before[i - 1] && after[j] == before[j - 1]);
                        }
                    }
                }
            }
            at += 1;
        }
        pending
    }

    /// The suggestions whose start is within one hour of `now`, in the order
    /// of the store.
    pub fn get_active_suggestions(&self, now: Instant) -> (active: Vec<ScheduleSuggestion>)
        ensures
            active.deep_view() == kept(self.suggestions(), suggestion_active_at(now)),
    {
        let mut active: Vec<ScheduleSuggestion> = Vec::new();
        let mut at: usize = 0;
        assert(active.deep_view() =~= kept_upto(
            self.suggestions.deep_view(),
            suggestion_active_at(now),
            0,
        ));
        while at < self.suggestions.len()
            invariant
                at <= self.suggestions.len(),
                active.deep_view() == kept_upto(
                    self.suggestions.deep_view(),
                    suggestion_active_at(now),
                    at as nat,
                ),
            decreases self.suggestions.len() - at,
        {
            let ghost before = active.deep_view();
            let one = &self.suggestions[at];
            assert(self.suggestions.deep_view()[at as int] == one@);
            if crate::window::is_active(one.start_time, now) {
                active.push(one.duplicate());
                assert(active.deep_view() =~= before.push(one@));
            }
            at += 1;
        }
        active
    }

    /// Stores an imported ticket under the next free number: the id of its
    /// event, its analysis as JSON, its raw content, the canonical text of
    /// `now` as the time of storing (empty where `now` cannot be written),
    /// and the event's instant as text, made of the analysis' date and time
    /// of day. Hands back the record as stored. Fails, and changes nothing,
    /// when no number is left.
    pub fn store_ticket(
        &mut self,
        event_id: &str,
        analysis: &TicketAnalysis,
        analysis_json: &str,
        raw_content: &str,
        now: Instant,
    ) -> (stored: Result<TicketRecord, StorageError>)
        ensures
            stored is Err <==> old(self).next_ticket_id() == i64::MAX,
            stored is Err ==> final(self).tickets() == old(self).tickets(),
            stored is Err ==> final(self).next_ticket_id() == old(self).next_ticket_id(),
            stored matches Ok(ticket) ==> ticket@ == (TicketRecordModel {
                id: old(self).next_ticket_id() as i64,
                event_id: event_id@,
                analysis: analysis_json@,
                raw_content: raw_content@,
                created_at: stored_at_text(now),
                event_date: ticket_event_text(analysis.event_date@, analysis.event_time@),
            }),
            stored matches Ok(ticket) ==> final(self).tickets() == old(self).tickets().push(
                ticket@,
            ),
            stored is Ok ==> final(self).next_ticket_id() == old(self).next_ticket_id() + 1,
            final(self).goals() == old(self).goals(),
            final(self).suggestions() == old(self).suggestions(),
            final(self).settings() == old(self).settings(),
    {
        proof {
            use_type_invariant(&*self);
        }
        if self.next_ticket_id == i64::MAX {
            return Err(StorageError::Full);
        }
        let created_at = match now.canonical_text() {
            Some(text) => text,
            None => String::new(),
        };
        let mut event_date = analysis.event_date.clone();
        event_date.append("T");
        event_date.append(analysis.event_time.as_str());
        event_date.append(":00Z");
        let ticket = TicketRecord {
            id: self.next_ticket_id,
            event_id: event_id.to_owned(),
            analysis: analysis_json.to_owned(),
            raw_content: raw_content.to_owned(),
            created_at,
            event_date,
        };
        let copy = ticket.duplicate();
        let ghost before = self.tickets.deep_view();
        let mut tickets: Vec<TicketRecord> = Vec::new();
        std::mem::swap(&mut self.tickets, &mut tickets);
        tickets.push(ticket);
        assert(tickets.deep_view() =~= before.push(copy@));
        self.tickets = tickets;
        self.next_ticket_id = self.next_ticket_id + 1;
        Ok(copy)
    }

    /// Takes in a ticket that was stored before, as it is. The next free
    /// number is moved past the ticket's. Fails, and changes nothing, when
    /// no number would be left after it.
    pub fn restore_ticket(&mut self, ticket: &TicketRecord) -> (restored: Result<(), StorageError>)
        ensures
            restored is Err <==> ticket.id == i64::MAX,
            restored is Err ==> final(self).tickets() == old(self).tickets(),
            restored is Err ==> final(self).next_ticket_id() == old(self).next_ticket_id(),
            restored is Ok ==> final(self).tickets() == old(self).tickets().push(ticket@),
            restored is Ok ==> final(self).next_ticket_id() == if ticket.id
                >= old(self).next_ticket_id() {
                ticket.id + 1
            } else {
                old(self).next_ticket_id()
            },
            final(self).goals() == old(self).goals(),
            final(self).suggestions() == old(self).suggestions(),
            final(self).settings() == old(self).settings(),
    {
        proof {
            use_type_invariant(&*self);
        }
        if ticket.id == i64::MAX {
            return Err(StorageError::Full);
        }
        let copy = ticket.duplicate();
        let ghost before = self.tickets.deep_view();
        let mut tickets: Vec<TicketRecord> = Vec::new();
        std::mem::swap(&mut self.tickets, &mut tickets);
        tickets.push(copy);
        assert(tickets.deep_view() =~= before.push(ticket@));
        self.tickets = tickets;
        if ticket.id >= self.next_ticket_id {
            self.next_ticket_id = ticket.id + 1;
        }
        Ok(())
    }

    /// The tickets whose event is within one hour of `now`, in the order
    /// they were stored. A ticket whose event time cannot be read is not
    /// among them.
    pub fn get_active_tickets(&self, now: Instant) -> (active: Vec<TicketRecord>)
        ensures
            active.deep_view() == kept(self.tickets(), ticket_active_at(now)),
    {
        let mut active: Vec<TicketRecord> = Vec::new();
        let mut at: usize = 0;
        assert(active.deep_view() =~= kept_upto(
            self.tickets.deep_view(),
            ticket_active_at(now),
            0,
        ));
        while at < self.tickets.len()
            invariant
                at <= self.tickets.len(),
                active.deep_view() == kept_upto(
                    self.tickets.deep_view(),
                    ticket_active_at(now),
                    at as nat,
                ),
            decreases self.tickets.len() - at,
        {
            let ghost before = active.deep_view();
            let one = &self.tickets[at];
            assert(self.tickets.deep_view()[at as int] == one@);
            let event = read_instant(one.event_date.as_str());
            if is_record_active(event, now) {
                active.push(one.duplicate());
                assert(active.deep_view() =~= before.push(one@));
            }
            at += 1;
        }
        active
    }

    /// The first ticket stored for the event `event_id`.
    pub fn get_ticket_by_event_id(&self, event_id: &str) -> (ticket: Option<TicketRecord>)
        ensures
            ticket.deep_view() == found(self.tickets(), ticket_event_key(), event_id@),
    {
        let mut at: usize = 0;
        while at < self.tickets.len()
            invariant
                at <= self.tickets.len(),
                position_of(self.tickets.deep_view(), ticket_event_key(), event_id@, 0)
                    == position_of(
                    self.tickets.deep_view(),
                    ticket_event_key(),
                    event_id@,
                    at as int,
                ),
            decreases self.tickets.len() - at,
        {
            assert(self.tickets.deep_view()[at as int] == self.tickets[at as int]@);
            if same_text(self.tickets[at].event_id.as_str(), event_id) {
                return Some(self.tickets[at].duplicate());
            }
            at += 1;
        }
        None
    }

    /// Stores a setting under its key. A value already stored under this
    /// key is replaced.
    pub fn set_setting(&mut self, key: &str, value: &str)
        ensures
            final(self).settings() == upserted(old(self).settings(), setting_key(), (key@, value@)),
            setting_value(final(self).settings(), key@) == Some(value@),
            final(self).goals() == old(self).goals(),
            final(self).suggestions() == old(self).suggestions(),
            final(self).tickets() == old(self).tickets(),
            final(self).next_ticket_id() == old(self).next_ticket_id(),
    {
        let at = self.setting_slot(key);
        let pair = (key.to_owned(), value.to_owned());
        proof {
            use_type_invariant(&*self);
            lemma_upsert_distinct(self.settings.deep_view(), setting_key(), (key@, value@));
            crate::keyed::lemma_upsert_then_find(
                self.settings.deep_view(),
                setting_key(),
                (key@, value@),
            );
        }
        let mut settings: Vec<(String, String)> = Vec::new();
        std::mem::swap(&mut self.settings, &mut settings);
        if at < settings.len() {
            settings.set(at, pair);
        } else {
            settings.push(pair);
        }
        assert(settings.deep_view() =~= upserted(
            old(self).settings.deep_view(),
            setting_key(),
            (key@, value@),
        ));
        self.settings = settings;
    }

    /// The value stored under `key`.
    pub fn get_setting(&self, key: &str) -> (value: Option<String>)
        ensures
            value.deep_view() == setting_value(self.settings(), key@),
    {
        let at = self.setting_slot(key);
        if at < self.settings.len() {
            assert(self.settings.deep_view()[at as int] == self.settings[at as int].deep_view());
            Some(self.settings[at].1.clone())
        } else {
            None
        }
    }
}

/// Storing two goals with one id, one after the other, leaves the second to
/// be read back: the last write wins.
pub proof fn lemma_goal_last_write_wins(
    goals: Seq<SchedulingGoalModel>,
    first: SchedulingGoalModel,
    second: SchedulingGoalModel,
)
    requires
        first.id == second.id,
    ensures
        found(
            upserted(upserted(goals, goal_key(), first), goal_key(), second),
            goal_key(),
            second.id,
        ) == Some(second),
        upserted(upserted(goals, goal_key(), first), goal_key(), second).len() == upserted(
            goals,
            goal_key(),
            first,
        ).len(),
{
    crate::keyed::lemma_last_write_wins(goals, goal_key(), first, second);
}

/// Storing two suggestions with one id, one after the other, leaves the
/// second to be read back.
pub proof fn lemma_suggestion_last_write_wins(
    suggestions: Seq<ScheduleSuggestionModel>,
    first: ScheduleSuggestionModel,
    second: ScheduleSuggestionModel,
)
    requires
        first.id == second.id,
    ensures
        found(
            upserted(upserted(suggestions, suggestion_key(), first), suggestion_key(), second),
            suggestion_key(),
            second.id,
        ) == Some(second),
{
    crate::keyed::lemma_last_write_wins(suggestions, suggestion_key(), first, second);
}

/// Switching a goal on or off keeps the ids distinct and removes no goal.
pub proof fn lemma_with_active_distinct(
    goals: Seq<SchedulingGoalModel>,
    id: Seq<char>,
    is_active: bool,
)
    requires
        distinct_keys(goals, goal_key()),
    ensures
        distinct_keys(with_active(goals, id, is_active), goal_key()),
        with_active(goals, id, is_active).len() == goals.len(),
{
    lemma_position_of(goals, goal_key(), id, 0);
}

/// A goal that has been switched off is still in the store, switched off
/// and otherwise as it was.
pub proof fn lemma_switched_goal_stays(
    goals: Seq<SchedulingGoalModel>,
    id: Seq<char>,
    is_active: bool,
)
    requires
        found(goals, goal_key(), id) is Some,
    ensures
        found(with_active(goals, id, is_active), goal_key(), id) == Some(
            SchedulingGoalModel { is_active, ..found(goals, goal_key(), id)->0 },
        ),
{
    let at = position_of(goals, goal_key(), id, 0);
    lemma_position_of(goals, goal_key(), id, 0);
    crate::keyed::lemma_position_is(with_active(goals, id, is_active), goal_key(), id, 0, at);
}

/// Giving a suggestion another status keeps the ids distinct.
pub proof fn lemma_with_status_distinct(
    suggestions: Seq<ScheduleSuggestionModel>,
    id: Seq<char>,
    status: SuggestionStatus,
)
    requires
        distinct_keys(suggestions, suggestion_key()),
    ensures
        distinct_keys(with_status(suggestions, id, status), suggestion_key()),
        with_status(suggestions, id, status).len() == suggestions.len(),
{
    lemma_position_of(suggestions, suggestion_key(), id, 0);
}

} // verus!
