//! The state of the application: what the user has connected and chosen,
//! and the store.

use vstd::prelude::*;
use crate::generator::{bind_to_goal, bound_to};
use crate::keyed::upserted;
use crate::scheduler::{
    ScheduleSuggestion, ScheduleSuggestionModel, SchedulingGoal, SchedulingGoalModel,
};
use crate::storage::{goal_key, upserted_all, Database, TicketRecordModel};

verus! {

/// The state of the application.
#[derive(Debug)]
pub struct AppState {
    pub google_token: Option<String>,
    pub selected_calendars: Vec<String>,
    pub calendar_users: Vec<String>,
    pub sparka_folder_id: Option<String>,
    pub db: Database,
    pub scheduling_goals: Vec<SchedulingGoal>,
    pub suggestions: Vec<ScheduleSuggestion>,
}

impl AppState {
    /// The state at the start: nothing connected, nothing chosen, an empty
    /// store.
    pub fn new() -> (state: AppState)
        ensures
            state.google_token is None,
            state.sparka_folder_id is None,
            state.selected_calendars@.len() == 0,
            state.calendar_users@.len() == 0,
            state.scheduling_goals@.len() == 0,
            state.suggestions@.len() == 0,
            state.db.goals() == Seq::<SchedulingGoalModel>::empty(),
            state.db.suggestions() == Seq::<ScheduleSuggestionModel>::empty(),
            state.db.tickets() == Seq::<TicketRecordModel>::empty(),
            state.db.settings() == Seq::<(Seq<char>, Seq<char>)>::empty(),
            state.db.next_ticket_id() == 1,
    {
        AppState {
            google_token: None,
            selected_calendars: Vec::new(),
            calendar_users: Vec::new(),
            sparka_folder_id: None,
            db: Database::new(),
            scheduling_goals: Vec::new(),
            suggestions: Vec::new(),
        }
    }

    /// Takes a new goal in: stores it, and keeps it among the goals at
    /// hand.
    pub fn record_goal(&mut self, goal: SchedulingGoal)
        ensures
            final(self).db.goals() == upserted(old(self).db.goals(), goal_key(), goal@),
            final(self).scheduling_goals.deep_view() == old(self).scheduling_goals.deep_view().push(
                goal@,
            ),
            final(self).db.suggestions() == old(self).db.suggestions(),
            final(self).db.tickets() == old(self).db.tickets(),
            final(self).db.settings() == old(self).db.settings(),
            final(self).suggestions == old(self).suggestions,
            final(self).google_token == old(self).google_token,
            final(self).selected_calendars == old(self).selected_calendars,
            final(self).calendar_users == old(self).calendar_users,
            final(self).sparka_folder_id == old(self).sparka_folder_id,
    {
        self.db.store_scheduling_goal(&goal);
        let ghost before = self.scheduling_goals.deep_view();
        self.scheduling_goals.push(goal);
        assert(self.scheduling_goals.deep_view() =~= before.push(goal@));
    }

    /// Takes a batch of suggestions in for the goal `goal_id`: binds each to
    /// the goal, stores it, and hands the bound batch back.
    pub fn record_suggestions(&mut self, goal_id: &str, batch: &Vec<ScheduleSuggestion>) -> (bound:
        Vec<ScheduleSuggestion>)
        ensures
            bound.len() == batch.len(),
            forall|i: int|
                0 <= i < batch.len() ==> (#[trigger] bound[i])@ == bound_to(batch[i]@, goal_id@),
            final(self).db.suggestions() == upserted_all(
                old(self).db.suggestions(),
                bound.deep_view(),
                bound.len() as nat,
            ),
            final(self).db.goals() == old(self).db.goals(),
            final(self).db.tickets() == old(self).db.tickets(),
            final(self).db.settings() == old(self).db.settings(),
            final(self).scheduling_goals == old(self).scheduling_goals,
            final(self).suggestions == old(self).suggestions,
            final(self).google_token == old(self).google_token,
            final(self).selected_calendars == old(self).selected_calendars,
            final(self).calendar_users == old(self).calendar_users,
            final(self).sparka_folder_id == old(self).sparka_folder_id,
    {
        let bound = bind_to_goal(batch, goal_id);
        self.db.store_suggestions(&bound);
        bound
    }
}

} // verus!
