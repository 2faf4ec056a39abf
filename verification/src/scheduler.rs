//! Scheduling goals and schedule suggestions: the data, its mathematical
//! content, and the names under which a status is stored.

use vstd::prelude::*;
use vstd::string::*;
use crate::calendar::CalendarEvent;
use crate::confidence::{Confidence, ONE_BITS};
use crate::instant::Instant;
use crate::text::same_text;

verus! {

/// A day of the week.
#[derive(Clone, Copy, Debug, PartialEq, Eq)]
pub enum Weekday {
    Mon,
    Tue,
    Wed,
    Thu,
    Fri,
    Sat,
    Sun,
}

/// What a goal is about.
#[derive(Clone, Debug)]
pub enum GoalType {
    Exercise,
    Hobby,
    Learning,
    Social,
    Work,
    Custom(String),
}

/// The mathematical content of a `GoalType`.
pub enum GoalTypeModel {
    Exercise,
    Hobby,
    Learning,
    Social,
    Work,
    Custom(Seq<char>),
}

impl View for GoalType {
    type V = GoalTypeModel;

    open spec fn view(&self) -> GoalTypeModel {
        match self {
            GoalType::Exercise => GoalTypeModel::Exercise,
            GoalType::Hobby => GoalTypeModel::Hobby,
            GoalType::Learning => GoalTypeModel::Learning,
            GoalType::Social => GoalTypeModel::Social,
            GoalType::Work => GoalTypeModel::Work,
            GoalType::Custom(label) => GoalTypeModel::Custom(label@),
        }
    }
}

/// How often a goal is to be met.
#[derive(Clone, Copy, Debug, PartialEq, Eq)]
pub enum Frequency {
    Daily,
    Weekly,
    Monthly,
    /// A number of times per period, at least one.
    Custom(u32),
}

/// A stretch of the day that the user prefers, on one day of the week or on
/// any.
#[derive(Clone, Debug)]
pub struct TimePreference {
    pub day_of_week: Option<Weekday>,
    /// Wall-clock time, `HH:MM`.
    pub start_time: String,
    /// Wall-clock time, `HH:MM`.
    pub end_time: String,
}

/// The mathematical content of a `TimePreference`.
pub struct TimePreferenceModel {
    pub day_of_week: Option<Weekday>,
    pub start_time: Seq<char>,
    pub end_time: Seq<char>,
}

impl View for TimePreference {
    type V = TimePreferenceModel;

    open spec fn view(&self) -> TimePreferenceModel {
        TimePreferenceModel {
            day_of_week: self.day_of_week,
            start_time: self.start_time@,
            end_time: self.end_time@,
        }
    }
}

impl DeepView for TimePreference {
    type V = TimePreferenceModel;

    open spec fn deep_view(&self) -> TimePreferenceModel {
        self@
    }
}

/// A recurring intent of a user.
#[derive(Clone, Debug)]
pub struct SchedulingGoal {
    pub id: String,
    pub user_id: String,
    pub goal_type: GoalType,
    pub description: String,
    pub frequency: Frequency,
    pub duration_minutes: u32,
    pub preferred_times: Vec<TimePreference>,
    pub created_at: Instant,
    pub is_active: bool,
}

/// The mathematical content of a `SchedulingGoal`.
pub struct SchedulingGoalModel {
    pub id: Seq<char>,
    pub user_id: Seq<char>,
    pub goal_type: GoalTypeModel,
    pub description: Seq<char>,
    pub frequency: Frequency,
    pub duration_minutes: u32,
    pub preferred_times: Seq<TimePreferenceModel>,
    pub created_at: Instant,
    pub is_active: bool,
}

impl SchedulingGoalModel {
    /// A goal lasts some time, and a custom frequency counts at least once.
    pub open spec fn valid(self) -> bool {
        &&& self.duration_minutes > 0
        &&& (self.frequency matches Frequency::Custom(count) ==> count >= 1)
    }
}

impl View for SchedulingGoal {
    type V = SchedulingGoalModel;

    open spec fn view(&self) -> SchedulingGoalModel {
        SchedulingGoalModel {
            id: self.id@,
            user_id: self.user_id@,
            goal_type: self.goal_type@,
            description: self.description@,
            frequency: self.frequency,
            duration_minutes: self.duration_minutes,
            preferred_times: self.preferred_times.deep_view(),
            created_at: self.created_at,
            is_active: self.is_active,
        }
    }
}

impl DeepView for SchedulingGoal {
    type V = SchedulingGoalModel;

    open spec fn deep_view(&self) -> SchedulingGoalModel {
        self@
    }
}

/// Where a suggestion stands.
#[derive(Clone, Copy, Debug, PartialEq, Eq)]
pub enum SuggestionStatus {
    Pending,
    Accepted,
    Rejected,
    Expired,
}

/// One proposed occurrence in the calendar that serves a goal.
#[derive(Clone, Debug)]
pub struct ScheduleSuggestion {
    pub id: String,
    pub goal_id: String,
    pub title: String,
    pub description: String,
    pub start_time: Instant,
    pub end_time: Instant,
    pub confidence_score: Confidence,
    pub reasoning: String,
    pub created_at: Instant,
    pub status: SuggestionStatus,
}

/// The mathematical content of a `ScheduleSuggestion`.
pub struct ScheduleSuggestionModel {
    pub id: Seq<char>,
    pub goal_id: Seq<char>,
    pub title: Seq<char>,
    pub description: Seq<char>,
    pub start_time: Instant,
    pub end_time: Instant,
    /// The score's bit pattern, see `Confidence`.
    pub confidence_bits: u64,
    pub reasoning: Seq<char>,
    pub created_at: Instant,
    pub status: SuggestionStatus,
}

impl ScheduleSuggestionModel {
    /// A suggestion ends strictly after it starts, and its score lies
    /// between zero and one.
    pub open spec fn valid(self) -> bool {
        &&& self.start_time.position() < self.end_time.position()
        &&& self.confidence_bits <= ONE_BITS
    }
}

impl View for ScheduleSuggestion {
    type V = ScheduleSuggestionModel;

    open spec fn view(&self) -> ScheduleSuggestionModel {
        ScheduleSuggestionModel {
            id: self.id@,
            goal_id: self.goal_id@,
            title: self.title@,
            description: self.description@,
            start_time: self.start_time,
            end_time: self.end_time,
            confidence_bits: self.confidence_score.bits(),
            reasoning: self.reasoning@,
            created_at: self.created_at,
            status: self.status,
        }
    }
}

impl DeepView for ScheduleSuggestion {
    type V = ScheduleSuggestionModel;

    open spec fn deep_view(&self) -> ScheduleSuggestionModel {
        self@
    }
}

/// What the candidate generator is asked: a goal, the events already in the
/// calendar, the preferred times and how long one occurrence lasts.
#[derive(Clone, Debug)]
pub struct ScheduleRequest {
    pub goal_description: String,
    pub existing_events: Vec<CalendarEvent>,
    pub preferences: Vec<TimePreference>,
    pub duration_minutes: u32,
}

/// The name under which a status is stored.
pub open spec fn status_name(status: SuggestionStatus) -> Seq<char> {
    match status {
        SuggestionStatus::Pending => "Pending"@,
        SuggestionStatus::Accepted => "Accepted"@,
        SuggestionStatus::Rejected => "Rejected"@,
        SuggestionStatus::Expired => "Expired"@,
    }
}

/// The status that a stored name stands for; pending for a name that is none
/// of the four.
pub open spec fn status_named(name: Seq<char>) -> SuggestionStatus {
    if name == "Accepted"@ {
        SuggestionStatus::Accepted
    } else if name == "Rejected"@ {
        SuggestionStatus::Rejected
    } else if name == "Expired"@ {
        SuggestionStatus::Expired
    } else {
        SuggestionStatus::Pending
    }
}

/// Reading a status back from its name gives the status.
pub proof fn lemma_status_name_round_trip(status: SuggestionStatus)
    ensures
        status_named(status_name(status)) == status,
{
    reveal_strlit("Pending");
    reveal_strlit("Accepted");
    reveal_strlit("Rejected");
    reveal_strlit("Expired");
    match status {
        SuggestionStatus::Pending => {
            assert("Pending"@[0] != "Accepted"@[0]);
            assert("Pending"@[0] != "Rejected"@[0]);
            assert("Pending"@[0] != "Expired"@[0]);
        },
        SuggestionStatus::Accepted => {},
        SuggestionStatus::Rejected => {
            assert("Rejected"@[0] != "Accepted"@[0]);
        },
        SuggestionStatus::Expired => {
            assert("Expired"@[0] != "Accepted"@[0]);
            assert("Expired"@[0] != "Rejected"@[0]);
        },
    }
}

impl SuggestionStatus {
    /// The name under which this status is stored.
    pub fn name(&self) -> (name: &'static str)
        ensures
            name@ == status_name(*self),
    {
        match self {
            SuggestionStatus::Pending => "Pending",
            SuggestionStatus::Accepted => "Accepted",
            SuggestionStatus::Rejected => "Rejected",
            SuggestionStatus::Expired => "Expired",
        }
    }

    /// The status that a stored name stands for; pending for a name that is
    /// none of the four.
    pub fn from_name(name: &str) -> (status: SuggestionStatus)
        ensures
            status == status_named(name@),
    {
        if same_text(name, "Accepted") {
            SuggestionStatus::Accepted
        } else if same_text(name, "Rejected") {
            SuggestionStatus::Rejected
        } else if same_text(name, "Expired") {
            SuggestionStatus::Expired
        } else {
            SuggestionStatus::Pending
        }
    }
}

impl ScheduleRequest {
    /// The request for a goal: its description, its preferred times and its
    /// duration, with the events that are in the calendar already.
    pub fn for_goal(goal: &SchedulingGoal, existing_events: Vec<CalendarEvent>) -> (request:
        ScheduleRequest)
        ensures
            request.goal_description@ == goal.description@,
            request.existing_events == existing_events,
            request.preferences.deep_view() == goal.preferred_times.deep_view(),
            request.duration_minutes == goal.duration_minutes,
    {
        let copy = goal.duplicate();
        ScheduleRequest {
            goal_description: copy.description,
            existing_events,
            preferences: copy.preferred_times,
            duration_minutes: copy.duration_minutes,
        }
    }
}

impl GoalType {
    /// A copy of this category.
    pub fn duplicate(&self) -> (copy: GoalType)
        ensures
            copy@ == self@,
    {
        match self {
            GoalType::Exercise => GoalType::Exercise,
            GoalType::Hobby => GoalType::Hobby,
            GoalType::Learning => GoalType::Learning,
            GoalType::Social => GoalType::Social,
            GoalType::Work => GoalType::Work,
            GoalType::Custom(label) => GoalType::Custom(label.clone()),
        }
    }
}

impl TimePreference {
    /// A copy of this preference.
    pub fn duplicate(&self) -> (copy: TimePreference)
        ensures
            copy@ == self@,
    {
        TimePreference {
            day_of_week: self.day_of_week,
            start_time: self.start_time.clone(),
            end_time: self.end_time.clone(),
        }
    }
}

impl SchedulingGoal {
    /// A copy of this goal.
    pub fn duplicate(&self) -> (copy: SchedulingGoal)
        ensures
            copy@ == self@,
    {
        let mut preferred_times: Vec<TimePreference> = Vec::new();
        let mut at: usize = 0;
        while at < self.preferred_times.len()
            invariant
                at <= self.preferred_times.len(),
                preferred_times.len() == at,
                forall|i: int|
                    0 <= i < at ==> (#[trigger] preferred_times[i])@ == self.preferred_times[i]@,
            decreases self.preferred_times.len() - at,
        {
            preferred_times.push(self.preferred_times[at].duplicate());
            at += 1;
        }
        assert(preferred_times.deep_view() =~= self.preferred_times.deep_view());
        SchedulingGoal {
            id: self.id.clone(),
            user_id: self.user_id.clone(),
            goal_type: self.goal_type.duplicate(),
            description: self.description.clone(),
            frequency: self.frequency,
            duration_minutes: self.duration_minutes,
            preferred_times,
            created_at: self.created_at,
            is_active: self.is_active,
        }
    }
}

impl ScheduleSuggestion {
    /// A copy of this suggestion.
    pub fn duplicate(&self) -> (copy: ScheduleSuggestion)
        ensures
            copy@ == self@,
    {
        ScheduleSuggestion {
            id: self.id.clone(),
            goal_id: self.goal_id.clone(),
            title: self.title.clone(),
            description: self.description.clone(),
            start_time: self.start_time,
            end_time: self.end_time,
            confidence_score: self.confidence_score,
            reasoning: self.reasoning.clone(),
            created_at: self.created_at,
            status: self.status,
        }
    }

    /// A copy of this suggestion with another status.
    pub fn with_status(&self, status: SuggestionStatus) -> (copy: ScheduleSuggestion)
        ensures
            copy@ == (ScheduleSuggestionModel { status, ..self@ }),
    {
        ScheduleSuggestion {
            id: self.id.clone(),
            goal_id: self.goal_id.clone(),
            title: self.title.clone(),
            description: self.description.clone(),
            start_time: self.start_time,
            end_time: self.end_time,
            confidence_score: self.confidence_score,
            reasoning: self.reasoning.clone(),
            created_at: self.created_at,
            status,
        }
    }
}

} // verus!
