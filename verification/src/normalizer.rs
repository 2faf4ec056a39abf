//! From a free-text goal to a structured scheduling goal.
//!
//! The completion service is asked to extract the goal's category,
//! frequency, duration and preferred times as a JSON object. Its answer is
//! untrusted text: whatever cannot be read falls back to a default, and a
//! goal is made in every case.

use vstd::prelude::*;
use vstd::string::*;
use crate::instant::Instant;
use crate::json::{
    answer_members, field_items, field_layer, field_text, field_unsigned, holds_json_object,
    items_in, json_layer, members_in, read_answer_members, read_members, text_in, unsigned_in,
};
use crate::scheduler::{
    Frequency, GoalType, GoalTypeModel, SchedulingGoal, SchedulingGoalModel, TimePreference,
    TimePreferenceModel, Weekday,
};
use crate::text::{push_signed_decimal, same_text, signed_decimal};

verus! {

/// The duration, in minutes, of a goal whose extraction states none.
pub const DEFAULT_DURATION_MINUTES: u32 = 60;

/// One preferred time as the extraction states it, each field as far as it
/// is a string.
#[derive(Clone, Debug)]
pub struct PreferenceExtraction {
    pub day_of_week: Option<String>,
    pub start_time: Option<String>,
    pub end_time: Option<String>,
}

/// The mathematical content of a `PreferenceExtraction`.
pub struct PreferenceExtractionModel {
    pub day_of_week: Option<Seq<char>>,
    pub start_time: Option<Seq<char>>,
    pub end_time: Option<Seq<char>>,
}

impl View for PreferenceExtraction {
    type V = PreferenceExtractionModel;

    open spec fn view(&self) -> PreferenceExtractionModel {
        PreferenceExtractionModel {
            day_of_week: self.day_of_week.deep_view(),
            start_time: self.start_time.deep_view(),
            end_time: self.end_time.deep_view(),
        }
    }
}

impl DeepView for PreferenceExtraction {
    type V = PreferenceExtractionModel;

    open spec fn deep_view(&self) -> PreferenceExtractionModel {
        self@
    }
}

/// What the extraction states of a goal, each field as far as it has the
/// expected JSON type.
#[derive(Clone, Debug)]
pub struct GoalExtraction {
    pub goal_type: Option<String>,
    pub custom_type: Option<String>,
    pub frequency: Option<String>,
    pub custom_frequency: Option<u64>,
    pub duration_minutes: Option<u64>,
    pub preferred_times: Vec<PreferenceExtraction>,
}

/// The mathematical content of a `GoalExtraction`.
pub struct GoalExtractionModel {
    pub goal_type: Option<Seq<char>>,
    pub custom_type: Option<Seq<char>>,
    pub frequency: Option<Seq<char>>,
    pub custom_frequency: Option<u64>,
    pub duration_minutes: Option<u64>,
    pub preferred_times: Seq<PreferenceExtractionModel>,
}

impl View for GoalExtraction {
    type V = GoalExtractionModel;

    open spec fn view(&self) -> GoalExtractionModel {
        GoalExtractionModel {
            goal_type: self.goal_type.deep_view(),
            custom_type: self.custom_type.deep_view(),
            frequency: self.frequency.deep_view(),
            custom_frequency: self.custom_frequency,
            duration_minutes: self.duration_minutes,
            preferred_times: self.preferred_times.deep_view(),
        }
    }
}

/// The extraction that states nothing.
pub open spec fn empty_extraction() -> GoalExtractionModel {
    GoalExtractionModel {
        goal_type: None,
        custom_type: None,
        frequency: None,
        custom_frequency: None,
        duration_minutes: None,
        preferred_times: Seq::empty(),
    }
}

/// The label of a custom category: the one stated, else `custom`.
pub open spec fn custom_label(custom_type: Option<Seq<char>>) -> Seq<char> {
    match custom_type {
        Some(label) => label,
        None => "custom"@,
    }
}

/// The category for a stated token: one of the five fixed names, in lower
/// case, else a custom category.
pub open spec fn goal_type_of(
    goal_type: Option<Seq<char>>,
    custom_type: Option<Seq<char>>,
) -> GoalTypeModel {
    match goal_type {
        None => GoalTypeModel::Custom(custom_label(custom_type)),
        Some(token) => if token == "exercise"@ {
            GoalTypeModel::Exercise
        } else if token == "hobby"@ {
            GoalTypeModel::Hobby
        } else if token == "learning"@ {
            GoalTypeModel::Learning
        } else if token == "social"@ {
            GoalTypeModel::Social
        } else if token == "work"@ {
            GoalTypeModel::Work
        } else {
            GoalTypeModel::Custom(custom_label(custom_type))
        },
    }
}

/// The count of a custom frequency: the one stated where it is at least one
/// and fits, else one.
pub open spec fn custom_count(custom_frequency: Option<u64>) -> u32 {
    match custom_frequency {
        Some(count) => if 1 <= count <= u32::MAX {
            count as u32
        } else {
            1
        },
        None => 1,
    }
}

/// The frequency for a stated token: weekly where none is stated, one of the
/// three fixed names, else a custom frequency.
pub open spec fn frequency_of(
    frequency: Option<Seq<char>>,
    custom_frequency: Option<u64>,
) -> Frequency {
    match frequency {
        None => Frequency::Weekly,
        Some(token) => if token == "daily"@ {
            Frequency::Daily
        } else if token == "weekly"@ {
            Frequency::Weekly
        } else if token == "monthly"@ {
            Frequency::Monthly
        } else {
            Frequency::Custom(custom_count(custom_frequency))
        },
    }
}

/// The duration of a goal: the one stated where it is positive and fits,
/// else sixty minutes.
pub open spec fn duration_of(duration_minutes: Option<u64>) -> u32 {
    match duration_minutes {
        Some(minutes) => if 0 < minutes <= u32::MAX {
            minutes as u32
        } else {
            DEFAULT_DURATION_MINUTES
        },
        None => DEFAULT_DURATION_MINUTES,
    }
}

/// The day for a stated token: the seven English names in lower case, else
/// no day.
pub open spec fn weekday_of(day_of_week: Option<Seq<char>>) -> Option<Weekday> {
    match day_of_week {
        None => None,
        Some(token) => if token == "monday"@ {
            Some(Weekday::Mon)
        } else if token == "tuesday"@ {
            Some(Weekday::Tue)
        } else if token == "wednesday"@ {
            Some(Weekday::Wed)
        } else if token == "thursday"@ {
            Some(Weekday::Thu)
        } else if token == "friday"@ {
            Some(Weekday::Fri)
        } else if token == "saturday"@ {
            Some(Weekday::Sat)
        } else if token == "sunday"@ {
            Some(Weekday::Sun)
        } else {
            None
        },
    }
}

/// Whether a stated preference counts: it names both its start and its end.
pub open spec fn preference_counts(stated: PreferenceExtractionModel) -> bool {
    stated.start_time is Some && stated.end_time is Some
}

/// The preference that a stated preference which counts stands for.
pub open spec fn preference_of(stated: PreferenceExtractionModel) -> TimePreferenceModel {
    TimePreferenceModel {
        day_of_week: weekday_of(stated.day_of_week),
        start_time: stated.start_time->0,
        end_time: stated.end_time->0,
    }
}

/// The preferences that the first `n` stated preferences stand for, in
/// order, those that do not count left out.
pub open spec fn preferences_upto(stated: Seq<PreferenceExtractionModel>, n: nat) -> Seq<
    TimePreferenceModel,
>
    decreases n,
{
    if n == 0 {
        Seq::empty()
    } else if preference_counts(stated[n - 1]) {
        preferences_upto(stated, (n - 1) as nat).push(preference_of(stated[n - 1]))
    } else {
        preferences_upto(stated, (n - 1) as nat)
    }
}

/// The id of a goal made at `now`: `goal_` and the seconds since the epoch.
pub open spec fn goal_id_at(now: Instant) -> Seq<char> {
    "goal_"@ + signed_decimal(now.secs as int)
}

/// Goals made in different seconds have different ids.
pub proof fn lemma_goal_id_injective(first: Instant, second: Instant)
    requires
        goal_id_at(first) == goal_id_at(second),
    ensures
        first.secs == second.secs,
{
    let tag = "goal_"@.len() as int;
    let a = goal_id_at(first);
    let b = goal_id_at(second);
    assert(signed_decimal(first.secs as int) =~= a.subrange(tag, a.len() as int));
    assert(signed_decimal(second.secs as int) =~= b.subrange(tag, b.len() as int));
    crate::text::lemma_signed_decimal_injective(first.secs as int, second.secs as int);
}

/// The goal that an extraction stands for.
pub open spec fn goal_of(
    description: Seq<char>,
    user_id: Seq<char>,
    stated: GoalExtractionModel,
    now: Instant,
) -> SchedulingGoalModel {
    SchedulingGoalModel {
        id: goal_id_at(now),
        user_id,
        goal_type: goal_type_of(stated.goal_type, stated.custom_type),
        description,
        frequency: frequency_of(stated.frequency, stated.custom_frequency),
        duration_minutes: duration_of(stated.duration_minutes),
        preferred_times: preferences_upto(stated.preferred_times, stated.preferred_times.len()),
        created_at: now,
        is_active: true,
    }
}

/// What the JSON object `raw` states of one preferred time.
pub open spec fn preference_extraction_in(raw: Seq<char>) -> PreferenceExtractionModel {
    let members = members_in(json_layer(raw));
    PreferenceExtractionModel {
        day_of_week: text_in(field_layer(members, "day_of_week"@)),
        start_time: text_in(field_layer(members, "start_time"@)),
        end_time: text_in(field_layer(members, "end_time"@)),
    }
}

/// What the answer of the completion service states of a goal.
pub open spec fn goal_extraction_in(completion: Seq<char>) -> GoalExtractionModel {
    let members = answer_members(completion);
    GoalExtractionModel {
        goal_type: text_in(field_layer(members, "goal_type"@)),
        custom_type: text_in(field_layer(members, "custom_type"@)),
        frequency: text_in(field_layer(members, "frequency"@)),
        custom_frequency: unsigned_in(field_layer(members, "custom_frequency"@)),
        duration_minutes: unsigned_in(field_layer(members, "duration_minutes"@)),
        preferred_times: match items_in(field_layer(members, "preferred_times"@)) {
            Some(items) => Seq::new(items.len(), |i: int| preference_extraction_in(items[i])),
            None => Seq::empty(),
        },
    }
}

/// An answer that holds no JSON object states nothing.
pub proof fn lemma_unreadable_answer_states_nothing(completion: Seq<char>)
    requires
        !holds_json_object(completion),
    ensures
        goal_extraction_in(completion) == empty_extraction(),
{
    assert(answer_members(completion) =~= Seq::empty());
}

/// An extraction that states nothing stands for the generic goal: a custom
/// category labelled `custom`, weekly, sixty minutes, no preferred times.
pub proof fn lemma_defaults(description: Seq<char>, user_id: Seq<char>, now: Instant)
    ensures
        goal_of(description, user_id, empty_extraction(), now).goal_type == GoalTypeModel::Custom(
            "custom"@,
        ),
        goal_of(description, user_id, empty_extraction(), now).frequency == Frequency::Weekly,
        goal_of(description, user_id, empty_extraction(), now).duration_minutes == 60,
        goal_of(description, user_id, empty_extraction(), now).preferred_times.len() == 0,
        goal_of(description, user_id, empty_extraction(), now).is_active,
{
}

/// Every goal that an extraction stands for is valid, and a stated duration
/// that is positive and fits is kept exactly.
pub proof fn lemma_goal_valid(
    description: Seq<char>,
    user_id: Seq<char>,
    stated: GoalExtractionModel,
    now: Instant,
)
    ensures
        goal_of(description, user_id, stated, now).valid(),
        forall|d: u64|
            stated.duration_minutes == Some(d) && 0 < d <= u32::MAX ==> goal_of(
                description,
                user_id,
                stated,
                now,
            ).duration_minutes == d,
{
}

fn label_of(custom_type: &Option<String>) -> (label: String)
    ensures
        label@ == custom_label(custom_type.deep_view()),
{
    match custom_type {
        Some(label) => label.clone(),
        None => "custom".to_owned(),
    }
}

/// The category for a stated token.
pub fn goal_type_from(goal_type: &Option<String>, custom_type: &Option<String>) -> (category:
    GoalType)
    ensures
        category@ == goal_type_of(goal_type.deep_view(), custom_type.deep_view()),
{
    match goal_type {
        None => GoalType::Custom(label_of(custom_type)),
        Some(token) => {
            if same_text(token.as_str(), "exercise") {
                GoalType::Exercise
            } else if same_text(token.as_str(), "hobby") {
                GoalType::Hobby
            } else if same_text(token.as_str(), "learning") {
                GoalType::Learning
            } else if same_text(token.as_str(), "social") {
                GoalType::Social
            } else if same_text(token.as_str(), "work") {
                GoalType::Work
            } else {
                GoalType::Custom(label_of(custom_type))
            }
        },
    }
}

/// The frequency for a stated token.
pub fn frequency_from(frequency: &Option<String>, custom_frequency: Option<u64>) -> (often:
    Frequency)
    ensures
        often == frequency_of(frequency.deep_view(), custom_frequency),
        often matches Frequency::Custom(count) ==> count >= 1,
{
    match frequency {
        None => Frequency::Weekly,
        Some(token) => {
            if same_text(token.as_str(), "daily") {
                Frequency::Daily
            } else if same_text(token.as_str(), "weekly") {
                Frequency::Weekly
            } else if same_text(token.as_str(), "monthly") {
                Frequency::Monthly
            } else {
                let count: u32 = match custom_frequency {
                    Some(count) => if 1 <= count && count <= 0xFFFF_FFFF {
                        count as u32
                    } else {
                        1
                    },
                    None => 1,
                };
                Frequency::Custom(count)
            }
        },
    }
}

/// The duration of a goal, in minutes.
pub fn duration_from(duration_minutes: Option<u64>) -> (minutes: u32)
    ensures
        minutes == duration_of(duration_minutes),
        minutes > 0,
        forall|d: u64| duration_minutes == Some(d) && 0 < d <= u32::MAX ==> minutes == d,
{
    match duration_minutes {
        Some(minutes) => if 0 < minutes && minutes <= 0xFFFF_FFFF {
            minutes as u32
        } else {
            DEFAULT_DURATION_MINUTES
        },
        None => DEFAULT_DURATION_MINUTES,
    }
}

/// The day for a stated token.
pub fn weekday_from(day_of_week: &Option<String>) -> (day: Option<Weekday>)
    ensures
        day == weekday_of(day_of_week.deep_view()),
{
    match day_of_week {
        None => None,
        Some(token) => {
            if same_text(token.as_str(), "monday") {
                Some(Weekday::Mon)
            } else if same_text(token.as_str(), "tuesday") {
                Some(Weekday::Tue)
            } else if same_text(token.as_str(), "wednesday") {
                Some(Weekday::Wed)
            } else if same_text(token.as_str(), "thursday") {
                Some(Weekday::Thu)
            } else if same_text(token.as_str(), "friday") {
                Some(Weekday::Fri)
            } else if same_text(token.as_str(), "saturday") {
                Some(Weekday::Sat)
            } else if same_text(token.as_str(), "sunday") {
                Some(Weekday::Sun)
            } else {
                None
            }
        },
    }
}

/// The preferences that the stated preferences stand for, in order; one that
/// lacks its start or its end is left out.
pub fn preferences_from(stated: &Vec<PreferenceExtraction>) -> (preferences: Vec<TimePreference>)
    ensures
        preferences.deep_view() == preferences_upto(stated.deep_view(), stated.len() as nat),
{
    let mut preferences: Vec<TimePreference> = Vec::new();
    let mut at: usize = 0;
    assert(preferences.deep_view() =~= preferences_upto(stated.deep_view(), 0));
    while at < stated.len()
        invariant
            at <= stated.len(),
            preferences.deep_view() == preferences_upto(stated.deep_view(), at as nat),
        decreases stated.len() - at,
    {
        let ghost before = preferences.deep_view();
        let one = &stated[at];
        assert(stated.deep_view()[at as int] == one@);
        match (&one.start_time, &one.end_time) {
            (Some(start), Some(end)) => {
                let preference = TimePreference {
                    day_of_week: weekday_from(&one.day_of_week),
                    start_time: start.clone(),
                    end_time: end.clone(),
                };
                preferences.push(preference);
                assert(preferences.deep_view() =~= before.push(preference_of(one@)));
            },
            _ => {},
        }
        at += 1;
    }
    preferences
}

/// Makes the goal that an extraction stands for: made at `now`, active,
/// with a default for whatever the extraction does not state.
pub fn goal_from_extraction(
    description: &str,
    user_id: &str,
    stated: &GoalExtraction,
    now: Instant,
) -> (goal: SchedulingGoal)
    ensures
        goal@ == goal_of(description@, user_id@, stated@, now),
        goal@.valid(),
        forall|d: u64|
            stated.duration_minutes == Some(d) && 0 < d <= u32::MAX ==> goal.duration_minutes
                == d,
{
    let mut id = "goal_".to_owned();
    push_signed_decimal(&mut id, now.secs);
    SchedulingGoal {
        id,
        user_id: user_id.to_owned(),
        goal_type: goal_type_from(&stated.goal_type, &stated.custom_type),
        description: description.to_owned(),
        frequency: frequency_from(&stated.frequency, stated.custom_frequency),
        duration_minutes: duration_from(stated.duration_minutes),
        preferred_times: preferences_from(&stated.preferred_times),
        created_at: now,
        is_active: true,
    }
}

fn read_preference_extraction(raw: &str) -> (stated: PreferenceExtraction)
    ensures
        stated@ == preference_extraction_in(raw@),
{
    let members = read_members(raw);
    PreferenceExtraction {
        day_of_week: field_text(&members, "day_of_week"),
        start_time: field_text(&members, "start_time"),
        end_time: field_text(&members, "end_time"),
    }
}

/// Reads what the answer of the completion service states of a goal: the
/// fields of the JSON object between the answer's first `{` and its last
/// `}`, each as far as it has the expected type. An answer without such an
/// object states nothing.
pub fn read_goal_extraction(completion: &str) -> (stated: GoalExtraction)
    ensures
        stated@ == goal_extraction_in(completion@),
        !holds_json_object(completion@) ==> stated@ == empty_extraction(),
{
    let members = read_answer_members(completion);
    let mut preferred_times: Vec<PreferenceExtraction> = Vec::new();
    let items = field_items(&members, "preferred_times");
    match &items {
        Some(items) => {
            let mut at: usize = 0;
            while at < items.len()
                invariant
                    at <= items.len(),
                    preferred_times.len() == at,
                    forall|i: int|
                        0 <= i < at ==> (#[trigger] preferred_times[i])@
                            == preference_extraction_in(items[i]@),
                decreases items.len() - at,
            {
                let one = read_preference_extraction(items[at].as_str());
                preferred_times.push(one);
                at += 1;
            }
            assert(preferred_times.deep_view() =~= Seq::new(
                items.deep_view().len(),
                |i: int| preference_extraction_in(items.deep_view()[i]),
            ));
        },
        None => {
            assert(preferred_times.deep_view() =~= Seq::empty());
        },
    }
    let stated = GoalExtraction {
        goal_type: field_text(&members, "goal_type"),
        custom_type: field_text(&members, "custom_type"),
        frequency: field_text(&members, "frequency"),
        custom_frequency: field_unsigned(&members, "custom_frequency"),
        duration_minutes: field_unsigned(&members, "duration_minutes"),
        preferred_times,
    };
    proof {
        if !holds_json_object(completion@) {
            lemma_unreadable_answer_states_nothing(completion@);
        }
    }
    stated
}

/// Makes a scheduling goal out of a free-text description and the answer
/// that the completion service gave when asked to extract the goal's
/// structure. A goal is made in every case: made at `now`, active, and with
/// the defaults (a custom category labelled `custom`, weekly, sixty minutes,
/// no preferred times) for whatever the answer does not state.
pub fn create_goal_from_natural_language(
    description: &str,
    user_id: &str,
    completion: &str,
    now: Instant,
) -> (goal: SchedulingGoal)
    ensures
        goal@ == goal_of(description@, user_id@, goal_extraction_in(completion@), now),
        goal@.valid(),
        goal.is_active,
        goal.created_at == now,
        !holds_json_object(completion@) ==> {
            &&& goal@.goal_type == GoalTypeModel::Custom("custom"@)
            &&& goal.frequency == Frequency::Weekly
            &&& goal.duration_minutes == DEFAULT_DURATION_MINUTES
            &&& goal.preferred_times@.len() == 0
        },
        forall|d: u64|
            goal_extraction_in(completion@).duration_minutes == Some(d) && 0 < d <= u32::MAX
                ==> goal.duration_minutes == d,
{
    let stated = read_goal_extraction(completion);
    let goal = goal_from_extraction(description, user_id, &stated, now);
    proof {
        lemma_defaults(description@, user_id@, now);
        assert(goal@.preferred_times.len() == goal.preferred_times@.len());
    }
    goal
}

} // verus!
