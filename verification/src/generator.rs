//! From the answer of the completion service to a batch of schedule
//! suggestions.
//!
//! The service is asked for a JSON object with a `suggestions` array. Its
//! answer is untrusted text: an item that lacks its start or its end, or
//! that would not end after it starts, is dropped; what else an item leaves
//! out falls back to a default. An answer that cannot be read gives an empty
//! batch.

use vstd::prelude::*;
use vstd::string::*;
use crate::completion::{build_suggestion_prompt, suggestion_prompt};
use crate::confidence::{clamped_bits, Confidence, HALF_BITS};
use crate::instant::{instant_of_text, read_instant, Instant};
use crate::json::{
    answer_members, double_bits_in, field_double_bits, field_items, field_layer, field_text,
    items_in, json_layer, members_in, read_answer_members, read_members, text_in,
};
use crate::scheduler::{
    ScheduleRequest, ScheduleSuggestion, ScheduleSuggestionModel, SuggestionStatus,
};
use crate::keyed::distinct_keys;
use crate::storage::suggestion_key;
use crate::text::{decimal, push_decimal};

verus! {

/// Seconds between `now` and the end that stands in for an unreadable one.
pub const FALLBACK_SECONDS: i64 = 3600;

/// A start or an end as a candidate states it.
#[derive(Clone, Copy, Debug, PartialEq, Eq)]
pub enum TimeField {
    /// No string stands there.
    Absent,
    /// A string stands there that is no instant.
    Unreadable,
    /// The instant that stands there.
    At(Instant),
}

/// One item of the `suggestions` array, each field as far as it has the
/// expected JSON type.
#[derive(Clone, Debug)]
pub struct SuggestionCandidate {
    pub title: Option<String>,
    pub description: Option<String>,
    pub start_time: TimeField,
    pub end_time: TimeField,
    /// The bit pattern of the stated score, read as a double.
    pub confidence_bits: Option<u64>,
    pub reasoning: Option<String>,
}

/// The mathematical content of a `SuggestionCandidate`.
pub struct SuggestionCandidateModel {
    pub title: Option<Seq<char>>,
    pub description: Option<Seq<char>>,
    pub start_time: TimeField,
    pub end_time: TimeField,
    pub confidence_bits: Option<u64>,
    pub reasoning: Option<Seq<char>>,
}

impl View for SuggestionCandidate {
    type V = SuggestionCandidateModel;

    open spec fn view(&self) -> SuggestionCandidateModel {
        SuggestionCandidateModel {
            title: self.title.deep_view(),
            description: self.description.deep_view(),
            start_time: self.start_time,
            end_time: self.end_time,
            confidence_bits: self.confidence_bits,
            reasoning: self.reasoning.deep_view(),
        }
    }
}

impl DeepView for SuggestionCandidate {
    type V = SuggestionCandidateModel;

    open spec fn deep_view(&self) -> SuggestionCandidateModel {
        self@
    }
}

/// The start of a candidate: the stated instant, `now` for an unreadable
/// one, none where nothing is stated.
pub open spec fn start_of(field: TimeField, now: Instant) -> Option<Instant> {
    match field {
        TimeField::Absent => None,
        TimeField::Unreadable => Some(now),
        TimeField::At(instant) => Some(instant),
    }
}

/// The end of a candidate: the stated instant, one hour after `now` for an
/// unreadable one (as far as such an instant can be held), none where
/// nothing is stated.
pub open spec fn end_of(field: TimeField, now: Instant) -> Option<Instant> {
    match field {
        TimeField::Absent => None,
        TimeField::Unreadable => if now.secs + FALLBACK_SECONDS <= i64::MAX {
            Some(Instant { secs: (now.secs + FALLBACK_SECONDS) as i64, nanos: now.nanos })
        } else {
            None
        },
        TimeField::At(instant) => Some(instant),
    }
}

/// Whether a candidate becomes a suggestion: it has a start and an end, and
/// ends strictly after it starts.
pub open spec fn candidate_counts(candidate: SuggestionCandidateModel, now: Instant) -> bool {
    &&& start_of(candidate.start_time, now) matches Some(start)
    &&& end_of(candidate.end_time, now) matches Some(end)
    &&& start.position() < end.position()
}

/// The id of the suggestion made from the item at `index`.
pub open spec fn suggestion_id(index: nat) -> Seq<char> {
    "suggestion_"@ + decimal(index)
}

/// The text that a candidate states, else `fallback`.
pub open spec fn text_or(stated: Option<Seq<char>>, fallback: Seq<char>) -> Seq<char> {
    match stated {
        Some(text) => text,
        None => fallback,
    }
}

/// The score of a candidate: the stated one clamped to the span from zero
/// to one, one half where none is stated.
pub open spec fn score_of(stated: Option<u64>) -> u64 {
    match stated {
        Some(bits) => clamped_bits(bits),
        None => HALF_BITS,
    }
}

/// The suggestion that the candidate at `index`, which counts, stands for.
pub open spec fn suggestion_of(
    index: nat,
    candidate: SuggestionCandidateModel,
    goal_description: Seq<char>,
    now: Instant,
) -> ScheduleSuggestionModel {
    ScheduleSuggestionModel {
        id: suggestion_id(index),
        goal_id: "goal_temp"@,
        title: text_or(candidate.title, goal_description),
        description: text_or(candidate.description, Seq::empty()),
        start_time: start_of(candidate.start_time, now)->0,
        end_time: end_of(candidate.end_time, now)->0,
        confidence_bits: score_of(candidate.confidence_bits),
        reasoning: text_or(candidate.reasoning, Seq::empty()),
        created_at: now,
        status: SuggestionStatus::Pending,
    }
}

/// The suggestions that the first `n` candidates stand for, in order, those
/// that do not count left out.
pub open spec fn suggestions_upto(
    candidates: Seq<SuggestionCandidateModel>,
    goal_description: Seq<char>,
    now: Instant,
    n: nat,
) -> Seq<ScheduleSuggestionModel>
    decreases n,
{
    if n == 0 {
        Seq::empty()
    } else if candidate_counts(candidates[n - 1], now) {
        suggestions_upto(candidates, goal_description, now, (n - 1) as nat).push(
            suggestion_of((n - 1) as nat, candidates[n - 1], goal_description, now),
        )
    } else {
        suggestions_upto(candidates, goal_description, now, (n - 1) as nat)
    }
}

/// The number of the first `n` candidates that count.
pub open spec fn count_upto(candidates: Seq<SuggestionCandidateModel>, now: Instant, n: nat) -> nat
    decreases n,
{
    if n == 0 {
        0
    } else if candidate_counts(candidates[n - 1], now) {
        count_upto(candidates, now, (n - 1) as nat) + 1
    } else {
        count_upto(candidates, now, (n - 1) as nat)
    }
}

/// Every suggestion made from candidates is valid and pending, and there is
/// one for each candidate that counts.
pub proof fn lemma_suggestions_valid(
    candidates: Seq<SuggestionCandidateModel>,
    goal_description: Seq<char>,
    now: Instant,
    n: nat,
)
    requires
        n <= candidates.len(),
    ensures
        suggestions_upto(candidates, goal_description, now, n).len() == count_upto(
            candidates,
            now,
            n,
        ),
        suggestions_upto(candidates, goal_description, now, n).len() <= n,
        forall|i: int|
            0 <= i < suggestions_upto(candidates, goal_description, now, n).len() ==> {
                &&& (#[trigger] suggestions_upto(candidates, goal_description, now, n)[i]).valid()
                &&& suggestions_upto(candidates, goal_description, now, n)[i].status
                    == SuggestionStatus::Pending
            },
    decreases n,
{
    if n > 0 {
        lemma_suggestions_valid(candidates, goal_description, now, (n - 1) as nat);
        crate::confidence::lemma_clamped_in_unit_interval(
            candidates[n - 1].confidence_bits.unwrap_or(0),
        );
    }
}

/// Different places give different ids.
pub proof fn lemma_suggestion_id_injective(i: nat, j: nat)
    requires
        suggestion_id(i) == suggestion_id(j),
    ensures
        i == j,
{
    let tag = "suggestion_"@.len() as int;
    assert(decimal(i) =~= suggestion_id(i).subrange(tag, suggestion_id(i).len() as int));
    assert(decimal(j) =~= suggestion_id(j).subrange(tag, suggestion_id(j).len() as int));
    crate::text::lemma_decimal_injective(i, j);
}

/// No two suggestions of a batch have the same id: each is named after the
/// place of its candidate.
pub proof fn lemma_suggestion_ids_distinct(
    candidates: Seq<SuggestionCandidateModel>,
    goal_description: Seq<char>,
    now: Instant,
    n: nat,
)
    ensures
        distinct_keys(suggestions_upto(candidates, goal_description, now, n), suggestion_key()),
        forall|i: int|
            0 <= i < suggestions_upto(candidates, goal_description, now, n).len() ==> exists|
                k: nat,
            |
                k < n && (#[trigger] suggestions_upto(candidates, goal_description, now, n)[i]).id
                    == #[trigger] suggestion_id(k),
    decreases n,
{
    if n > 0 {
        let before = suggestions_upto(candidates, goal_description, now, (n - 1) as nat);
        let batch = suggestions_upto(candidates, goal_description, now, n);
        lemma_suggestion_ids_distinct(candidates, goal_description, now, (n - 1) as nat);
        assert forall|i: int| 0 <= i < batch.len() implies exists|k: nat|
            k < n && (#[trigger] batch[i]).id == #[trigger] suggestion_id(k) by {
            if i < before.len() {
                let k = choose|k: nat| k < n - 1 && before[i].id == #[trigger] suggestion_id(k);
                assert(k < n && batch[i].id == suggestion_id(k));
            } else {
                assert(batch[i].id == suggestion_id((n - 1) as nat));
            }
        }
        assert forall|i: int, j: int| 0 <= i < j < batch.len() implies suggestion_key()(
            #[trigger] batch[i],
        ) != suggestion_key()(#[trigger] batch[j]) by {
            if j == before.len() {
                let k = choose|k: nat| k < n - 1 && before[i].id == #[trigger] suggestion_id(k);
                if batch[i].id == batch[j].id {
                    lemma_suggestion_id_injective(k, (n - 1) as nat);
                }
            }
        }
    }
}

/// What a member's layer states of a start or an end.
pub open spec fn time_field_in(stated: Option<Seq<char>>) -> TimeField {
    match stated {
        None => TimeField::Absent,
        Some(text) => match instant_of_text(text) {
            Some(instant) => TimeField::At(instant),
            None => TimeField::Unreadable,
        },
    }
}

/// What the JSON text `raw` of one item states of a candidate.
pub open spec fn candidate_in(raw: Seq<char>) -> SuggestionCandidateModel {
    let members = members_in(json_layer(raw));
    SuggestionCandidateModel {
        title: text_in(field_layer(members, "title"@)),
        description: text_in(field_layer(members, "description"@)),
        start_time: time_field_in(text_in(field_layer(members, "start_time"@))),
        end_time: time_field_in(text_in(field_layer(members, "end_time"@))),
        confidence_bits: double_bits_in(field_layer(members, "confidence_score"@)),
        reasoning: text_in(field_layer(members, "reasoning"@)),
    }
}

/// The candidates that the answer of the completion service states: the
/// items of the `suggestions` array of its JSON object.
pub open spec fn candidates_in(response: Seq<char>) -> Seq<SuggestionCandidateModel> {
    match items_in(field_layer(answer_members(response), "suggestions"@)) {
        Some(items) => Seq::new(items.len(), |i: int| candidate_in(items[i])),
        None => Seq::empty(),
    }
}

/// The suggestions that the answer of the completion service stands for.
pub open spec fn suggestions_in(
    response: Seq<char>,
    goal_description: Seq<char>,
    now: Instant,
) -> Seq<ScheduleSuggestionModel> {
    suggestions_upto(
        candidates_in(response),
        goal_description,
        now,
        candidates_in(response).len(),
    )
}

fn text_or_else(stated: &Option<String>, fallback: &str) -> (text: String)
    ensures
        text@ == text_or(stated.deep_view(), fallback@),
{
    match stated {
        Some(text) => text.clone(),
        None => fallback.to_owned(),
    }
}

/// Makes the suggestion that the candidate at `index` stands for; `None`
/// for a candidate that does not count.
pub fn suggestion_from_candidate(
    index: usize,
    candidate: &SuggestionCandidate,
    goal_description: &str,
    now: Instant,
) -> (made: Option<ScheduleSuggestion>)
    ensures
        made is Some <==> candidate_counts(candidate@, now),
        made matches Some(suggestion) ==> suggestion@ == suggestion_of(
            index as nat,
            candidate@,
            goal_description@,
            now,
        ) && suggestion@.valid(),
{
    let start_time = match candidate.start_time {
        TimeField::Absent => { return None; },
        TimeField::Unreadable => now,
        TimeField::At(instant) => instant,
    };
    let end_time = match candidate.end_time {
        TimeField::Absent => { return None; },
        TimeField::Unreadable => match now.plus_seconds(FALLBACK_SECONDS) {
            Some(instant) => instant,
            None => { return None; },
        },
        TimeField::At(instant) => instant,
    };
    if !start_time.is_before(&end_time) {
        return None;
    }
    let mut id = "suggestion_".to_owned();
    push_decimal(&mut id, index as u64);
    let confidence_score = match candidate.confidence_bits {
        Some(bits) => Confidence::from_double_bits(bits),
        None => Confidence::unstated(),
    };
    proof {
        crate::confidence::lemma_clamped_in_unit_interval(candidate.confidence_bits.unwrap_or(0));
        reveal_strlit("");
        assert(""@ =~= Seq::<char>::empty());
    }
    Some(
        ScheduleSuggestion {
            id,
            goal_id: "goal_temp".to_owned(),
            title: text_or_else(&candidate.title, goal_description),
            description: text_or_else(&candidate.description, ""),
            start_time,
            end_time,
            confidence_score,
            reasoning: text_or_else(&candidate.reasoning, ""),
            created_at: now,
            status: SuggestionStatus::Pending,
        },
    )
}

/// Makes the batch of suggestions that a list of candidates stands for, in
/// the candidates' order. Each suggestion is pending, ends strictly after it
/// starts, has a score between zero and one, and is named after the place
/// of its candidate in the list.
pub fn suggestions_from_candidates(
    candidates: &Vec<SuggestionCandidate>,
    goal_description: &str,
    now: Instant,
) -> (batch: Vec<ScheduleSuggestion>)
    ensures
        batch.deep_view() == suggestions_upto(
            candidates.deep_view(),
            goal_description@,
            now,
            candidates.len() as nat,
        ),
        batch.len() == count_upto(candidates.deep_view(), now, candidates.len() as nat),
        forall|i: int|
            0 <= i < batch.len() ==> (#[trigger] batch[i])@.valid() && batch[i].status
                == SuggestionStatus::Pending,
        distinct_keys(batch.deep_view(), suggestion_key()),
{
    let mut batch: Vec<ScheduleSuggestion> = Vec::new();
    let mut at: usize = 0;
    assert(batch.deep_view() =~= suggestions_upto(
        candidates.deep_view(),
        goal_description@,
        now,
        0,
    ));
    while at < candidates.len()
        invariant
            at <= candidates.len(),
            batch.deep_view() == suggestions_upto(
                candidates.deep_view(),
                goal_description@,
                now,
                at as nat,
            ),
        decreases candidates.len() - at,
    {
        let ghost before = batch.deep_view();
        assert(candidates.deep_view()[at as int] == candidates[at as int]@);
        match suggestion_from_candidate(at, &candidates[at], goal_description, now) {
            Some(suggestion) => {
                batch.push(suggestion);
                assert(batch.deep_view() =~= before.push(suggestion@));
            },
            None => {},
        }
        at += 1;
    }
    proof {
        lemma_suggestions_valid(
            candidates.deep_view(),
            goal_description@,
            now,
            candidates.len() as nat,
        );
        lemma_suggestion_ids_distinct(
            candidates.deep_view(),
            goal_description@,
            now,
            candidates.len() as nat,
        );
        assert(batch.deep_view().len() == batch.len());
        assert forall|i: int| 0 <= i < batch.len() implies (#[trigger] batch[i])@.valid()
            && batch[i].status == SuggestionStatus::Pending by {
            assert(batch.deep_view()[i] == batch[i]@);
        }
    }
    batch
}

fn read_time_field(stated: &Option<String>) -> (field: TimeField)
    ensures
        field == time_field_in(stated.deep_view()),
{
    match stated {
        None => TimeField::Absent,
        Some(text) => match read_instant(text.as_str()) {
            Some(instant) => TimeField::At(instant),
            None => TimeField::Unreadable,
        },
    }
}

fn read_candidate(raw: &str) -> (candidate: SuggestionCandidate)
    ensures
        candidate@ == candidate_in(raw@),
{
    let members = read_members(raw);
    let start_time = field_text(&members, "start_time");
    let end_time = field_text(&members, "end_time");
    SuggestionCandidate {
        title: field_text(&members, "title"),
        description: field_text(&members, "description"),
        start_time: read_time_field(&start_time),
        end_time: read_time_field(&end_time),
        confidence_bits: field_double_bits(&members, "confidence_score"),
        reasoning: field_text(&members, "reasoning"),
    }
}

/// Reads the candidates that the answer of the completion service states:
/// the items of the `suggestions` array of the JSON object between the
/// answer's first `{` and its last `}`. An answer without such an array
/// states none.
pub fn read_candidates(response: &str) -> (candidates: Vec<SuggestionCandidate>)
    ensures
        candidates.deep_view() == candidates_in(response@),
{
    let members = read_answer_members(response);
    let mut candidates: Vec<SuggestionCandidate> = Vec::new();
    let items = field_items(&members, "suggestions");
    match &items {
        Some(items) => {
            let mut at: usize = 0;
            while at < items.len()
                invariant
                    at <= items.len(),
                    candidates.len() == at,
                    forall|i: int|
                        0 <= i < at ==> (#[trigger] candidates[i])@ == candidate_in(items[i]@),
                decreases items.len() - at,
            {
                let one = read_candidate(items[at].as_str());
                candidates.push(one);
                at += 1;
            }
            assert(candidates.deep_view() =~= Seq::new(
                items.deep_view().len(),
                |i: int| candidate_in(items.deep_view()[i]),
            ));
        },
        None => {
            assert(candidates.deep_view() =~= Seq::empty());
        },
    }
    candidates
}

/// The suggestion with its goal set to `goal_id` and nothing else changed.
pub open spec fn bound_to(
    suggestion: ScheduleSuggestionModel,
    goal_id: Seq<char>,
) -> ScheduleSuggestionModel {
    ScheduleSuggestionModel { goal_id, ..suggestion }
}

/// A copy of the batch in which every suggestion belongs to the goal
/// `goal_id`.
pub fn bind_to_goal(batch: &Vec<ScheduleSuggestion>, goal_id: &str) -> (bound: Vec<
    ScheduleSuggestion,
>)
    ensures
        bound.len() == batch.len(),
        forall|i: int|
            0 <= i < batch.len() ==> (#[trigger] bound[i])@ == bound_to(batch[i]@, goal_id@),
        distinct_keys(batch.deep_view(), suggestion_key()) ==> distinct_keys(
            bound.deep_view(),
            suggestion_key(),
        ),
{
    let mut bound: Vec<ScheduleSuggestion> = Vec::new();
    let mut at: usize = 0;
    while at < batch.len()
        invariant
            at <= batch.len(),
            bound.len() == at,
            forall|i: int|
                0 <= i < at ==> (#[trigger] bound[i])@ == bound_to(batch[i]@, goal_id@),
        decreases batch.len() - at,
    {
        let one = &batch[at];
        bound.push(
            ScheduleSuggestion {
                id: one.id.clone(),
                goal_id: goal_id.to_owned(),
                title: one.title.clone(),
                description: one.description.clone(),
                start_time: one.start_time,
                end_time: one.end_time,
                confidence_score: one.confidence_score,
                reasoning: one.reasoning.clone(),
                created_at: one.created_at,
                status: one.status,
            },
        );
        at += 1;
    }
    proof {
        if distinct_keys(batch.deep_view(), suggestion_key()) {
            let ids = suggestion_key();
            assert forall|i: int, j: int| 0 <= i < j < bound.deep_view().len() implies ids(
                #[trigger] bound.deep_view()[i],
            ) != ids(#[trigger] bound.deep_view()[j]) by {
                assert(bound.deep_view()[i] == bound[i]@);
                assert(bound.deep_view()[j] == bound[j]@);
                assert(batch.deep_view()[i] == batch[i]@);
                assert(batch.deep_view()[j] == batch[j]@);
            }
        }
    }
    bound
}

/// Builds the request for the candidate generator and reads its answers.
#[derive(Clone, Copy, Debug)]
pub struct SuggestionEngine;

impl SuggestionEngine {
    /// A new engine. It holds no state.
    pub fn new() -> (engine: Self)
        ensures
            engine == SuggestionEngine,
    {
        SuggestionEngine
    }

    /// Builds the request for suggestions. `events_json` and
    /// `preferences_json` are the request's events and preferences written
    /// as JSON.
    pub fn build_suggestion_prompt(
        &self,
        request: &ScheduleRequest,
        events_json: &str,
        preferences_json: &str,
    ) -> (prompt: String)
        ensures
            prompt@ == suggestion_prompt(
                request.goal_description@,
                request.duration_minutes,
                events_json@,
                preferences_json@,
            ),
    {
        build_suggestion_prompt(request, events_json, preferences_json)
    }

    /// Reads the batch of suggestions that the answer `ai_response` stands
    /// for. The suggestions are not bound to a goal yet.
    pub fn parse_suggestions(
        &self,
        ai_response: &str,
        goal_description: &str,
        now: Instant,
    ) -> (batch: Vec<ScheduleSuggestion>)
        ensures
            batch.deep_view() == suggestions_in(ai_response@, goal_description@, now),
            batch.len() <= candidates_in(ai_response@).len(),
            forall|i: int|
                0 <= i < batch.len() ==> (#[trigger] batch[i])@.valid() && batch[i].status
                    == SuggestionStatus::Pending,
            distinct_keys(batch.deep_view(), suggestion_key()),
    {
        let candidates = read_candidates(ai_response);
        proof {
            lemma_suggestions_valid(
                candidates.deep_view(),
                goal_description@,
                now,
                candidates.len() as nat,
            );
        }
        suggestions_from_candidates(&candidates, goal_description, now)
    }

    /// Reads the batch of suggestions that the completion service gave in
    /// answer to `request`.
    pub fn generate_suggestions(
        &self,
        request: &ScheduleRequest,
        completion: &str,
        now: Instant,
    ) -> (batch: Vec<ScheduleSuggestion>)
        ensures
            batch.deep_view() == suggestions_in(completion@, request.goal_description@, now),
            forall|i: int|
                0 <= i < batch.len() ==> (#[trigger] batch[i])@.valid() && batch[i].status
                    == SuggestionStatus::Pending,
            distinct_keys(batch.deep_view(), suggestion_key()),
    {
        self.parse_suggestions(completion, request.goal_description.as_str(), now)
    }
}

} // verus!
