//! What is said to the completion service, and how its answer is taken out
//! of the envelope it comes in.

use vstd::prelude::*;
use vstd::string::*;
use crate::json::{
    field_items, field_layer, field_text, items_in, json_layer, members_in, read_members, text_in,
};
use crate::scheduler::ScheduleRequest;
use crate::text::{decimal, push_decimal};

verus! {

/// The model that is asked.
pub const COMPLETION_MODEL: &'static str = "llama3-70b-8192";

/// The standing instruction for reading a goal.
pub const GOAL_SYSTEM_PROMPT: &'static str =
    "You are a scheduling goal parser. Extract structured information from natural language goals.";

/// The standing instruction for suggesting time slots.
pub const SUGGESTION_SYSTEM_PROMPT: &'static str =
    "You are a smart scheduling assistant. Analyze the user's goals and existing calendar to suggest optimal time slots. Return suggestions in JSON format.";

/// The standing instruction for reading a ticket.
pub const TICKET_SYSTEM_PROMPT: &'static str =
    "You are a ticket analysis assistant. Extract event information from ticket content and return it in the specified JSON format.";

/// The most tokens an answer about a goal or a ticket may have.
pub const EXTRACTION_MAX_TOKENS: u32 = 500;

/// The most tokens an answer with suggestions may have.
pub const SUGGESTION_MAX_TOKENS: u32 = 1000;

/// What stands before the goal's description in the request to read a goal.
pub const GOAL_PROMPT_HEAD: &'static str =
    "Parse this scheduling goal and extract structured information:\n\nGoal: \"";

/// What stands behind the goal's description in the request to read a goal:
/// the JSON format that the answer is to have.
pub const GOAL_PROMPT_TAIL: &'static str =
    "\"\n\nReturn in this JSON format:\n{\n    \"goal_type\": \"exercise|hobby|learning|social|work|custom\",\n    \"custom_type\": \"Custom type if goal_type is 'custom'\",\n    \"frequency\": \"daily|weekly|monthly|custom\",\n    \"custom_frequency\": 5,\n    \"duration_minutes\": 60,\n    \"preferred_times\": [\n        {\n            \"day_of_week\": \"monday|tuesday|wednesday|thursday|friday|saturday|sunday|null\",\n            \"start_time\": \"09:00\",\n            \"end_time\": \"17:00\"\n        }\n    ]\n}";

/// What stands before the goal in the request for suggestions.
pub const SUGGESTION_PROMPT_HEAD: &'static str =
    "Given the following information, suggest 3 optimal time slots for the user's goal:\n\nGoal: ";

/// What stands behind the last part of the request for suggestions: the
/// task, and the JSON format that the answer is to have.
pub const SUGGESTION_PROMPT_TAIL: &'static str =
    "\n\nPlease suggest specific time slots in the next 7 days that don't conflict with existing events and match the user's preferences. \n\nReturn the response in this exact JSON format:\n{\n    \"suggestions\": [\n        {\n            \"title\": \"Event title\",\n            \"description\": \"Detailed description\",\n            \"start_time\": \"2025-01-20T10:00:00Z\",\n            \"end_time\": \"2025-01-20T11:00:00Z\", \n            \"confidence_score\": 0.85,\n            \"reasoning\": \"Why this time slot is optimal\"\n        }\n    ]\n}";

/// What stands before the ticket's content in the request to read a ticket.
pub const TICKET_PROMPT_HEAD: &'static str =
    "Analyze this ticket content and extract the following information in JSON format:\n{\n    \"event_name\": \"Event name\",\n    \"event_date\": \"YYYY-MM-DD\",\n    \"event_time\": \"HH:MM\",\n    \"venue\": \"Venue name\",\n    \"seat_info\": \"Seat information if available\",\n    \"ticket_type\": \"Ticket type if available\"\n}\n\nTicket content:\n";

/// The request to read the goal `description`.
pub open spec fn goal_prompt(description: Seq<char>) -> Seq<char> {
    GOAL_PROMPT_HEAD@ + description + GOAL_PROMPT_TAIL@
}

/// The request for suggestions: the goal, how long an occurrence lasts, the
/// events in the calendar and the preferred times, both as JSON.
pub open spec fn suggestion_prompt(
    goal_description: Seq<char>,
    duration_minutes: u32,
    events_json: Seq<char>,
    preferences_json: Seq<char>,
) -> Seq<char> {
    SUGGESTION_PROMPT_HEAD@ + goal_description + "\nDuration: "@ + decimal(
        duration_minutes as nat,
    ) + " minutes\nExisting events: "@ + events_json + "\nTime preferences: "@
        + preferences_json + SUGGESTION_PROMPT_TAIL@
}

/// The request to read the ticket `content`.
pub open spec fn ticket_prompt(content: Seq<char>) -> Seq<char> {
    TICKET_PROMPT_HEAD@ + content
}

/// The answer inside the envelope `body`: the string `content` of the
/// member `message` of the first item of `choices`.
pub open spec fn completion_content_in(body: Seq<char>) -> Option<Seq<char>> {
    match items_in(field_layer(members_in(json_layer(body)), "choices"@)) {
        Some(choices) => if choices.len() > 0 {
            let message = members_in(
                field_layer(members_in(json_layer(choices[0])), "message"@),
            );
            text_in(field_layer(message, "content"@))
        } else {
            None
        },
        None => None,
    }
}

/// Builds the request to read the goal `description`.
pub fn build_goal_prompt(description: &str) -> (prompt: String)
    ensures
        prompt@ == goal_prompt(description@),
{
    let mut prompt = GOAL_PROMPT_HEAD.to_owned();
    prompt.append(description);
    prompt.append(GOAL_PROMPT_TAIL);
    prompt
}

/// Builds the request for suggestions. `events_json` and `preferences_json`
/// are the request's events and preferences written as JSON.
pub fn build_suggestion_prompt(
    request: &ScheduleRequest,
    events_json: &str,
    preferences_json: &str,
) -> (prompt: String)
    ensures
        prompt@ == suggestion_prompt(
            request.goal_description@,
            request.duration_minutes,
            events_json@,
            preferences_json@,
        ),
{
    let mut prompt = SUGGESTION_PROMPT_HEAD.to_owned();
    prompt.append(request.goal_description.as_str());
    prompt.append("\nDuration: ");
    push_decimal(&mut prompt, request.duration_minutes as u64);
    prompt.append(" minutes\nExisting events: ");
    prompt.append(events_json);
    prompt.append("\nTime preferences: ");
    prompt.append(preferences_json);
    prompt.append(SUGGESTION_PROMPT_TAIL);
    prompt
}

/// Builds the request to read the ticket `content`.
pub fn build_ticket_prompt(content: &str) -> (prompt: String)
    ensures
        prompt@ == ticket_prompt(content@),
{
    let mut prompt = TICKET_PROMPT_HEAD.to_owned();
    prompt.append(content);
    prompt
}

/// Takes the answer out of the envelope `body` that the completion service
/// sent. `None` where the envelope has no first choice with a message whose
/// content is a string.
pub fn completion_content(body: &str) -> (content: Option<String>)
    ensures
        content.deep_view() == completion_content_in(body@),
{
    let root = read_members(body);
    match field_items(&root, "choices") {
        Some(choices) => {
            if choices.len() > 0 {
                assert(choices.deep_view()[0] == choices[0]@);
                let first = read_members(choices[0].as_str());
                let message = match crate::json::read_field(&first, "message") {
                    Some(crate::json::JsonLayer::Object(members)) => members,
                    _ => {
                        let none: Vec<(String, String)> = Vec::new();
                        assert(none.deep_view() =~= Seq::empty());
                        none
                    },
                };
                field_text(&message, "content")
            } else {
                None
            }
        },
        None => None,
    }
}

} // verus!
