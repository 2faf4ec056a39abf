//! Calendar data: calendars, events, access rules and the analysis of an
//! imported ticket.

use vstd::prelude::*;
use vstd::string::*;
use crate::instant::Instant;
use crate::json::{
    field_layer, field_text, json_layer, members_in, read_field, read_layer, text_in, JsonLayer,
    JsonLayerModel,
};
use crate::text::{extract_json_object, object_text, same_text};

verus! {

/// A calendar of the user.
#[derive(Clone, Debug)]
pub struct Calendar {
    pub id: String,
    pub summary: String,
    pub description: Option<String>,
}

/// When an event starts or ends: an instant, or a whole day by its date.
#[derive(Clone, Debug)]
pub struct EventTime {
    pub date_time: Option<Instant>,
    pub date: Option<String>,
}

/// The mathematical content of an `EventTime`.
pub struct EventTimeModel {
    pub date_time: Option<Instant>,
    pub date: Option<Seq<char>>,
}

impl View for EventTime {
    type V = EventTimeModel;

    open spec fn view(&self) -> EventTimeModel {
        EventTimeModel { date_time: self.date_time, date: self.date.deep_view() }
    }
}

impl DeepView for EventTime {
    type V = EventTimeModel;

    open spec fn deep_view(&self) -> EventTimeModel {
        self@
    }
}

/// An event in a calendar.
#[derive(Clone, Debug)]
pub struct CalendarEvent {
    pub id: String,
    pub summary: String,
    pub description: Option<String>,
    pub start: EventTime,
    pub end: EventTime,
}

/// The mathematical content of a `CalendarEvent`.
pub struct CalendarEventModel {
    pub id: Seq<char>,
    pub summary: Seq<char>,
    pub description: Option<Seq<char>>,
    pub start: EventTimeModel,
    pub end: EventTimeModel,
}

impl View for CalendarEvent {
    type V = CalendarEventModel;

    open spec fn view(&self) -> CalendarEventModel {
        CalendarEventModel {
            id: self.id@,
            summary: self.summary@,
            description: self.description.deep_view(),
            start: self.start@,
            end: self.end@,
        }
    }
}

impl DeepView for CalendarEvent {
    type V = CalendarEventModel;

    open spec fn deep_view(&self) -> CalendarEventModel {
        self@
    }
}

/// What was read off an imported ticket.
#[derive(Clone, Debug)]
pub struct TicketAnalysis {
    pub event_name: String,
    pub event_date: String,
    pub event_time: String,
    pub venue: String,
    pub seat_info: Option<String>,
    pub ticket_type: Option<String>,
}

/// The mathematical content of a `TicketAnalysis`.
pub struct TicketAnalysisModel {
    pub event_name: Seq<char>,
    pub event_date: Seq<char>,
    pub event_time: Seq<char>,
    pub venue: Seq<char>,
    pub seat_info: Option<Seq<char>>,
    pub ticket_type: Option<Seq<char>>,
}

impl View for TicketAnalysis {
    type V = TicketAnalysisModel;

    open spec fn view(&self) -> TicketAnalysisModel {
        TicketAnalysisModel {
            event_name: self.event_name@,
            event_date: self.event_date@,
            event_time: self.event_time@,
            venue: self.venue@,
            seat_info: self.seat_info.deep_view(),
            ticket_type: self.ticket_type.deep_view(),
        }
    }
}

impl DeepView for TicketAnalysis {
    type V = TicketAnalysisModel;

    open spec fn deep_view(&self) -> TicketAnalysisModel {
        self@
    }
}

/// Why a text is no ticket analysis.
#[derive(Clone, Copy, Debug, PartialEq, Eq)]
pub enum AnalysisError {
    /// The text is not a JSON object.
    NotAnObject,
    /// A field that must be a string is missing or is something else.
    MissingField,
    /// A field that may be left out holds something that is neither a
    /// string nor null.
    MalformedField,
}

/// A field that may be left out, as read from a member's layer: no member
/// and null both stand for nothing; anything but a string is refused.
pub open spec fn optional_text_in(layer: Option<JsonLayerModel>) -> Result<Option<Seq<char>>, ()> {
    match layer {
        None => Ok(None),
        Some(JsonLayerModel::Null) => Ok(None),
        Some(JsonLayerModel::Text(t)) => Ok(Some(t)),
        Some(_) => Err(()),
    }
}

/// The ticket analysis that the JSON document `text` holds.
pub open spec fn analysis_in(text: Seq<char>) -> Result<TicketAnalysisModel, AnalysisError> {
    let members = members_in(json_layer(text));
    let event_name = text_in(field_layer(members, "event_name"@));
    let event_date = text_in(field_layer(members, "event_date"@));
    let event_time = text_in(field_layer(members, "event_time"@));
    let venue = text_in(field_layer(members, "venue"@));
    let seat_info = optional_text_in(field_layer(members, "seat_info"@));
    let ticket_type = optional_text_in(field_layer(members, "ticket_type"@));
    if !(json_layer(text) matches Some(JsonLayerModel::Object(_))) {
        Err(AnalysisError::NotAnObject)
    } else if event_name is None || event_date is None || event_time is None || venue is None {
        Err(AnalysisError::MissingField)
    } else if seat_info is Err || ticket_type is Err {
        Err(AnalysisError::MalformedField)
    } else {
        Ok(
            TicketAnalysisModel {
                event_name: event_name->0,
                event_date: event_date->0,
                event_time: event_time->0,
                venue: venue->0,
                seat_info: seat_info->Ok_0,
                ticket_type: ticket_type->Ok_0,
            },
        )
    }
}

fn optional_field(members: &Vec<(String, String)>, key: &str) -> (field: Result<Option<String>, ()>)
    ensures
        field is Ok <==> optional_text_in(field_layer(members.deep_view(), key@)) is Ok,
        field matches Ok(f) ==> optional_text_in(field_layer(members.deep_view(), key@)) == Ok::<
            Option<Seq<char>>,
            (),
        >(f.deep_view()),
{
    match read_field(members, key) {
        None => Ok(None),
        Some(JsonLayer::Null) => Ok(None),
        Some(JsonLayer::Text(t)) => Ok(Some(t)),
        Some(_) => Err(()),
    }
}

/// Reads a ticket analysis from a JSON object. The four fields `event_name`,
/// `event_date`, `event_time` and `venue` must be strings; `seat_info` and
/// `ticket_type` may be strings, null or left out.
pub fn parse_ticket_analysis(text: &str) -> (analysis: Result<TicketAnalysis, AnalysisError>)
    ensures
        analysis is Ok <==> analysis_in(text@) is Ok,
        analysis matches Ok(a) ==> analysis_in(text@) == Ok::<TicketAnalysisModel, AnalysisError>(
            a@,
        ),
        analysis matches Err(e) ==> analysis_in(text@) == Err::<TicketAnalysisModel, AnalysisError>(
            e,
        ),
{
    let layer = read_layer(text);
    let members = match layer {
        Some(JsonLayer::Object(members)) => members,
        _ => { return Err(AnalysisError::NotAnObject); },
    };
    let event_name = field_text(&members, "event_name");
    let event_date = field_text(&members, "event_date");
    let event_time = field_text(&members, "event_time");
    let venue = field_text(&members, "venue");
    let seat_info = optional_field(&members, "seat_info");
    let ticket_type = optional_field(&members, "ticket_type");
    match (event_name, event_date, event_time, venue) {
        (Some(event_name), Some(event_date), Some(event_time), Some(venue)) => {
            match (seat_info, ticket_type) {
                (Ok(seat_info), Ok(ticket_type)) => Ok(
                    TicketAnalysis {
                        event_name,
                        event_date,
                        event_time,
                        venue,
                        seat_info,
                        ticket_type,
                    },
                ),
                _ => Err(AnalysisError::MalformedField),
            }
        },
        _ => Err(AnalysisError::MissingField),
    }
}

/// Whom an access rule is about.
#[derive(Clone, Debug)]
pub struct AclScope {
    /// The kind of grantee: `user`, `group`, `domain` or `default`.
    pub type_: String,
    /// The grantee: an e-mail address or a domain.
    pub value: Option<String>,
}

/// One access rule of a calendar.
#[derive(Clone, Debug)]
pub struct AclRule {
    pub id: String,
    pub scope: Option<AclScope>,
    pub role: String,
}

/// The access rules of a calendar.
#[derive(Clone, Debug)]
pub struct AclResponse {
    pub items: Vec<AclRule>,
}

/// The user that an access rule names: the value of its scope, where the
/// scope is of the kind `user` and has a value.
pub open spec fn user_named(rule: AclRule) -> Option<Seq<char>> {
    match rule.scope {
        Some(scope) => if scope.type_@ == "user"@ && scope.value is Some {
            Some(scope.value->0@)
        } else {
            None
        },
        None => None,
    }
}

/// The users that the first `n` access rules name, in order.
pub open spec fn users_upto(rules: Seq<AclRule>, n: nat) -> Seq<Seq<char>>
    decreases n,
{
    if n == 0 {
        Seq::empty()
    } else if user_named(rules[n - 1]) is Some {
        users_upto(rules, (n - 1) as nat).push(user_named(rules[n - 1])->0)
    } else {
        users_upto(rules, (n - 1) as nat)
    }
}

/// The users with access to a calendar: for each rule about a user, in
/// order, the user it names.
pub fn calendar_users(response: &AclResponse) -> (users: Vec<String>)
    ensures
        users.deep_view() == users_upto(response.items@, response.items.len() as nat),
{
    let mut users: Vec<String> = Vec::new();
    let mut at: usize = 0;
    assert(users.deep_view() =~= users_upto(response.items@, 0));
    while at < response.items.len()
        invariant
            at <= response.items.len(),
            users.deep_view() == users_upto(response.items@, at as nat),
        decreases response.items.len() - at,
    {
        let ghost before = users.deep_view();
        match &response.items[at].scope {
            Some(scope) => {
                if same_text(scope.type_.as_str(), "user") {
                    match &scope.value {
                        Some(value) => {
                            users.push(value.clone());
                            assert(users.deep_view() =~= before.push(value@));
                        },
                        None => {},
                    }
                }
            },
            None => {},
        }
        at += 1;
    }
    users
}

/// The event that is made in the calendar for an imported ticket, as it is
/// sent.
#[derive(Clone, Debug)]
pub struct TicketEventDraft {
    pub summary: String,
    pub description: String,
    /// Date and time of day of the start, without offset.
    pub start_date_time: String,
    /// Date and time of day of the end, without offset.
    pub end_date_time: String,
    /// The time zone in which start and end are meant.
    pub time_zone: String,
}

/// What stands for a detail that a ticket does not state.
pub open spec fn detail_or_unknown(detail: Option<Seq<char>>) -> Seq<char> {
    match detail {
        Some(text) => text,
        None => "N/A"@,
    }
}

/// The summary of a ticket's event.
pub open spec fn ticket_summary(analysis: TicketAnalysisModel) -> Seq<char> {
    "\u{1F3AB} "@ + analysis.event_name
}

/// The description of a ticket's event: venue, seat and kind of ticket, a
/// line each.
pub open spec fn ticket_description(analysis: TicketAnalysisModel) -> Seq<char> {
    "Venue: "@ + analysis.venue + "\nSeat: "@ + detail_or_unknown(analysis.seat_info)
        + "\nType: "@ + detail_or_unknown(analysis.ticket_type)
}

/// Date and time of day of a ticket's event, seconds at zero.
pub open spec fn ticket_date_time(analysis: TicketAnalysisModel) -> Seq<char> {
    analysis.event_date + "T"@ + analysis.event_time + ":00"@
}

fn push_detail(out: &mut String, detail: &Option<String>)
    ensures
        final(out)@ == old(out)@ + detail_or_unknown(detail.deep_view()),
{
    match detail {
        Some(text) => out.append(text.as_str()),
        None => out.append("N/A"),
    }
}

fn date_time_text(analysis: &TicketAnalysis) -> (text: String)
    ensures
        text@ == ticket_date_time(analysis@),
{
    let mut text = analysis.event_date.clone();
    text.append("T");
    text.append(analysis.event_time.as_str());
    text.append(":00");
    text
}

/// The event to be made in the calendar for an imported ticket. It starts
/// and ends at the ticket's date and time of day, meant in UTC.
pub fn ticket_event_draft(analysis: &TicketAnalysis) -> (draft: TicketEventDraft)
    ensures
        draft.summary@ == ticket_summary(analysis@),
        draft.description@ == ticket_description(analysis@),
        draft.start_date_time@ == ticket_date_time(analysis@),
        draft.end_date_time@ == ticket_date_time(analysis@),
        draft.time_zone@ == "UTC"@,
{
    let mut summary = "\u{1F3AB} ".to_owned();
    summary.append(analysis.event_name.as_str());
    let mut description = "Venue: ".to_owned();
    description.append(analysis.venue.as_str());
    description.append("\nSeat: ");
    push_detail(&mut description, &analysis.seat_info);
    description.append("\nType: ");
    push_detail(&mut description, &analysis.ticket_type);
    TicketEventDraft {
        summary,
        description,
        start_date_time: date_time_text(analysis),
        end_date_time: date_time_text(analysis),
        time_zone: "UTC".to_owned(),
    }
}

/// Reads the ticket analysis out of the answer of the completion service:
/// the JSON object between the answer's first `{` and its last `}`.
pub fn analysis_from_completion(content: &str) -> (analysis: Result<TicketAnalysis, AnalysisError>)
    ensures
        match analysis {
            Ok(a) => object_text(content@) matches Some(object) && analysis_in(object) == Ok::<
                TicketAnalysisModel,
                AnalysisError,
            >(a@),
            Err(e) => match object_text(content@) {
                Some(object) => analysis_in(object) == Err::<TicketAnalysisModel, AnalysisError>(e),
                None => e == AnalysisError::NotAnObject,
            },
        },
{
    match extract_json_object(content) {
        Some(object) => parse_ticket_analysis(object.as_str()),
        None => Err(AnalysisError::NotAnObject),
    }
}

} // verus!
