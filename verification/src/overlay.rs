//! What the overlay shows of an imported ticket, and when.

use vstd::prelude::*;
use vstd::string::*;
use crate::calendar::{analysis_in, AnalysisError, TicketAnalysis, TicketAnalysisModel};
use crate::instant::{instant_of_text, Instant};
use crate::storage::TicketRecord;
use crate::window::{is_record_active, priority_of_record, record_active, record_priority};

verus! {

/// The overlay's text for a ticket: a line for the event, one for the venue
/// and one for the date and the time of day.
pub open spec fn overlay_text(analysis: TicketAnalysisModel) -> Seq<char> {
    "\u{1F3AB} "@ + analysis.event_name + "\n\u{1F4CD} "@ + analysis.venue + "\n\u{23F0} "@
        + analysis.event_date + " "@ + analysis.event_time
}

/// Whether the overlay of a ticket is to be shown at `now`: from one hour
/// before its event to one hour after it. A ticket whose event time cannot
/// be read is never shown.
pub fn should_show_overlay(ticket: &TicketRecord, now: Instant) -> (show: bool)
    ensures
        show == record_active(instant_of_text(ticket.event_date@), now),
{
    let event = match ticket.get_event_datetime() {
        Ok(instant) => Some(instant),
        Err(_) => None,
    };
    is_record_active(event, now)
}

/// The overlay's text for an analysed ticket.
pub fn overlay_text_for(analysis: &TicketAnalysis) -> (text: String)
    ensures
        text@ == overlay_text(analysis@),
{
    let mut text = "\u{1F3AB} ".to_owned();
    text.append(analysis.event_name.as_str());
    text.append("\n\u{1F4CD} ");
    text.append(analysis.venue.as_str());
    text.append("\n\u{23F0} ");
    text.append(analysis.event_date.as_str());
    text.append(" ");
    text.append(analysis.event_time.as_str());
    text
}

/// The overlay's text for a stored ticket; the error where the ticket's
/// analysis cannot be read.
pub fn format_overlay_text(ticket: &TicketRecord) -> (text: Result<String, AnalysisError>)
    ensures
        match text {
            Ok(shown) => analysis_in(ticket.analysis@) is Ok && shown@ == overlay_text(
                analysis_in(ticket.analysis@)->Ok_0,
            ),
            Err(e) => analysis_in(ticket.analysis@) == Err::<TicketAnalysisModel, AnalysisError>(
                e,
            ),
        },
{
    match ticket.parse_analysis() {
        Ok(analysis) => Ok(overlay_text_for(&analysis)),
        Err(e) => Err(e),
    }
}

/// The number of the first `n` tickets whose overlay is to be shown at
/// `now`.
pub open spec fn overlays_upto(tickets: Seq<TicketRecord>, now: Instant, n: nat) -> nat
    decreases n,
{
    if n == 0 {
        0
    } else if record_active(instant_of_text(tickets[n - 1].event_date@), now) {
        overlays_upto(tickets, now, (n - 1) as nat) + 1
    } else {
        overlays_upto(tickets, now, (n - 1) as nat)
    }
}

/// How many of the tickets have an overlay to be shown at `now`.
pub fn count_overlays(tickets: &Vec<TicketRecord>, now: Instant) -> (count: usize)
    ensures
        count == overlays_upto(tickets@, now, tickets.len() as nat),
{
    let mut count: usize = 0;
    let mut at: usize = 0;
    while at < tickets.len()
        invariant
            at <= tickets.len(),
            count == overlays_upto(tickets@, now, at as nat),
            count <= at,
        decreases tickets.len() - at,
    {
        if should_show_overlay(&tickets[at], now) {
            count += 1;
        }
        at += 1;
    }
    count
}

/// The priority of a ticket's overlay at `now`: the nearer the event, the
/// higher; zero for a ticket whose event time cannot be read.
pub fn get_overlay_priority(ticket: &TicketRecord, now: Instant) -> (score: i32)
    ensures
        score == record_priority(instant_of_text(ticket.event_date@), now),
{
    let event = match ticket.get_event_datetime() {
        Ok(instant) => Some(instant),
        Err(_) => None,
    };
    priority_of_record(event, now)
}

} // verus!
