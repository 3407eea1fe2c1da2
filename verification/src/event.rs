//! The calendar entry and its priority.

use vstd::prelude::*;

verus! {

/// The two-valued priority of an event.
#[derive(Clone, Copy, Debug, PartialEq, Eq, Structural)]
pub enum Urgency {
    Normal,
    Important,
}

impl Urgency {
    /// The capitalised English name of the priority.
    pub open spec fn name(self) -> Seq<char> {
        match self {
            Urgency::Normal => "Normal"@,
            Urgency::Important => "Important"@,
        }
    }

    /// The priority written out as text.
    pub fn to_string(&self) -> (text: String)
        ensures
            text@ == self.name(),
    {
        match self {
            Urgency::Normal => "Normal".to_owned(),
            Urgency::Important => "Important".to_owned(),
        }
    }
}

/// What an [`Event`] holds, as mathematical values.
pub struct EventView {
    pub id: u16,
    pub year: u16,
    pub month: u16,
    pub day: u16,
    pub event_name: Seq<char>,
    pub not_used_int: Seq<char>,
    pub not_used_string: Seq<char>,
    pub urgency: Urgency,
}

/// One calendar entry, as one row of the event list gives it.
///
/// The date components are kept as written: no calendar validity is asked
/// of them. The two `not_used` fields only keep the row's positions.
#[derive(Clone, Debug, PartialEq, Eq)]
pub struct Event {
    pub id: u16,
    pub year: u16,
    pub month: u16,
    pub day: u16,
    pub event_name: String,
    pub not_used_int: String,
    pub not_used_string: String,
    pub urgency: Urgency,
}

impl View for Event {
    type V = EventView;

    open spec fn view(&self) -> EventView {
        EventView {
            id: self.id,
            year: self.year,
            month: self.month,
            day: self.day,
            event_name: self.event_name@,
            not_used_int: self.not_used_int@,
            not_used_string: self.not_used_string@,
            urgency: self.urgency,
        }
    }
}

/// The views of a sequence of events, in the same order.
pub open spec fn events_view(events: Seq<Event>) -> Seq<EventView> {
    events.map_values(|e: Event| e@)
}

} // verus!
