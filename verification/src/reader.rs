//! Reading the event list: the data is split into records, and every record
//! is decoded into an event, or the whole read fails.

use vstd::prelude::*;
use crate::event::{Event, EventView, Urgency, events_view};
use crate::number::{field_u16, parse_u16};

verus! {

/// How many fields a record of the event list has.
pub const RECORD_FIELDS: usize = 8;

/// Why a record is no event.
#[derive(Clone, Copy, Debug, PartialEq, Eq, Structural)]
pub enum RecordFault {
    /// The record does not have exactly eight fields.
    FieldCount,
    /// The id, the year, the month or the day is no number of sixteen bits.
    Number,
    /// The last field is neither `normal` nor `important`.
    Urgency,
}

/// Why the event list could not be read.
#[derive(Clone, Copy, Debug, PartialEq, Eq, Structural)]
pub enum ReadError {
    /// The data could not be split into records.
    Malformed,
    /// The record at `index`, counted from zero after the header, is no
    /// event; every record before it is one.
    Record { index: usize, fault: RecordFault },
}

/// The priority that a token names. Only the two lower-case tokens name one.
pub open spec fn urgency_of(token: Seq<char>) -> Option<Urgency> {
    if token == "normal"@ {
        Some(Urgency::Normal)
    } else if token == "important"@ {
        Some(Urgency::Important)
    } else {
        None
    }
}

/// What is wrong with a record, if anything: the first fault in the order
/// of its fields, after their number.
pub open spec fn record_fault(fields: Seq<Seq<char>>) -> Option<RecordFault> {
    if fields.len() != RECORD_FIELDS {
        Some(RecordFault::FieldCount)
    } else if field_u16(fields[0]) is None || field_u16(fields[1]) is None || field_u16(
        fields[2],
    ) is None || field_u16(fields[3]) is None {
        Some(RecordFault::Number)
    } else if urgency_of(fields[7]) is None {
        Some(RecordFault::Urgency)
    } else {
        None
    }
}

/// The event that a record without fault stands for: its fields in the
/// order id, year, month, day, name, two unused fields, priority.
pub open spec fn record_event(fields: Seq<Seq<char>>) -> EventView {
    EventView {
        id: field_u16(fields[0]).unwrap(),
        year: field_u16(fields[1]).unwrap(),
        month: field_u16(fields[2]).unwrap(),
        day: field_u16(fields[3]).unwrap(),
        event_name: fields[4],
        not_used_int: fields[5],
        not_used_string: fields[6],
        urgency: urgency_of(fields[7]).unwrap(),
    }
}

/// The events that records without fault stand for, in the same order.
pub open spec fn record_events(records: Seq<Seq<Seq<char>>>) -> Seq<EventView> {
    records.map_values(|fields: Seq<Seq<char>>| record_event(fields))
}

/// `outcome` is what decoding `records` gives: all the events, when no
/// record has a fault, and else the first record that has one with its fault.
pub open spec fn decodes_to(
    records: Seq<Seq<Seq<char>>>,
    outcome: Result<Vec<Event>, ReadError>,
) -> bool {
    match outcome {
        Ok(events) => {
            &&& forall|i: int| 0 <= i < records.len() ==> (#[trigger] record_fault(records[i]))
                is None
            &&& events_view(events@) == record_events(records)
        },
        Err(ReadError::Record { index, fault }) => {
            &&& index < records.len()
            &&& record_fault(records[index as int]) == Some(fault)
            &&& forall|i: int| 0 <= i < index ==> (#[trigger] record_fault(records[i])) is None
        },
        Err(ReadError::Malformed) => false,
    }
}

/// Whether two strings hold the same text.
pub fn same_text(a: &str, b: &str) -> (same: bool)
    ensures
        same == (a@ == b@),
{
    let left = a.as_bytes();
    let right = b.as_bytes();
    proof {
        vstd::utf8::encode_utf8_decode_utf8(a@);
        vstd::utf8::encode_utf8_decode_utf8(b@);
    }
    if left.len() != right.len() {
        return false;
    }
    let mut i: usize = 0;
    while i < left.len()
        invariant
            i <= left.len(),
            left.len() == right.len(),
            left@ == vstd::utf8::encode_utf8(a@),
            right@ == vstd::utf8::encode_utf8(b@),
            forall|k: int| 0 <= k < i ==> left@[k] == right@[k],
        decreases left.len() - i,
    {
        if left[i] != right[i] {
            return false;
        }
        i += 1;
    }
    assert(left@ =~= right@);
    true
}

/// Decodes the token of a priority.
pub fn parse_urgency(token: &str) -> (urgency: Option<Urgency>)
    ensures
        urgency == urgency_of(token@),
{
    if same_text(token, "normal") {
        Some(Urgency::Normal)
    } else if same_text(token, "important") {
        Some(Urgency::Important)
    } else {
        None
    }
}

/// Decodes one record into an event, or says what its first fault is.
pub fn decode_record(fields: &Vec<String>) -> (outcome: Result<Event, RecordFault>)
    ensures
        match outcome {
            Ok(event) => record_fault(fields.deep_view()) is None && event@ == record_event(
                fields.deep_view(),
            ),
            Err(fault) => record_fault(fields.deep_view()) == Some(fault),
        },
{
    if fields.len() != RECORD_FIELDS {
        return Err(RecordFault::FieldCount);
    }
    let id = parse_u16(fields[0].as_str());
    let year = parse_u16(fields[1].as_str());
    let month = parse_u16(fields[2].as_str());
    let day = parse_u16(fields[3].as_str());
    let urgency = parse_urgency(fields[7].as_str());
    match (id, year, month, day) {
        (Some(id), Some(year), Some(month), Some(day)) => match urgency {
            Some(urgency) => Ok(
                Event {
                    id,
                    year,
                    month,
                    day,
                    event_name: fields[4].clone(),
                    not_used_int: fields[5].clone(),
                    not_used_string: fields[6].clone(),
                    urgency,
                },
            ),
            None => Err(RecordFault::Urgency),
        },
        _ => Err(RecordFault::Number),
    }
}

/// Decodes the records of an event list, all or nothing: the events in the
/// order of the records, or the first record that is no event.
pub fn decode_records(records: &Vec<Vec<String>>) -> (outcome: Result<Vec<Event>, ReadError>)
    ensures
        decodes_to(records.deep_view(), outcome),
{
    let mut events: Vec<Event> = Vec::new();
    let mut i: usize = 0;
    while i < records.len()
        invariant
            i <= records.len(),
            events.len() == i,
            forall|k: int|
                0 <= k < i ==> (#[trigger] record_fault(records.deep_view()[k])) is None,
            forall|k: int|
                0 <= k < i ==> (#[trigger] events@[k])@ == record_event(records.deep_view()[k]),
        decreases records.len() - i,
    {
        match decode_record(&records[i]) {
            Ok(event) => {
                events.push(event);
            },
            Err(fault) => {
                return Err(ReadError::Record { index: i, fault });
            },
        }
        i += 1;
    }
    assert(events_view(events@) =~= record_events(records.deep_view()));
    Ok(events)
}

/// The error of the `csv` crate, carried through as it is.
#[verifier::external_type_specification]
#[verifier::external_body]
pub struct ExCsvError(csv::Error);

/// The records that the `csv` crate finds in `data` after the header, each
/// as the text of its fields, or `None` where it reports an error: what
/// `csv::Reader::from_reader` and the iterator of `Reader::records` give
/// with the reader's default configuration, in which the first record is
/// the header and is not handed out.
pub uninterp spec fn csv_records(data: Seq<u8>) -> Option<Seq<Seq<Seq<char>>>>;

/// Splits `data` into records with `csv::Reader::from_reader` and
/// `Reader::records`, and copies every field of every `StringRecord` into a
/// `String`. Not proved: that the result is [`csv_records`] of the data,
/// which holds because the reader works on the bytes in memory alone, and
/// that the first error met ends the reading.
#[verifier::external_body]
fn split_records(data: &[u8]) -> (records: Result<Vec<Vec<String>>, csv::Error>)
    ensures
        match records {
            Ok(records) => csv_records(data@) == Some(records.deep_view()),
            Err(_) => csv_records(data@) is None,
        },
{
    let mut reader = csv::Reader::from_reader(data);
    let mut records = Vec::new();
    for record in reader.records() {
        records.push(record?.iter().map(|field| field.to_owned()).collect());
    }
    Ok(records)
}

/// `outcome` is what reading the event list in `data` gives: the decoding
/// of its records, where the data can be split into records, and
/// [`ReadError::Malformed`] where it cannot.
pub open spec fn reads_as(data: Seq<u8>, outcome: Result<Vec<Event>, ReadError>) -> bool {
    match csv_records(data) {
        Some(records) => decodes_to(records, outcome),
        None => outcome == Err::<Vec<Event>, ReadError>(ReadError::Malformed),
    }
}

/// Reads an event list: the first line is a header, whose names are not
/// looked at, and each record after it is one event. Either every record is
/// an event, and the events come back in the order of the records, or the
/// read fails as a whole.
pub fn read_csv_events(data: &[u8]) -> (outcome: Result<Vec<Event>, ReadError>)
    ensures
        reads_as(data@, outcome),
{
    match split_records(data) {
        Ok(records) => decode_records(&records),
        Err(_) => Err(ReadError::Malformed),
    }
}

/// A record is valid: it has eight fields, its first four stand for
/// numbers of sixteen bits, and its last is one of the two tokens.
pub open spec fn valid_record(fields: Seq<Seq<char>>) -> bool {
    &&& fields.len() == RECORD_FIELDS
    &&& field_u16(fields[0]) is Some
    &&& field_u16(fields[1]) is Some
    &&& field_u16(fields[2]) is Some
    &&& field_u16(fields[3]) is Some
    &&& (fields[7] == "normal"@ || fields[7] == "important"@)
}

/// `event` holds the fields of a record as they stand: the four numbers
/// that the first four fields stand for, the text of the next three, and
/// the priority that the last field names.
pub open spec fn holds_fields(event: EventView, fields: Seq<Seq<char>>) -> bool {
    &&& field_u16(fields[0]) == Some(event.id)
    &&& field_u16(fields[1]) == Some(event.year)
    &&& field_u16(fields[2]) == Some(event.month)
    &&& field_u16(fields[3]) == Some(event.day)
    &&& event.event_name == fields[4]
    &&& event.not_used_int == fields[5]
    &&& event.not_used_string == fields[6]
    &&& fields[7] == "normal"@ ==> event.urgency == Urgency::Normal
    &&& fields[7] == "important"@ ==> event.urgency == Urgency::Important
}

/// Where every record is valid, the read succeeds with one event for each
/// record, in the order of the records, and each event holds the fields of
/// its record as they stand.
pub proof fn lemma_valid_records_are_read(
    records: Seq<Seq<Seq<char>>>,
    outcome: Result<Vec<Event>, ReadError>,
)
    requires
        forall|i: int| 0 <= i < records.len() ==> #[trigger] valid_record(records[i]),
        decodes_to(records, outcome),
    ensures
        outcome matches Ok(events) && events@.len() == records.len() && forall|i: int|
            0 <= i < records.len() ==> holds_fields(#[trigger] events@[i]@, records[i]),
{
    reveal_strlit("normal");
    reveal_strlit("important");
    match outcome {
        Ok(events) => {
            assert(events_view(events@).len() == record_events(records).len());
            assert forall|i: int| 0 <= i < records.len() implies holds_fields(
                #[trigger] events@[i]@,
                records[i],
            ) by {
                assert(record_fault(records[i]) is None);
                assert(record_events(records)[i] == record_event(records[i]));
                assert("normal"@.len() == 6 && "important"@.len() == 9);
            }
        },
        Err(ReadError::Record { index, fault }) => {
            assert(valid_record(records[index as int]));
        },
        Err(ReadError::Malformed) => {},
    }
}

/// Where one record is not valid, the read fails and gives no events at
/// all, whatever the other records hold.
pub proof fn lemma_invalid_record_fails(
    records: Seq<Seq<Seq<char>>>,
    outcome: Result<Vec<Event>, ReadError>,
    index: int,
)
    requires
        0 <= index < records.len(),
        !valid_record(records[index]),
        decodes_to(records, outcome),
    ensures
        outcome is Err,
{
    if outcome is Ok {
        assert(record_fault(records[index]) is None);
    }
}

} // verus!
