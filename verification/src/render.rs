//! The HTML document of the day's events.

use vstd::prelude::*;
use crate::event::{Event, EventView, Urgency, events_view};
use crate::number::{decimal_digits, push_decimal};

verus! {

/// What every document starts with: the page's head, its styles and its
/// title block.
pub const PAGE_HEAD: &'static str = r#"
	<!DOCTYPE html>
<html lang="es">
<head>
    <meta charset="UTF-8">
    <meta name="viewport" content="width=device-width, initial-scale=1.0">
    <title>Eingehende Ereignisse</title>
    <style>
        body {
            font-family: 'Helvetica Neue', Arial, sans-serif;
            line-height: 1.6;
            color: #333;
            max-width: 650px;
            margin: 0 auto;
            padding: 20px;
            background-color: #f9f9f9;
        }
        .header {
            text-align: center;
            margin-bottom: 30px;
            padding-bottom: 20px;
            border-bottom: 1px solid #eaeaea;
        }
        .header h1 {
            font-weight: 300;
            color: #2c3e50;
            margin-bottom: 5px;
        }
        .header p {
            color: #7f8c8d;
            margin-top: 0;
        }
        .event {
            background: white;
            padding: 20px;
            margin-bottom: 15px;
            border-radius: 4px;
            box-shadow: 0 2px 4px rgba(0,0,0,0.05);
            transition: all 0.3s ease;
        }
        .event:hover {
            box-shadow: 0 5px 15px rgba(0,0,0,0.1);
        }
        .event-date {
            font-size: 14px;
            color: #7f8c8d;
            margin-bottom: 5px;
        }
        .event-name {
            font-size: 18px;
            font-weight: 500;
            color: #2c3e50;
            margin: 0 0 10px 0;
        }
        .event-urgency {
            display: inline-block;
            padding: 3px 8px;
            font-size: 12px;
            border-radius: 3px;
            text-transform: uppercase;
            letter-spacing: 0.5px;
        }
        .normal {
            background-color: #ecf0f1;
            color: #7f8c8d;
        }
        .important {
            background-color: #ffeaa7;
            color: #e17055;
        }
    </style>
</head>
<body>
    <div class="header">
        <h1>Kommende Veranstaltungen</h1>
        <p>Dies sind Ihre wichtigsten Veranstaltungen für heute</p>
    </div>
    "#;

/// What every document ends with.
pub const PAGE_FOOT: &'static str = r#"
    </body>
    </html>
    "#;

/// Opens an event block, up to its date.
pub const BLOCK_OPEN: &'static str = r#"<div class="event">
        <div class="event-date">"#;

/// Stands between the day and the month, and between the month and the year.
pub const DATE_SEPARATOR: &'static str = "/";

/// Closes the date and opens the event's name.
pub const NAME_OPEN: &'static str = r#"</div>
        <h2 class="event-name">"#;

/// Closes the name and opens the badge, up to its class.
pub const BADGE_OPEN: &'static str = r#"</h2>
        <span class="event-urgency "#;

/// Stands between the badge's class and its label.
pub const LABEL_OPEN: &'static str = r#"">"#;

/// Closes the badge and the block.
pub const BLOCK_CLOSE: &'static str = r#"</span>
    </div>"#;

/// The CSS class of the badge that shows a priority.
pub open spec fn badge_class(urgency: Urgency) -> Seq<char> {
    match urgency {
        Urgency::Normal => "normal"@,
        Urgency::Important => "important"@,
    }
}

/// The label of the badge that shows a priority.
pub open spec fn badge_label(urgency: Urgency) -> Seq<char> {
    match urgency {
        Urgency::Normal => "normal"@,
        Urgency::Important => "Important"@,
    }
}

/// An event's date as the document shows it: day, month and year in
/// decimal, in that order, with a slash between them.
pub open spec fn event_date(event: EventView) -> Seq<char> {
    decimal_digits(event.day as nat) + DATE_SEPARATOR@ + decimal_digits(event.month as nat)
        + DATE_SEPARATOR@ + decimal_digits(event.year as nat)
}

/// The block of one event: its date, its name as it stands, with nothing
/// escaped, and the badge of its priority.
pub open spec fn event_block(event: EventView) -> Seq<char> {
    BLOCK_OPEN@ + event_date(event) + NAME_OPEN@ + event.event_name + BADGE_OPEN@ + badge_class(
        event.urgency,
    ) + LABEL_OPEN@ + badge_label(event.urgency) + BLOCK_CLOSE@
}

/// The blocks of a sequence of events, one for each, in the same order.
pub open spec fn event_blocks(events: Seq<EventView>) -> Seq<Seq<char>> {
    events.map_values(|e: EventView| event_block(e))
}

/// The whole document: the head, the blocks one after another, the foot.
pub open spec fn document(events: Seq<EventView>) -> Seq<char> {
    PAGE_HEAD@ + event_blocks(events).flatten() + PAGE_FOOT@
}

/// The class and the label of the badge for a priority.
pub fn urgency_badge(urgency: Urgency) -> (badge: (&'static str, &'static str))
    ensures
        badge.0@ == badge_class(urgency),
        badge.1@ == badge_label(urgency),
{
    match urgency {
        Urgency::Normal => ("normal", "normal"),
        Urgency::Important => ("important", "Important"),
    }
}

/// Appends the block of `event` to `out`.
pub fn push_event_block(out: &mut String, event: &Event)
    ensures
        final(out)@ == old(out)@ + event_block(event@),
{
    let (class, label) = urgency_badge(event.urgency);
    out.append(BLOCK_OPEN);
    push_decimal(out, event.day);
    out.append(DATE_SEPARATOR);
    push_decimal(out, event.month);
    out.append(DATE_SEPARATOR);
    push_decimal(out, event.year);
    out.append(NAME_OPEN);
    out.append(event.event_name.as_str());
    out.append(BADGE_OPEN);
    out.append(class);
    out.append(LABEL_OPEN);
    out.append(label);
    out.append(BLOCK_CLOSE);
}

/// Renders the events as one HTML document: the fixed head, one block for
/// each event in the order given, the fixed foot.
pub fn create_html(vec_of_events: Vec<Event>) -> (html: String)
    ensures
        html@ == document(events_view(vec_of_events@)),
{
    let mut owned_html = PAGE_HEAD.to_owned();
    let ghost views = events_view(vec_of_events@);
    let mut i: usize = 0;
    while i < vec_of_events.len()
        invariant
            i <= vec_of_events.len(),
            views == events_view(vec_of_events@),
            owned_html@ == PAGE_HEAD@ + event_blocks(views.take(i as int)).flatten(),
        decreases vec_of_events.len() - i,
    {
        push_event_block(&mut owned_html, &vec_of_events[i]);
        proof {
            let before = event_blocks(views.take(i as int));
            let block = event_block(views[i as int]);
            assert(event_blocks(views.take(i + 1)) =~= before.push(block));
            before.lemma_flatten_push(block);
        }
        i += 1;
    }
    assert(views.take(i as int) =~= views);
    owned_html.append(PAGE_FOOT);
    owned_html
}

/// Where the block of the event at `index` starts in the document: after
/// the head and the blocks of the events before it. At the number of events
/// this is where the foot starts.
pub open spec fn block_start(events: Seq<EventView>, index: int) -> int {
    (PAGE_HEAD@.len() + event_blocks(events.take(index)).flatten().len()) as int
}

/// Rendering depends on what the events hold and on nothing else: events
/// that hold the same values, one by one, give the same document.
pub proof fn lemma_same_events_same_document(first: Seq<Event>, second: Seq<Event>)
    requires
        first.len() == second.len(),
        forall|i: int| 0 <= i < first.len() ==> first[i]@ == second[i]@,
    ensures
        document(events_view(first)) == document(events_view(second)),
{
    assert(events_view(first) =~= events_view(second));
}

/// The document of no events is the head followed at once by the foot.
pub proof fn lemma_empty_document()
    ensures
        event_blocks(Seq::<EventView>::empty()).len() == 0,
        document(Seq::<EventView>::empty()) == PAGE_HEAD@ + PAGE_FOOT@,
{
}

/// The document of `events` holds one block for each event and nothing
/// else between the head and the foot: the first block starts where the head
/// ends, the block of each event is the text from its start to the start of
/// the next, and the foot starts where the last block ends.
pub proof fn lemma_document_blocks(events: Seq<EventView>, index: int)
    requires
        0 <= index < events.len(),
    ensures
        event_blocks(events).len() == events.len(),
        block_start(events, 0) == PAGE_HEAD@.len(),
        block_start(events, index + 1) == block_start(events, index) + event_block(
            events[index],
        ).len(),
        document(events).subrange(block_start(events, index), block_start(events, index + 1))
            == event_block(events[index]),
        document(events).len() == block_start(events, events.len() as int) + PAGE_FOOT@.len(),
{
    let blocks = event_blocks(events);
    let before = event_blocks(events.take(index));
    let upto = event_blocks(events.take(index + 1));
    let after = event_blocks(events.skip(index + 1));
    let block = event_block(events[index]);
    assert(upto =~= before.push(block));
    before.lemma_flatten_push(block);
    assert(blocks =~= upto + after);
    vstd::seq_lib::lemma_flatten_concat(upto, after);
    assert(events.take(events.len() as int) =~= events);
    assert(document(events) =~= PAGE_HEAD@ + before.flatten() + block + after.flatten()
        + PAGE_FOOT@);
    assert(document(events).subrange(block_start(events, index), block_start(events, index + 1))
        =~= block);
}

} // verus!
