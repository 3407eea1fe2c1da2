use calcure_reminder::event::{Event, Urgency};
use calcure_reminder::render::{
    create_html, push_event_block, urgency_badge, BADGE_OPEN, BLOCK_CLOSE, BLOCK_OPEN,
    DATE_SEPARATOR, LABEL_OPEN, NAME_OPEN, PAGE_FOOT, PAGE_HEAD,
};

const HEAD: &str = r#"
	<!DOCTYPE html>
<html lang="es">
<head>
    <meta charset="UTF-8">
    <meta name="viewport" content="width=device-width, initial-scale=1.0">
    <title>Eingehende Ereignisse</title>
    <style>
        body {
            font-family: 'Helvetica Neue', Arial, sans-serif;
            line-height: 1.6;
            color: #333;
            max-width: 650px;
            margin: 0 auto;
            padding: 20px;
            background-color: #f9f9f9;
        }
        .header {
            text-align: center;
            margin-bottom: 30px;
            padding-bottom: 20px;
            border-bottom: 1px solid #eaeaea;
        }
        .header h1 {
            font-weight: 300;
            color: #2c3e50;
            margin-bottom: 5px;
        }
        .header p {
            color: #7f8c8d;
            margin-top: 0;
        }
        .event {
            background: white;
            padding: 20px;
            margin-bottom: 15px;
            border-radius: 4px;
            box-shadow: 0 2px 4px rgba(0,0,0,0.05);
            transition: all 0.3s ease;
        }
        .event:hover {
            box-shadow: 0 5px 15px rgba(0,0,0,0.1);
        }
        .event-date {
            font-size: 14px;
            color: #7f8c8d;
            margin-bottom: 5px;
        }
        .event-name {
            font-size: 18px;
            font-weight: 500;
            color: #2c3e50;
            margin: 0 0 10px 0;
        }
        .event-urgency {
            display: inline-block;
            padding: 3px 8px;
            font-size: 12px;
            border-radius: 3px;
            text-transform: uppercase;
            letter-spacing: 0.5px;
        }
        .normal {
            background-color: #ecf0f1;
            color: #7f8c8d;
        }
        .important {
            background-color: #ffeaa7;
            color: #e17055;
        }
    </style>
</head>
<body>
    <div class="header">
        <h1>Kommende Veranstaltungen</h1>
        <p>Dies sind Ihre wichtigsten Veranstaltungen für heute</p>
    </div>
    "#;

const FOOT: &str = "\n    </body>\n    </html>\n    ";

fn rendered_event(id: u16, year: u16, month: u16, day: u16, name: &str, urgency: Urgency) -> Event {
    Event {
        id,
        year,
        month,
        day,
        event_name: name.to_owned(),
        not_used_int: String::new(),
        not_used_string: String::new(),
        urgency,
    }
}

fn expected_block(day: u16, month: u16, year: u16, name: &str, class: &str, label: &str) -> String {
    format!(
        "<div class=\"event\">\n        <div class=\"event-date\">{}/{}/{}</div>\n        <h2 class=\"event-name\">{}</h2>\n        <span class=\"event-urgency {}\">{}</span>\n    </div>",
        day, month, year, name, class, label
    )
}

#[test]
fn head_and_foot_are_the_fixed_template() {
    assert_eq!(PAGE_HEAD, HEAD);
    assert_eq!(PAGE_FOOT, FOOT);
    assert!(PAGE_HEAD.starts_with("\n\t<!DOCTYPE html>\n<html lang=\"es\">"));
    assert!(PAGE_HEAD.contains("<title>Eingehende Ereignisse</title>"));
    assert!(PAGE_HEAD.contains("<p>Dies sind Ihre wichtigsten Veranstaltungen f\u{fc}r heute</p>"));
    assert!(PAGE_HEAD.ends_with("</p>\n    </div>\n    "));
    assert_eq!(PAGE_HEAD.len(), 2047);
}

#[test]
fn block_pieces_are_the_fixed_template() {
    assert_eq!(BLOCK_OPEN, "<div class=\"event\">\n        <div class=\"event-date\">");
    assert_eq!(DATE_SEPARATOR, "/");
    assert_eq!(NAME_OPEN, "</div>\n        <h2 class=\"event-name\">");
    assert_eq!(BADGE_OPEN, "</h2>\n        <span class=\"event-urgency ");
    assert_eq!(LABEL_OPEN, "\">");
    assert_eq!(BLOCK_CLOSE, "</span>\n    </div>");
}

#[test]
fn empty_sequence_renders_head_and_foot_only() {
    let html = create_html(Vec::new());
    assert_eq!(html, format!("{}{}", HEAD, FOOT));
    assert_eq!(html.matches("<div class=\"event\">").count(), 0);
}

#[test]
fn one_normal_event_renders_one_block() {
    let html = create_html(vec![rendered_event(1, 2024, 6, 1, "Team Sync", Urgency::Normal)]);
    let expected = format!(
        "{}{}{}",
        HEAD,
        "<div class=\"event\">\n        <div class=\"event-date\">1/6/2024</div>\n        <h2 class=\"event-name\">Team Sync</h2>\n        <span class=\"event-urgency normal\">normal</span>\n    </div>",
        FOOT
    );
    assert_eq!(html, expected);
}

#[test]
fn one_important_event_renders_its_badge() {
    let html = create_html(vec![rendered_event(2, 2024, 6, 2, "Launch", Urgency::Important)]);
    let expected = format!(
        "{}{}{}",
        HEAD,
        "<div class=\"event\">\n        <div class=\"event-date\">2/6/2024</div>\n        <h2 class=\"event-name\">Launch</h2>\n        <span class=\"event-urgency important\">Important</span>\n    </div>",
        FOOT
    );
    assert_eq!(html, expected);
}

#[test]
fn two_events_render_two_blocks_in_order() {
    let html = create_html(vec![
        rendered_event(1, 2024, 6, 1, "Team Sync", Urgency::Normal),
        rendered_event(2, 2024, 6, 2, "Launch", Urgency::Important),
    ]);
    let expected = format!(
        "{}{}{}{}",
        HEAD,
        expected_block(1, 6, 2024, "Team Sync", "normal", "normal"),
        expected_block(2, 6, 2024, "Launch", "important", "Important"),
        FOOT
    );
    assert_eq!(html, expected);
    assert_eq!(html.matches("<div class=\"event\">").count(), 2);
    let first = html.find("1/6/2024").unwrap();
    let second = html.find("2/6/2024").unwrap();
    assert!(first < second);
}

#[test]
fn blocks_follow_one_another_without_separator() {
    let html = create_html(vec![
        rendered_event(1, 2024, 6, 1, "a", Urgency::Normal),
        rendered_event(2, 2024, 6, 2, "b", Urgency::Normal),
    ]);
    assert!(html.contains("</span>\n    </div><div class=\"event\">"));
}

#[test]
fn n_events_render_n_blocks() {
    let mut events = Vec::new();
    for i in 0..25u16 {
        let urgency = if i % 2 == 0 { Urgency::Normal } else { Urgency::Important };
        events.push(rendered_event(i, 2000 + i, 1 + i % 12, 1 + i, &format!("event {}", i), urgency));
    }
    let html = create_html(events.clone());
    assert_eq!(html.matches("<div class=\"event\">").count(), 25);
    assert_eq!(html.matches("<span class=\"event-urgency important\">Important</span>").count(), 12);
    assert_eq!(html.matches("<span class=\"event-urgency normal\">normal</span>").count(), 13);
    let mut expected = String::from(HEAD);
    for e in &events {
        let (class, label) = match e.urgency {
            Urgency::Normal => ("normal", "normal"),
            Urgency::Important => ("important", "Important"),
        };
        expected.push_str(&expected_block(e.day, e.month, e.year, &e.event_name, class, label));
    }
    expected.push_str(FOOT);
    assert_eq!(html, expected);
}

#[test]
fn rendering_is_deterministic() {
    let events = vec![
        rendered_event(1, 2024, 6, 1, "Team Sync", Urgency::Normal),
        rendered_event(2, 2024, 6, 2, "Launch", Urgency::Important),
    ];
    let first = create_html(events.clone());
    let second = create_html(events);
    assert_eq!(first.as_bytes(), second.as_bytes());
}

#[test]
fn rendering_ignores_id_and_unused_fields() {
    let mut a = rendered_event(1, 2024, 6, 1, "Team Sync", Urgency::Normal);
    let mut b = rendered_event(900, 2024, 6, 1, "Team Sync", Urgency::Normal);
    a.not_used_int = "x".to_owned();
    b.not_used_string = "y".to_owned();
    assert_eq!(create_html(vec![a]), create_html(vec![b]));
}

#[test]
fn event_name_is_not_escaped() {
    let html = create_html(vec![rendered_event(1, 2024, 6, 1, "<b>Tom & \"Jerry\"</b>", Urgency::Normal)]);
    assert!(html.contains("<h2 class=\"event-name\"><b>Tom & \"Jerry\"</b></h2>"));
}

#[test]
fn event_name_may_hold_any_text() {
    let html = create_html(vec![rendered_event(1, 2024, 6, 1, "Caf\u{e9} \u{1f389} {}", Urgency::Normal)]);
    assert!(html.contains("<h2 class=\"event-name\">Caf\u{e9} \u{1f389} {}</h2>"));
    let html = create_html(vec![rendered_event(1, 2024, 6, 1, "", Urgency::Normal)]);
    assert!(html.contains("<h2 class=\"event-name\"></h2>"));
}

#[test]
fn date_is_day_month_year_as_given() {
    let html = create_html(vec![rendered_event(1, 0, 13, 99, "odd", Urgency::Normal)]);
    assert!(html.contains("<div class=\"event-date\">99/13/0</div>"));
    let html = create_html(vec![rendered_event(1, 65535, 65535, 65535, "max", Urgency::Normal)]);
    assert!(html.contains("<div class=\"event-date\">65535/65535/65535</div>"));
    let html = create_html(vec![rendered_event(1, 2024, 12, 31, "end", Urgency::Normal)]);
    assert!(html.contains("<div class=\"event-date\">31/12/2024</div>"));
}

#[test]
fn push_event_block_appends_one_block() {
    let mut out = String::from("before");
    push_event_block(&mut out, &rendered_event(7, 1999, 2, 28, "Leap?", Urgency::Important));
    assert_eq!(out, format!("before{}", expected_block(28, 2, 1999, "Leap?", "important", "Important")));
}

#[test]
fn urgency_badge_maps_both_priorities() {
    assert_eq!(urgency_badge(Urgency::Normal), ("normal", "normal"));
    assert_eq!(urgency_badge(Urgency::Important), ("important", "Important"));
}

#[test]
fn urgency_is_written_out_capitalised() {
    assert_eq!(Urgency::Normal.to_string(), "Normal");
    assert_eq!(Urgency::Important.to_string(), "Important");
}
