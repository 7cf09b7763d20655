use doubletime::cli::{EventAddCommand, EventCommand, EventSubcommand, EventUnstageCommand};
use doubletime::date::DisplayDate;
use doubletime::event::{
    display_date_from, execute, handle_default_strings, parse_command_line_date,
    resolve_display_date, Event, EventAction, EventError,
};

fn sample_event() -> Event {
    Event::new(
        1700000000,
        "0123456789abcdef0123456789abcdef".to_string(),
        "05-Jan-24".to_string(),
        &Some("fixed \"parser\"\nbug".to_string()),
        &Some("alpha".to_string()),
    )
}

#[test]
fn missing_text_becomes_null_marker() {
    assert_eq!(handle_default_strings(&None), "NULL");
    assert_eq!(handle_default_strings(&Some("work".to_string())), "work");
    assert_eq!(handle_default_strings(&Some(String::new())), "");
}

#[test]
fn new_event_defaults_missing_fields() {
    let e = Event::new(5, "id".to_string(), "01-Feb-24".to_string(), &None, &Some(String::new()));
    assert_eq!(e.message(), "NULL");
    assert_eq!(e.project(), "");
    assert_eq!(e.timestamp(), 5);
    assert_eq!(e.display_date(), "01-Feb-24");
    assert_eq!(e.id(), "id");
}

#[test]
fn date_formats_in_display_form() {
    let d = DisplayDate { year: 2024, month: 1, day: 5 };
    assert_eq!(d.to_text(), "05-Jan-24");
    let d = DisplayDate { year: 1999, month: 12, day: 31 };
    assert_eq!(d.to_text(), "31-Dec-99");
    let d = DisplayDate { year: 2000, month: 2, day: 29 };
    assert_eq!(d.to_text(), "29-Feb-00");
}

#[test]
fn display_date_from_parsed_or_error() {
    let given = "05-Jan-24".to_string();
    let r = display_date_from(Some(DisplayDate { year: 2024, month: 1, day: 5 }), &given);
    assert_eq!(r, Ok("05-Jan-24".to_string()));
    let bad = "2024-01-05".to_string();
    assert_eq!(display_date_from(None, &bad), Err(EventError::InvalidDate(bad.clone())));
}

#[test]
fn given_date_is_parsed() {
    let today = DisplayDate { year: 2023, month: 10, day: 1 };
    let r = resolve_display_date(&Some("05-Jan-24".to_string()), &today).unwrap();
    assert_eq!(r.text, "05-Jan-24");
    assert!(!r.defaulted);
}

#[test]
fn malformed_date_is_rejected() {
    let today = DisplayDate { year: 2023, month: 10, day: 1 };
    let r = resolve_display_date(&Some("2024-01-05".to_string()), &today);
    assert_eq!(r, Err(EventError::InvalidDate("2024-01-05".to_string())));
    let r = resolve_display_date(&Some("31-Feb-24".to_string()), &today);
    assert_eq!(r, Err(EventError::InvalidDate("31-Feb-24".to_string())));
}

#[test]
fn missing_date_defaults_to_given_today() {
    let today = DisplayDate { year: 2023, month: 10, day: 1 };
    let r = resolve_display_date(&None, &today).unwrap();
    assert_eq!(r.text, "01-Oct-23");
    assert!(r.defaulted);
}

#[test]
fn missing_date_defaults_to_local_today() {
    let before = chrono::Local::now().format("%d-%b-%y").to_string();
    let r = parse_command_line_date(&None).unwrap();
    let after = chrono::Local::now().format("%d-%b-%y").to_string();
    assert!(r.defaulted);
    assert!(r.text == before || r.text == after);
}

#[test]
fn created_event_has_fresh_hex_id() {
    let args = EventAddCommand { date: None, message: Some("m".to_string()), project: None };
    let a = Event::create(&args).unwrap();
    let b = Event::create(&args).unwrap();
    assert!(a.date_defaulted);
    assert_eq!(a.event.id().len(), 32);
    assert!(a.event.id().chars().all(|c| c.is_ascii_hexdigit() && !c.is_ascii_uppercase()));
    assert_ne!(a.event.id(), b.event.id());
    assert_eq!(a.event.message(), "m");
    assert_eq!(a.event.project(), "NULL");
    assert!(a.event.timestamp() > 1_600_000_000);
}

#[test]
fn created_event_rejects_bad_date() {
    let args = EventAddCommand { date: Some("January 5".to_string()), message: None, project: None };
    assert!(matches!(Event::create(&args), Err(EventError::InvalidDate(s)) if s == "January 5"));
}

#[test]
fn short_id_takes_eight_characters() {
    assert_eq!(sample_event().short_id(), "01234567");
    let e = Event::new(1, "abc".to_string(), "01-Jan-24".to_string(), &None, &None);
    assert_eq!(e.short_id(), "abc");
}

#[test]
fn json_form_is_exact() {
    let json = sample_event().to_json();
    assert_eq!(
        json,
        "{\"timestamp\":1700000000,\"message\":\"fixed \\\"parser\\\"\\nbug\",\"project\":\"alpha\",\"now_str\":\"05-Jan-24\",\"uuid\":\"0123456789abcdef0123456789abcdef\"}"
    );
}

#[test]
fn json_form_round_trips() {
    let e = sample_event();
    let v: serde_json::Value = serde_json::from_str(&e.to_json()).unwrap();
    assert_eq!(v["timestamp"].as_i64(), Some(e.timestamp()));
    assert_eq!(v["message"].as_str(), Some(e.message()));
    assert_eq!(v["project"].as_str(), Some(e.project()));
    assert_eq!(v["now_str"].as_str(), Some(e.display_date()));
    assert_eq!(v["uuid"].as_str(), Some(e.id()));
    assert_eq!(v.as_object().unwrap().len(), 5);
}

#[test]
fn json_form_of_negative_timestamp() {
    let e = Event::new(i64::MIN, "x".to_string(), "01-Jan-70".to_string(), &None, &None);
    let v: serde_json::Value = serde_json::from_str(&e.to_json()).unwrap();
    assert_eq!(v["timestamp"].as_i64(), Some(i64::MIN));
}

#[test]
fn execute_add_and_unstage() {
    let add = EventCommand {
        command: EventSubcommand::Add(EventAddCommand {
            date: Some("05-Jan-24".to_string()),
            message: None,
            project: Some("p".to_string()),
        }),
    };
    match execute(&add) {
        Ok(EventAction::Stage(a)) => {
            assert_eq!(a.event.display_date(), "05-Jan-24");
            assert_eq!(a.event.project(), "p");
            assert_eq!(a.event.message(), "NULL");
            assert!(!a.date_defaulted);
        }
        other => panic!("unexpected {:?}", other),
    }
    let unstage = EventCommand {
        command: EventSubcommand::Unstage(EventUnstageCommand { id: "abc123".to_string() }),
    };
    assert!(matches!(execute(&unstage), Ok(EventAction::Unstage(id)) if id == "abc123"));
}

#[test]
fn json_escapes_control_characters() {
    let e = Event::new(
        1,
        "id".to_string(),
        "01-Jan-24".to_string(),
        &Some("a\\b\tc\u{1}d\u{1f}é/".to_string()),
        &Some("\u{8}\u{c}\r".to_string()),
    );
    assert_eq!(
        e.to_json(),
        "{\"timestamp\":1,\"message\":\"a\\\\b\\tc\\u0001d\\u001fé/\",\"project\":\"\\b\\f\\r\",\"now_str\":\"01-Jan-24\",\"uuid\":\"id\"}"
    );
}
