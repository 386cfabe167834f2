use mcp_google_calendar::calendar::{
    check_new_event, resolve_calendar, CalendarError, EventDateTime, EventDateTimeRepr, ResponseStatus,
};

fn repr_from_json(json: &str) -> EventDateTimeRepr {
    let value: serde_json::Value = serde_json::from_str(json).unwrap();
    match value {
        serde_json::Value::String(s) => EventDateTimeRepr::Text(s),
        serde_json::Value::Object(map) => EventDateTimeRepr::Object {
            date_time: map.get("dateTime").and_then(|v| v.as_str()).map(|s| s.to_string()),
            time_zone: map.get("time_zone").and_then(|v| v.as_str()).map(|s| s.to_string()),
        },
        _ => panic!("unexpected json"),
    }
}

#[test]
fn event_date_time_accepts_rfc3339_string() {
    let json = "\"2025-10-14T12:34:56Z\"";
    let parsed: EventDateTime = EventDateTime::from_repr(repr_from_json(json)).unwrap();
    assert_eq!(
        parsed.date_time.unwrap().to_rfc3339(),
        "2025-10-14T12:34:56+00:00"
    );
    assert!(parsed.time_zone.is_none());
}

#[test]
fn event_date_time_object_keeps_time_zone() {
    let parsed = EventDateTime::from_repr(repr_from_json(
        "{\"dateTime\": \"2025-10-14T14:34:56+02:00\", \"time_zone\": \"Europe/Berlin\"}",
    ))
    .unwrap();
    assert_eq!(parsed.date_time.unwrap().secs(), 1_760_445_296);
    assert_eq!(parsed.time_zone.as_deref(), Some("Europe/Berlin"));
    let empty = EventDateTime::from_repr(repr_from_json("{}")).unwrap();
    assert!(empty.date_time.is_none());
    assert_eq!(
        EventDateTime::from_repr(repr_from_json("\"tomorrow\"")).err(),
        Some(CalendarError::InvalidDateTime)
    );
}

#[test]
fn calendar_choice_and_new_event_rules() {
    assert_eq!(resolve_calendar(&Some("work".to_string()), &Some("home".to_string())), "work");
    assert_eq!(resolve_calendar(&None, &Some("home".to_string())), "home");
    assert_eq!(resolve_calendar(&None, &None), "primary");
    assert_eq!(check_new_event(false, true, true), Err(CalendarError::MissingSummary));
    assert_eq!(check_new_event(true, true, false), Err(CalendarError::MissingStartOrEnd));
    assert_eq!(check_new_event(true, true, true), Ok(()));
    assert_eq!(CalendarError::MissingSummary.message(), "summary is required to create an event");
    assert_eq!(ResponseStatus::Success.http_status(), 200);
    assert_eq!(ResponseStatus::Error.http_status(), 400);
}
