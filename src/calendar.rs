//! Calendar data that the bridge reads itself: event date-times, and the rules that
//! pick a calendar and check a new event.
use vstd::prelude::*;
use crate::instant::{rfc3339_instant, UtcInstant};
use crate::text::opt_view;

verus! {

/// A start or end of an event: a UTC instant and an optional time zone name.
#[derive(Debug)]
pub struct EventDateTime {
    pub date_time: Option<UtcInstant>,
    pub time_zone: Option<String>,
}

/// The two shapes a date-time arrives in: a bare RFC 3339 string, or an object with
/// `dateTime` and `time_zone` members.
#[derive(Debug)]
pub enum EventDateTimeRepr {
    Text(String),
    Object { date_time: Option<String>, time_zone: Option<String> },
}

#[derive(Debug, Clone, Copy, PartialEq, Eq, Structural)]
pub enum CalendarError {
    /// A date-time text is not RFC 3339.
    InvalidDateTime,
    MissingSummary,
    MissingStartOrEnd,
}

impl CalendarError {
    pub fn message(&self) -> (r: String)
        ensures
            *self == CalendarError::InvalidDateTime ==> r@ == "failed to parse RFC3339 date-time string"@,
            *self == CalendarError::MissingSummary ==> r@ == "summary is required to create an event"@,
            *self == CalendarError::MissingStartOrEnd ==> r@ == "start and end dateTimes are required to create an event"@,
    {
        match self {
            CalendarError::InvalidDateTime => "failed to parse RFC3339 date-time string".to_owned(),
            CalendarError::MissingSummary => "summary is required to create an event".to_owned(),
            CalendarError::MissingStartOrEnd => "start and end dateTimes are required to create an event".to_owned(),
        }
    }
}

/// Whether `t` is the instant that chrono reads from `text`.
pub open spec fn instant_of(text: Seq<char>, t: UtcInstant) -> bool {
    rfc3339_instant(text) == Some((t.spec_secs(), t.spec_nanos()))
}

impl EventDateTime {
    /// Reads a date-time: a bare string is an RFC 3339 instant without a time zone; an
    /// object keeps its time zone and reads its `dateTime`, if any.
    pub fn from_repr(repr: EventDateTimeRepr) -> (r: Result<EventDateTime, CalendarError>)
        ensures
            match repr {
                EventDateTimeRepr::Text(s) => match r {
                    Ok(e) => e.time_zone is None && (e.date_time matches Some(t) && instant_of(s@, t)),
                    Err(err) => err == CalendarError::InvalidDateTime && rfc3339_instant(s@) is None,
                },
                EventDateTimeRepr::Object { date_time, time_zone } => match r {
                    Ok(e) => e.time_zone == time_zone && match date_time {
                        Some(s) => (e.date_time matches Some(t) && instant_of(s@, t)),
                        None => e.date_time is None,
                    },
                    Err(err) => err == CalendarError::InvalidDateTime && (date_time matches Some(s) && rfc3339_instant(s@) is None),
                },
            },
    {
        match repr {
            EventDateTimeRepr::Text(s) => match UtcInstant::parse(s.as_str()) {
                Some(t) => Ok(EventDateTime { date_time: Some(t), time_zone: None }),
                None => Err(CalendarError::InvalidDateTime),
            },
            EventDateTimeRepr::Object { date_time, time_zone } => {
                let parsed = match date_time {
                    Some(s) => match UtcInstant::parse(s.as_str()) {
                        Some(t) => Some(t),
                        None => return Err(CalendarError::InvalidDateTime),
                    },
                    None => None,
                };
                Ok(EventDateTime { date_time: parsed, time_zone })
            },
        }
    }
}

#[derive(Debug)]
pub struct EventAttendee {
    pub email: String,
    pub optional: bool,
    pub response_status: Option<String>,
}

#[derive(Debug)]
pub struct ReminderOverride {
    pub method: String,
    pub minutes: i64,
}

#[derive(Debug)]
pub struct EventReminders {
    pub use_default: bool,
    pub overrides: Option<Vec<ReminderOverride>>,
}

#[derive(Debug)]
pub struct GetEventParams {
    pub event_id: String,
    pub calendar_id: Option<String>,
}

/// The calendar a request addresses: its own choice, else the configured default,
/// else `primary`.
pub open spec fn chosen_calendar(override_id: Option<Seq<char>>, default_id: Option<Seq<char>>) -> Seq<char> {
    match override_id {
        Some(c) => c,
        None => match default_id {
            Some(d) => d,
            None => "primary"@,
        },
    }
}

pub fn resolve_calendar(override_id: &Option<String>, default_id: &Option<String>) -> (r: String)
    ensures
        r@ == chosen_calendar(opt_view(*override_id), opt_view(*default_id)),
{
    match override_id {
        Some(c) => c.clone(),
        None => match default_id {
            Some(d) => d.clone(),
            None => "primary".to_owned(),
        },
    }
}

/// A new event needs a summary, a start and an end.
pub fn check_new_event(has_summary: bool, has_start: bool, has_end: bool) -> (r: Result<(), CalendarError>)
    ensures
        !has_summary ==> r == Err::<(), _>(CalendarError::MissingSummary),
        has_summary && !(has_start && has_end) ==> r == Err::<(), _>(CalendarError::MissingStartOrEnd),
        has_summary && has_start && has_end ==> r is Ok,
{
    if !has_summary {
        return Err(CalendarError::MissingSummary);
    }
    if !has_start || !has_end {
        return Err(CalendarError::MissingStartOrEnd);
    }
    Ok(())
}

/// Outcome of a tool call.
#[derive(Debug, Clone, Copy, PartialEq, Eq, Structural)]
pub enum ResponseStatus {
    Success,
    Error,
}

impl ResponseStatus {
    /// The HTTP status a tool response is sent with.
    pub fn http_status(&self) -> (r: u16)
        ensures
            *self == ResponseStatus::Success ==> r == 200,
            *self == ResponseStatus::Error ==> r == 400,
    {
        match self {
            ResponseStatus::Success => 200,
            ResponseStatus::Error => 400,
        }
    }
}

} // verus!
