//! Google Calendar: the events of the next two days.
use vstd::prelude::*;
use crate::connectors::registry::{actions_of, immediate_reply, lemma_supports, ConnectorKind};
use crate::connectors::http::{pair, pair_is, Body, HttpRequest, Method};
use crate::connectors::traits::{
    failure, is_failure, is_unsupported, unsupported, ConnectorMeta, InboxItem, MutationPlan,
    MutationRequest,
};
use crate::json::{entry, fields_of, is_text, str_eq, text_entry, text_field, JsonValue};
use crate::time::{parse_time_or, rfc3339_text, time_or, utc_representable, UtcTime};
use crate::types::opt_text;

verus! {

/// A connector to one Google calendar through an API key.
#[derive(Clone, Debug)]
pub struct CalendarConnector {
    pub api_key: String,
    pub calendar_id: String,
}

/// The start or end of an event: a date and time, or a whole day.
#[derive(Clone, Debug)]
pub struct EventTime {
    pub date_time: Option<String>,
    pub date: Option<String>,
}

/// An event as the Calendar API reports it.
#[derive(Clone, Debug)]
pub struct CalendarEvent {
    pub id: String,
    pub summary: Option<String>,
    pub description: Option<String>,
    pub start: Option<EventTime>,
    pub end: Option<EventTime>,
    pub status: Option<String>,
    pub html_link: Option<String>,
}

/// Seconds in two days.
pub const TWO_DAYS_SECS: i64 = 172800;

/// The text of an event's start or end: its date and time, else its date, else `unknown`.
pub open spec fn event_time_text(t: Option<EventTime>) -> Seq<char> {
    match t {
        Some(e) => match e.date_time {
            Some(d) => d@,
            None => match e.date {
                Some(d) => d@,
                None => "unknown"@,
            },
        },
        None => "unknown"@,
    }
}

/// The event was cancelled.
pub open spec fn is_cancelled(e: CalendarEvent) -> bool {
    e.status matches Some(s) && s@ == "cancelled"@
}

/// The events that were not cancelled, in order.
pub open spec fn live_events(events: Seq<CalendarEvent>) -> Seq<CalendarEvent>
    decreases events.len(),
{
    if events.len() == 0 {
        Seq::empty()
    } else if is_cancelled(events.last()) {
        live_events(events.drop_last())
    } else {
        live_events(events.drop_last()).push(events.last())
    }
}

/// The events captured are all the events but those whose status is exactly
/// `cancelled`, in their order.
pub proof fn live_events_skip_only_cancelled(events: Seq<CalendarEvent>)
    ensures
        live_events(events) == events.filter(
            (|e: CalendarEvent| !(e.status matches Some(st) && st@ == "cancelled"@)),
        ),
    decreases events.len(),
{
    reveal_with_fuel(Seq::filter, 1);
    if events.len() > 0 {
        live_events_skip_only_cancelled(events.drop_last());
    }
}

/// The captured item for an event.
pub open spec fn is_event_item(item: InboxItem, event: CalendarEvent, now: UtcTime) -> bool {
    let start = event_time_text(event.start);
    let end = event_time_text(event.end);
    &&& item.source@ == "calendar"@
    &&& item.external_id@ == event.id@
    &&& item.title@ == match event.summary {
        Some(s) => s@,
        None => "(no title)"@,
    }
    &&& item.content@ == start + " — "@ + end + "\n"@ + opt_text(event.description)
    &&& fields_of(item.metadata).len() == 3
    &&& text_field(fields_of(item.metadata)[0], "start"@, start)
    &&& text_field(fields_of(item.metadata)[1], "end"@, end)
    &&& fields_of(item.metadata)[2].0@ == "link"@
    &&& match event.html_link {
        Some(l) => is_text(fields_of(item.metadata)[2].1, l@),
        None => fields_of(item.metadata)[2].1 is Null,
    }
    &&& item.timestamp == time_or(start, now)
}

/// The URL of the calendar's events.
pub open spec fn events_url(calendar_id: Seq<char>) -> Seq<char> {
    "https://www.googleapis.com/calendar/v3/calendars/"@ + calendar_id + "/events"@
}

/// The text of an event's start or end.
fn time_text(t: &Option<EventTime>) -> (r: String)
    ensures
        r@ == event_time_text(*t),
{
    match t {
        Some(e) => match &e.date_time {
            Some(d) => d.clone(),
            None => match &e.date {
                Some(d) => d.clone(),
                None => "unknown".to_owned(),
            },
        },
        None => "unknown".to_owned(),
    }
}

impl CalendarConnector {
    /// A connector with the given key and calendar.
    pub fn new(api_key: String, calendar_id: String) -> (r: CalendarConnector)
        ensures
            r.api_key == api_key,
            r.calendar_id == calendar_id,
    {
        CalendarConnector { api_key, calendar_id }
    }

    /// The request for the events from `now` to two days later, ordered by
    /// start time, at most 20. `None` when chrono cannot represent one of the two times.
    pub fn events_request(&self, now: UtcTime) -> (r: Option<HttpRequest>)
        ensures
            r is Some <==> (utc_representable(now.secs, now.nanos) && now.secs + TWO_DAYS_SECS <= i64::MAX
                && utc_representable((now.secs + TWO_DAYS_SECS) as i64, now.nanos)),
            r matches Some(h) ==> {
                &&& h.method == Method::Get
                &&& h.url@ == events_url(self.calendar_id@)
                &&& h.headers@.len() == 0
                &&& h.query@.len() == 6
                &&& pair_is(h.query@[0], "key"@, self.api_key@)
                &&& pair_is(h.query@[1], "timeMin"@, rfc3339_text(now))
                &&& pair_is(h.query@[2], "timeMax"@, rfc3339_text(UtcTime { secs: (now.secs + TWO_DAYS_SECS) as i64, nanos: now.nanos }))
                &&& pair_is(h.query@[3], "singleEvents"@, "true"@)
                &&& pair_is(h.query@[4], "orderBy"@, "startTime"@)
                &&& pair_is(h.query@[5], "maxResults"@, "20"@)
                &&& h.body is Empty
            },
    {
        let time_min = match now.rfc3339() {
            Some(t) => t,
            None => return None,
        };
        if now.secs > i64::MAX - TWO_DAYS_SECS {
            return None;
        }
        let later = UtcTime { secs: now.secs + TWO_DAYS_SECS, nanos: now.nanos };
        let time_max = match later.rfc3339() {
            Some(t) => t,
            None => return None,
        };
        let mut url = "https://www.googleapis.com/calendar/v3/calendars/".to_owned();
        url.append(self.calendar_id.as_str());
        url.append("/events");
        let mut query = Vec::new();
        query.push(pair("key", self.api_key.as_str()));
        query.push(pair("timeMin", time_min.as_str()));
        query.push(pair("timeMax", time_max.as_str()));
        query.push(pair("singleEvents", "true"));
        query.push(pair("orderBy", "startTime"));
        query.push(pair("maxResults", "20"));
        Some(HttpRequest { method: Method::Get, url, headers: Vec::new(), query, body: Body::Empty })
    }

    /// The captured item for an event.
    pub fn event_item(event: CalendarEvent, now: UtcTime) -> (r: InboxItem)
        ensures
            is_event_item(r, event, now),
    {
        let start = time_text(&event.start);
        let end = time_text(&event.end);
        let mut content = start.clone();
        content.append(" — ");
        content.append(end.as_str());
        content.append("\n");
        match &event.description {
            Some(d) => content.append(d.as_str()),
            None => {
                assert(content@ =~= content@ + Seq::<char>::empty());
            },
        }
        let title = match event.summary {
            Some(s) => s,
            None => "(no title)".to_owned(),
        };
        let link = match event.html_link {
            Some(l) => JsonValue::Str(l),
            None => JsonValue::Null,
        };
        let timestamp = parse_time_or(start.as_str(), now);
        let mut fields = Vec::new();
        fields.push(text_entry("start", start.as_str()));
        fields.push(text_entry("end", end.as_str()));
        fields.push(entry("link", link));
        InboxItem {
            source: "calendar".to_owned(),
            external_id: event.id,
            title,
            content,
            metadata: JsonValue::Object(fields),
            timestamp,
        }
    }

    /// The captured items: one for each event that was not cancelled, in order.
    pub fn event_items(events: Vec<CalendarEvent>, now: UtcTime) -> (r: Vec<InboxItem>)
        ensures
            r@.len() == live_events(events@).len(),
            forall|i: int| 0 <= i < r@.len() ==> is_event_item(#[trigger] r@[i], live_events(events@)[i], now),
    {
        let ghost all = events@;
        let mut rest = crate::seqs::reversed(events);
        let mut r = Vec::new();
        while rest.len() > 0
            invariant
                rest@.len() <= all.len(),
                forall|i: int| 0 <= i < rest@.len() ==> rest@[i] == all[all.len() - 1 - i],
                r@.len() == live_events(all.take(all.len() - rest@.len())).len(),
                forall|i: int| 0 <= i < r@.len() ==> is_event_item(#[trigger] r@[i], live_events(all.take(all.len() - rest@.len()))[i], now),
            decreases rest.len(),
        {
            let ghost done = all.take(all.len() - rest@.len());
            let event = rest.pop().unwrap();
            proof {
                let next = all.take(all.len() - rest@.len());
                assert(next.drop_last() == done);
                assert(next.last() == event);
            }
            let cancelled = match &event.status {
                Some(s) => str_eq(s.as_str(), "cancelled"),
                None => false,
            };
            if !cancelled {
                r.push(Self::event_item(event, now));
            }
        }
        assert(all.take(all.len() as int) == all);
        r
    }

    /// Whether an item is still pending: events always are until they end.
    pub fn is_pending(&self, external_id: &str) -> (r: bool)
        ensures
            r,
    {
        true
    }

    /// The actions this connector supports.
    pub fn supported_actions(&self) -> (r: Vec<&'static str>)
        ensures
            r@.len() == 1,
            r@[0]@ == "create_event"@,
            r@.len() == actions_of(ConnectorKind::Calendar).len(),
            forall|i: int| 0 <= i < r@.len() ==> #[trigger] r@[i]@ == actions_of(ConnectorKind::Calendar)[i],
    {
        let mut r = Vec::new();
        r.push("create_event");
        r
    }

    /// What a mutation does: `create_event` is not implemented; anything else is unsupported.
    pub fn plan(&self, request: &MutationRequest) -> (r: MutationPlan<()>)
        ensures
            (r matches MutationPlan::Reply(m) && is_unsupported(m, request.action@))
                <==> !actions_of(ConnectorKind::Calendar).contains(request.action@),
            match immediate_reply(ConnectorKind::Calendar, request.action@) {
                Some(msg) => r matches MutationPlan::Reply(m) && !m.success && m.message@ == msg && m.data is None,
                None => r is Send,
            },
            request.action@ == "create_event"@ ==> (r matches MutationPlan::Reply(m) && is_failure(
                m,
                "create_event is not yet implemented"@,
            )),
            request.action@ != "create_event"@ ==> (r matches MutationPlan::Reply(m) && is_unsupported(m, request.action@)),
    {
        proof {
            lemma_supports(ConnectorKind::Calendar, request.action@);
        }
        if str_eq(request.action.as_str(), "create_event") {
            proof {
                reveal_strlit("create_event is not yet implemented");
                reveal_strlit("unsupported action: ");
                assert("create_event is not yet implemented"@[0] != ("unsupported action: "@ + request.action@)[0]);
            }
            MutationPlan::Reply(failure("create_event is not yet implemented"))
        } else {
            MutationPlan::Reply(unsupported(request.action.as_str()))
        }
    }
}

impl ConnectorMeta for CalendarConnector {
    fn source_name(&self) -> (r: &str)
        ensures
            r@ == "calendar"@,
    {
        "calendar"
    }
}

} // verus!
