use anima_flow::config::Config;
use anima_flow::connectors::calendar::{CalendarConnector, CalendarEvent, EventTime};
use anima_flow::connectors::chatwork::{ChatworkConnector, ChatworkReply};
use anima_flow::connectors::gmail::GmailConnector;
use anima_flow::connectors::http::{Body, Method};
use anima_flow::connectors::linear::{GqlIssue, GqlState, LinearConnector, LinearReply};
use anima_flow::connectors::registry::{build_connectors, mutation_for, ConnectorKind};
use anima_flow::connectors::slack::{parse_slack_ts, SlackConnector, SlackMessage, SlackReply};
use anima_flow::connectors::todoist::{TodoistConnector, TodoistDue, TodoistReply, TodoistTask};
use anima_flow::connectors::traits::{
    failure, status_error, status_result, unsupported, ConnectorMeta, MutationPlan,
    MutationRequest,
};
use anima_flow::error::Error;
use anima_flow::json::JsonValue;
use anima_flow::time::UtcTime;

const NOW: UtcTime = UtcTime { secs: 1_000, nanos: 0 };

fn obj(fields: &[(&str, &str)]) -> JsonValue {
    JsonValue::Object(
        fields.iter().map(|(k, v)| (k.to_string(), JsonValue::text(v))).collect(),
    )
}

fn request(action: &str, payload: JsonValue) -> MutationRequest {
    MutationRequest { action: action.to_string(), payload }
}

fn header<'a>(h: &'a [(String, String)], k: &str) -> Option<&'a str> {
    h.iter().find(|(n, _)| n == k).map(|(_, v)| v.as_str())
}

fn config(pairs: &[&str]) -> Config {
    let has = |k: &str| if pairs.contains(&k) { Some(format!("{k}-value")) } else { None };
    Config {
        database_url: "db".into(),
        anthropic_api_key: "key".into(),
        anthropic_model: "model".into(),
        embedding_dimensions: 1536,
        google_calendar_api_key: has("cal_key"),
        google_calendar_id: has("cal_id"),
        google_credentials_json: has("gmail"),
        slack_bot_token: has("slack"),
        linear_api_key: has("linear"),
        todoist_api_key: has("todoist"),
        chatwork_api_token: has("cw_token"),
        chatwork_room_id: has("cw_room"),
    }
}

#[test]
fn source_names() {
    assert_eq!(GmailConnector.source_name(), "gmail");
    assert_eq!(SlackConnector::new("t".into()).source_name(), "slack");
    assert_eq!(LinearConnector::new("k".into()).source_name(), "linear");
    assert_eq!(TodoistConnector::new("k".into()).source_name(), "todoist");
    assert_eq!(CalendarConnector::new("k".into(), "c".into()).source_name(), "calendar");
    assert_eq!(ChatworkConnector::new("t".into(), "r".into()).source_name(), "chatwork");
    assert_eq!(ConnectorKind::Todoist.source_name(), "todoist");
}

#[test]
fn stub_connectors_fetch_nothing() {
    assert!(GmailConnector.fetch_inbox().is_empty());
    assert!(GmailConnector.is_pending("x"));
    let cw = ChatworkConnector::new("t".into(), "r".into());
    assert!(cw.fetch_inbox().is_empty());
    assert!(cw.is_pending("x"));
}

#[test]
fn supported_actions_lists() {
    assert_eq!(SlackConnector::new("t".into()).supported_actions(), vec!["send_message", "add_reaction"]);
    assert_eq!(LinearConnector::new("k".into()).supported_actions(), vec!["update_issue_state", "create_comment"]);
    assert_eq!(TodoistConnector::new("k".into()).supported_actions(), vec!["complete_task", "create_task"]);
    assert_eq!(CalendarConnector::new("k".into(), "c".into()).supported_actions(), vec!["create_event"]);
    assert_eq!(ChatworkConnector::new("t".into(), "r".into()).supported_actions(), vec!["send_message"]);
}

#[test]
fn unsupported_actions_are_refused() {
    let payload = || JsonValue::Object(Vec::new());
    let check = |plan_message: Option<String>| {
        assert_eq!(plan_message.as_deref(), Some("unsupported action: delete_everything"));
    };
    let reply = |p: MutationPlan<()>| match p {
        MutationPlan::Reply(m) => {
            assert!(!m.success);
            assert!(m.data.is_none());
            Some(m.message)
        }
        MutationPlan::Send(..) => None,
    };
    check(reply(CalendarConnector::new("k".into(), "c".into()).plan(&request("delete_everything", payload()))));
    match SlackConnector::new("t".into()).plan(&request("delete_everything", payload())) {
        MutationPlan::Reply(m) => check(Some(m.message)),
        _ => panic!("expected a reply"),
    }
    match LinearConnector::new("k".into()).plan(&request("delete_everything", payload())) {
        MutationPlan::Reply(m) => check(Some(m.message)),
        _ => panic!("expected a reply"),
    }
    match TodoistConnector::new("k".into()).plan(request("delete_everything", payload())) {
        MutationPlan::Reply(m) => check(Some(m.message)),
        _ => panic!("expected a reply"),
    }
    match ChatworkConnector::new("t".into(), "r".into()).plan(&request("delete_everything", payload())) {
        MutationPlan::Reply(m) => check(Some(m.message)),
        _ => panic!("expected a reply"),
    }
}

#[test]
fn shared_results() {
    let u = unsupported("x");
    assert!(!u.success);
    assert_eq!(u.message, "unsupported action: x");
    let f = failure("nope");
    assert_eq!(f.message, "nope");
    assert!(!f.success && f.data.is_none());
    let ok = status_result(true, "200 OK", "done");
    assert!(ok.success);
    assert_eq!(ok.message, "done");
    let bad = status_result(false, "500 Internal Server Error", "done");
    assert_eq!(bad.message, "failed: 500 Internal Server Error");
    match status_error("linear", "401 Unauthorized", "bad key") {
        Error::Connector { connector, message } => {
            assert_eq!(connector, "linear");
            assert_eq!(message, "401 Unauthorized: bad key");
        }
        _ => panic!("expected a connector error"),
    }
}

#[test]
fn slack_timestamps() {
    assert_eq!(parse_slack_ts("1700000000.123456", NOW), UtcTime { secs: 1_700_000_000, nanos: 0 });
    assert_eq!(parse_slack_ts("1700000000", NOW), UtcTime { secs: 1_700_000_000, nanos: 0 });
    assert_eq!(parse_slack_ts("abc.def", NOW), NOW);
    assert_eq!(parse_slack_ts("", NOW), NOW);
    // Too far in the future for chrono.
    assert_eq!(parse_slack_ts("9223372036854775807.1", NOW), NOW);
}

#[test]
fn slack_message_items() {
    let long = "x".repeat(100);
    let item = SlackConnector::message_item(
        "D123",
        SlackMessage { ts: "1700000000.5".into(), text: long.clone(), user: Some("U9".into()) },
        NOW,
    );
    assert_eq!(item.source, "slack");
    assert_eq!(item.external_id, "D123:1700000000.5");
    assert_eq!(item.title, "x".repeat(80));
    assert_eq!(item.content, long);
    assert_eq!(item.metadata.str_field("channel").as_deref(), Some("D123"));
    assert_eq!(item.metadata.str_field("ts").as_deref(), Some("1700000000.5"));
    assert_eq!(item.metadata.str_field("user").as_deref(), Some("U9"));
    assert_eq!(item.timestamp, UtcTime { secs: 1_700_000_000, nanos: 0 });
    let anon = SlackConnector::message_item(
        "D1",
        SlackMessage { ts: "bad".into(), text: "hi".into(), user: None },
        NOW,
    );
    assert!(matches!(anon.metadata.get("user"), Some(JsonValue::Null)));
    assert_eq!(anon.timestamp, NOW);
}

#[test]
fn slack_requests() {
    let s = SlackConnector::new("xoxb-1".into());
    let auth = s.auth_test_request();
    assert_eq!(auth.method, Method::Get);
    assert_eq!(auth.url, "https://slack.com/api/auth.test");
    assert_eq!(header(&auth.headers, "Authorization"), Some("Bearer xoxb-1"));
    let list = s.conversations_list_request();
    assert_eq!(list.url, "https://slack.com/api/conversations.list");
    assert_eq!(list.query, vec![("types".to_string(), "im".to_string()), ("limit".to_string(), "20".to_string())]);
    let hist = s.history_request("D7");
    assert_eq!(hist.url, "https://slack.com/api/conversations.history");
    assert_eq!(hist.query, vec![("channel".to_string(), "D7".to_string()), ("limit".to_string(), "5".to_string())]);
    let many: Vec<String> = (0..15).map(|i| format!("D{i}")).collect();
    assert_eq!(SlackConnector::channels_to_read(many).len(), 10);
    assert_eq!(SlackConnector::channels_to_read(vec!["D1".into()]), vec!["D1".to_string()]);
}

#[test]
fn slack_bot_user() {
    assert_eq!(SlackConnector::bot_user_id(Some("U1".into())).unwrap(), "U1");
    match SlackConnector::bot_user_id(None) {
        Err(e) => assert_eq!(e.message(), "connector(slack): could not determine bot user id"),
        Ok(_) => panic!("expected an error"),
    }
}

#[test]
fn slack_send_message() {
    let s = SlackConnector::new("tok".into());
    match s.plan(&request("send_message", obj(&[("channel", "C1"), ("text", "hello")]))) {
        MutationPlan::Send(h, SlackReply::MessagePosted) => {
            assert_eq!(h.method, Method::Post);
            assert_eq!(h.url, "https://slack.com/api/chat.postMessage");
            assert_eq!(header(&h.headers, "Authorization"), Some("Bearer tok"));
            match h.body {
                Body::Json(b) => {
                    assert_eq!(b.str_field("channel").as_deref(), Some("C1"));
                    assert_eq!(b.str_field("text").as_deref(), Some("hello"));
                }
                _ => panic!("expected a JSON body"),
            }
        }
        _ => panic!("expected a request"),
    }
    match s.plan(&request("add_reaction", obj(&[]))) {
        MutationPlan::Reply(m) => assert_eq!(m.message, "add_reaction is not yet implemented"),
        _ => panic!("expected a reply"),
    }
    let ok = JsonValue::Object(vec![("ok".into(), JsonValue::Bool(true))]);
    let r = SlackConnector::interpret(SlackReply::MessagePosted, ok);
    assert!(r.success);
    assert_eq!(r.message, "message sent");
    assert!(r.data.is_some());
    let err = JsonValue::Object(vec![
        ("ok".into(), JsonValue::Bool(false)),
        ("error".into(), JsonValue::text("channel_not_found")),
    ]);
    let r = SlackConnector::interpret(SlackReply::MessagePosted, err);
    assert!(!r.success);
    assert_eq!(r.message, "channel_not_found");
    let r = SlackConnector::interpret(SlackReply::MessagePosted, JsonValue::Null);
    assert_eq!(r.message, "unknown error");
}

fn task(id: &str, done: bool, due: Option<(&str, &str)>) -> TodoistTask {
    TodoistTask {
        id: id.into(),
        content: format!("task {id}"),
        description: "details".into(),
        is_completed: done,
        priority: 4,
        due: due.map(|(d, s)| TodoistDue { date: d.into(), string: s.into() }),
        created_at: "2024-05-01T09:00:00Z".into(),
    }
}

#[test]
fn todoist_items_skip_completed_tasks() {
    let items = TodoistConnector::task_items(
        vec![task("1", false, Some(("2024-05-02", "tomorrow"))), task("2", true, None), task("3", false, None)],
        NOW,
    );
    assert_eq!(items.len(), 2);
    assert_eq!(items[0].external_id, "1");
    assert_eq!(items[0].source, "todoist");
    assert_eq!(items[0].title, "task 1");
    assert_eq!(items[0].content, "details\nPriority: 4\nDue: 2024-05-02 (tomorrow)");
    assert_eq!(items[0].metadata.str_field("todoist_id").as_deref(), Some("1"));
    assert!(matches!(items[0].metadata.get("priority"), Some(JsonValue::Number(n)) if n == "4"));
    assert_eq!(items[0].timestamp, UtcTime { secs: 1_714_554_000, nanos: 0 });
    assert_eq!(items[1].external_id, "3");
    assert_eq!(items[1].content, "details\nPriority: 4\nNo due date");
}

#[test]
fn todoist_requests_and_results() {
    let t = TodoistConnector::new("k".into());
    let r = t.tasks_request();
    assert_eq!(r.url, "https://api.todoist.com/rest/v2/tasks");
    assert_eq!(r.query, vec![("filter".to_string(), "today | overdue".to_string())]);
    assert_eq!(t.task_request("77").url, "https://api.todoist.com/rest/v2/tasks/77");
    assert_eq!(TodoistConnector::pending_from_status(404, "404 Not Found").unwrap(), Some(false));
    assert_eq!(TodoistConnector::pending_from_status(200, "200 OK").unwrap(), None);
    assert_eq!(TodoistConnector::pending_from_status(500, "500 Internal Server Error").unwrap(), None);
    for (code, text) in [(401, "401 Unauthorized"), (403, "403 Forbidden"), (400, "400 Bad Request")] {
        match TodoistConnector::pending_from_status(code, text) {
            Err(e) => assert_eq!(e.message(), format!("connector(todoist): {text}")),
            Ok(_) => panic!("a refused request says nothing of the task"),
        }
    }
    assert!(TodoistConnector::pending_from_task(Ok(task("1", false, None))).unwrap());
    assert!(!TodoistConnector::pending_from_task(Ok(task("1", true, None))).unwrap());
    assert!(TodoistConnector::pending_from_task(Err("bad json".into())).is_err());
    match t.plan(request("complete_task", obj(&[("task_id", "77")]))) {
        MutationPlan::Send(h, TodoistReply::TaskCompleted) => {
            assert_eq!(h.method, Method::Post);
            assert_eq!(h.url, "https://api.todoist.com/rest/v2/tasks/77/close");
        }
        _ => panic!("expected a request"),
    }
    match t.plan(request("create_task", obj(&[("content", "buy milk"), ("due_string", "today")]))) {
        MutationPlan::Send(h, TodoistReply::TaskCreated) => match h.body {
            Body::Json(b) => {
                assert_eq!(b.str_field("content").as_deref(), Some("buy milk"));
                assert_eq!(b.str_field("due_string").as_deref(), Some("today"));
            }
            _ => panic!("expected a JSON body"),
        },
        _ => panic!("expected a request"),
    }
    match t.plan(request("create_task", obj(&[("content", "buy milk")]))) {
        MutationPlan::Send(h, _) => match h.body {
            Body::Json(JsonValue::Object(f)) => assert_eq!(f.len(), 1),
            _ => panic!("expected a JSON object"),
        },
        _ => panic!("expected a request"),
    }
    let done = TodoistConnector::completed_result(true, "204 No Content");
    assert_eq!(done.message, "task completed");
    let failed = TodoistConnector::completed_result(false, "404 Not Found");
    assert_eq!(failed.message, "failed: 404 Not Found");
    let created = TodoistConnector::created_result(true, "200 OK", None);
    assert!(matches!(created.data, Some(JsonValue::Object(ref f)) if f.is_empty()));
    assert_eq!(created.message, "task created");
}

fn event(id: &str, status: Option<&str>) -> CalendarEvent {
    CalendarEvent {
        id: id.into(),
        summary: if id == "untitled" { None } else { Some(format!("event {id}")) },
        description: Some("agenda".into()),
        start: Some(EventTime { date_time: Some("2024-05-01T10:00:00+09:00".into()), date: None }),
        end: Some(EventTime { date_time: None, date: Some("2024-05-02".into()) }),
        status: status.map(|s| s.to_string()),
        html_link: Some("https://calendar/x".into()),
    }
}

#[test]
fn calendar_items_skip_cancelled_events() {
    let items = CalendarConnector::event_items(
        vec![event("a", Some("confirmed")), event("b", Some("cancelled")), event("untitled", None)],
        NOW,
    );
    assert_eq!(items.len(), 2);
    assert_eq!(items[0].source, "calendar");
    assert_eq!(items[0].title, "event a");
    assert_eq!(items[0].content, "2024-05-01T10:00:00+09:00 — 2024-05-02\nagenda");
    assert_eq!(items[0].metadata.str_field("start").as_deref(), Some("2024-05-01T10:00:00+09:00"));
    assert_eq!(items[0].metadata.str_field("end").as_deref(), Some("2024-05-02"));
    assert_eq!(items[0].metadata.str_field("link").as_deref(), Some("https://calendar/x"));
    assert_eq!(items[0].timestamp, UtcTime { secs: 1_714_525_200, nanos: 0 });
    assert_eq!(items[1].title, "(no title)");
    let bare = CalendarConnector::event_item(
        CalendarEvent { id: "z".into(), summary: None, description: None, start: None, end: None, status: None, html_link: None },
        NOW,
    );
    assert_eq!(bare.content, "unknown — unknown\n");
    assert_eq!(bare.timestamp, NOW);
}

#[test]
fn calendar_request_window() {
    let c = CalendarConnector::new("key".into(), "me@example.com".into());
    let h = c.events_request(UtcTime { secs: 1_714_521_600, nanos: 0 }).unwrap();
    assert_eq!(h.url, "https://www.googleapis.com/calendar/v3/calendars/me@example.com/events");
    let q: Vec<(&str, &str)> = h.query.iter().map(|(k, v)| (k.as_str(), v.as_str())).collect();
    assert_eq!(
        q,
        vec![
            ("key", "key"),
            ("timeMin", "2024-05-01T00:00:00+00:00"),
            ("timeMax", "2024-05-03T00:00:00+00:00"),
            ("singleEvents", "true"),
            ("orderBy", "startTime"),
            ("maxResults", "20"),
        ]
    );
    assert!(c.events_request(UtcTime { secs: i64::MAX, nanos: 0 }).is_none());
    match c.plan(&request("create_event", obj(&[]))) {
        MutationPlan::Reply(m) => assert_eq!(m.message, "create_event is not yet implemented"),
        _ => panic!("expected a reply"),
    }
}

fn issue(due: Option<&str>, description: Option<&str>) -> GqlIssue {
    GqlIssue {
        id: "uuid-1".into(),
        identifier: "ENG-12".into(),
        title: "Fix login".into(),
        description: description.map(|d| d.to_string()),
        priority_display: "2".into(),
        priority_json: "2".into(),
        state: GqlState { name: "In Progress".into(), state_type: "started".into() },
        due_date: due.map(|d| d.to_string()),
        updated_at: "2024-05-01T00:00:00Z".into(),
    }
}

#[test]
fn linear_items() {
    assert_eq!(issue(None, None).state.type_field(), "started");
    let items = LinearConnector::issue_items(vec![issue(Some("2024-05-10"), Some("steps")), issue(None, None)], NOW);
    assert_eq!(items.len(), 2);
    assert_eq!(items[0].source, "linear");
    assert_eq!(items[0].external_id, "ENG-12");
    assert_eq!(items[0].content, "[In Progress] ENG-12 — steps\nPriority: 2\nDue: 2024-05-10");
    assert_eq!(items[1].content, "[In Progress] ENG-12 — (no description)\nPriority: 2");
    assert_eq!(items[0].metadata.str_field("state").as_deref(), Some("In Progress"));
    assert_eq!(items[0].metadata.str_field("state_type").as_deref(), Some("started"));
    assert_eq!(items[0].metadata.str_field("linear_id").as_deref(), Some("uuid-1"));
    assert_eq!(items[0].timestamp, UtcTime { secs: 1_714_521_600, nanos: 0 });
}

#[test]
fn linear_mutations() {
    let l = LinearConnector::new("lin_key".into());
    match l.plan(&request("update_issue_state", obj(&[("issue_id", "I1"), ("state_id", "S2")]))) {
        MutationPlan::Send(h, LinearReply::IssueStateUpdated) => {
            assert_eq!(h.url, "https://api.linear.app/graphql");
            assert_eq!(header(&h.headers, "Authorization"), Some("lin_key"));
            assert_eq!(header(&h.headers, "Content-Type"), Some("application/json"));
            match h.body {
                Body::Json(b) => assert_eq!(
                    b.str_field("query").as_deref(),
                    Some("mutation { issueUpdate(id: \"I1\", input: { stateId: \"S2\" }) { success } }")
                ),
                _ => panic!("expected a JSON body"),
            }
        }
        _ => panic!("expected a request"),
    }
    let ok = JsonValue::Object(vec![(
        "data".into(),
        JsonValue::Object(vec![(
            "commentCreate".into(),
            JsonValue::Object(vec![("success".into(), JsonValue::Bool(true))]),
        )]),
    )]);
    let r = LinearConnector::interpret(LinearReply::CommentCreated, ok);
    assert!(r.success);
    assert_eq!(r.message, "comment created");
    let r = LinearConnector::interpret(LinearReply::IssueStateUpdated, JsonValue::Null);
    assert!(!r.success);
    assert_eq!(r.message, "failed to update issue state");
}

#[test]
fn chatwork_send_message() {
    let c = ChatworkConnector::new("cw".into(), "123".into());
    match c.plan(&request("send_message", obj(&[("body", "hello")]))) {
        MutationPlan::Send(h, ChatworkReply::MessageSent) => {
            assert_eq!(h.url, "https://api.chatwork.com/v2/rooms/123/messages");
            assert_eq!(header(&h.headers, "X-ChatWorkToken"), Some("cw"));
            match h.body {
                Body::Form(f) => assert_eq!(f, vec![("body".to_string(), "hello".to_string())]),
                _ => panic!("expected a form body"),
            }
        }
        _ => panic!("expected a request"),
    }
    let r = ChatworkConnector::interpret(ChatworkReply::MessageSent, false, "403 Forbidden");
    assert_eq!(r.message, "failed: 403 Forbidden");
}

#[test]
fn connectors_follow_credentials() {
    let (q, m) = build_connectors(&config(&[]));
    assert!(q.is_empty());
    assert!(m.is_empty());
    let (q, m) = build_connectors(&config(&["gmail"]));
    assert_eq!(q, vec![ConnectorKind::Gmail]);
    assert!(m.is_empty());
    let (q, m) = build_connectors(&config(&["cal_key", "slack", "todoist", "cw_token"]));
    assert_eq!(m, vec![ConnectorKind::Slack, ConnectorKind::Todoist]);
    assert_eq!(q, vec![ConnectorKind::Slack, ConnectorKind::Todoist]);
    let (q, m) = build_connectors(&config(&["cal_key", "cal_id", "slack", "linear", "todoist", "cw_token", "cw_room", "gmail"]));
    assert_eq!(
        m,
        vec![ConnectorKind::Calendar, ConnectorKind::Slack, ConnectorKind::Linear, ConnectorKind::Todoist, ConnectorKind::Chatwork]
    );
    assert_eq!(q.len(), 6);
    assert_eq!(mutation_for(&m, "linear"), Some(2));
    assert_eq!(mutation_for(&m, "gmail"), None);
}

#[test]
fn listed_actions_are_never_refused() {
    let refused = |m: &str| m.starts_with("unsupported action");
    let s = SlackConnector::new("t".into());
    for a in s.supported_actions() {
        if let MutationPlan::Reply(m) = s.plan(&request(a, obj(&[]))) {
            assert!(!refused(&m.message));
        }
    }
    let c = CalendarConnector::new("k".into(), "c".into());
    for a in c.supported_actions() {
        if let MutationPlan::Reply(m) = c.plan(&request(a, obj(&[]))) {
            assert!(!refused(&m.message));
        }
    }
    let l = LinearConnector::new("k".into());
    for a in l.supported_actions() {
        assert!(matches!(l.plan(&request(a, obj(&[]))), MutationPlan::Send(..)));
    }
    let t = TodoistConnector::new("k".into());
    for a in t.supported_actions() {
        assert!(matches!(t.plan(request(a, obj(&[]))), MutationPlan::Send(..)));
    }
    let w = ChatworkConnector::new("t".into(), "r".into());
    for a in w.supported_actions() {
        assert!(matches!(w.plan(&request(a, obj(&[]))), MutationPlan::Send(..)));
    }
}

#[test]
fn replies_to_sent_mutations_are_never_refusals() {
    let r = LinearConnector::interpret(LinearReply::IssueStateUpdated, JsonValue::Null);
    assert!(!r.message.starts_with("unsupported action"));
    let r = ChatworkConnector::interpret(ChatworkReply::MessageSent, false, "500 Internal Server Error");
    assert!(!r.message.starts_with("unsupported action"));
    let r = TodoistConnector::created_result(false, "400 Bad Request", None);
    assert!(!r.message.starts_with("unsupported action"));
    let r = SlackConnector::interpret(SlackReply::MessagePosted, JsonValue::Null);
    assert_eq!(r.message, "unknown error");
}
