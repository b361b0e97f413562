use anima_flow::brain::client::{
    BriefingSynthesis, InboxClassification, ReviewSynthesis, SubTask, TaskBreakdown,
};
use anima_flow::connectors::traits::InboxItem;
use anima_flow::json::JsonValue;
use anima_flow::skills::breakdown::{present_breakdown, BreakdownRun, BreakdownSkill, BreakdownStage};
use anima_flow::skills::briefing::{
    any_daily, present_briefing, summarize_inbox, BriefingRun, BriefingSkill, BriefingStage,
};
use anima_flow::skills::format::{line_of, summary, LineKind};
use anima_flow::skills::inbox::{
    classified_metadata, classify_entries, find_recording, icon, inbox_node, next_pair,
    present_classifications, status_for, title_for, InboxRun, InboxSkill, InboxStage,
};
use anima_flow::skills::review::{find_daily, present_review, ReviewRun, ReviewSkill, ReviewStage};
use anima_flow::skills::traits::{Action, Event};
use anima_flow::time::UtcTime;
use anima_flow::types::{Category, Node, NodeType};

const T0: UtcTime = UtcTime { secs: 1_714_521_600, nanos: 0 };

fn node(id: &str, node_type: &str, title: &str, content: Option<&str>, metadata: JsonValue) -> Node {
    Node {
        id: id.into(),
        user_id: None,
        node_type: node_type.into(),
        category: "memory".into(),
        title: title.into(),
        content: content.map(|c| c.to_string()),
        metadata,
        access_count: 0,
        created_at: T0,
        updated_at: T0,
    }
}

fn item(source: &str, id: &str, title: &str, content: &str) -> InboxItem {
    InboxItem {
        source: source.into(),
        external_id: id.into(),
        title: title.into(),
        content: content.into(),
        metadata: JsonValue::Object(Vec::new()),
        timestamp: T0,
    }
}

fn sent(a: Action) -> String {
    match a {
        Action::Send(m) => m,
        other => panic!("expected a message, got {other:?}"),
    }
}

#[test]
fn skill_names() {
    assert_eq!(BreakdownSkill.name(), "breakdown");
    assert_eq!(BriefingSkill.name(), "briefing");
    assert_eq!(InboxSkill.name(), "inbox");
    assert_eq!(ReviewSkill.name(), "review");
    assert!(!BreakdownSkill.description().is_empty());
    assert!(!BriefingSkill.description().is_empty());
    assert!(!InboxSkill.description().is_empty());
    assert!(!ReviewSkill.description().is_empty());
}

#[test]
fn node_lines() {
    let n = node("1", "space", "Launch", Some(&"c".repeat(250)), JsonValue::Null);
    assert_eq!(line_of(LineKind::Typed, &n), "- [space] Launch");
    assert_eq!(line_of(LineKind::TitleOnly, &n), "- Launch");
    assert_eq!(line_of(LineKind::Detailed, &n), format!("- [space] Launch: {}", "c".repeat(200)));
    assert_eq!(line_of(LineKind::Chat, &n), format!("[space] Launch: {}", "c".repeat(250)));
    let bare = node("2", "person", "Bob", None, JsonValue::Null);
    assert_eq!(line_of(LineKind::Detailed, &bare), "- [person] Bob: ");
    let nodes: Vec<Node> = (0..12).map(|i| node(&i.to_string(), "daily", &format!("d{i}"), None, JsonValue::Null)).collect();
    let s = summary(&nodes, 10, LineKind::TitleOnly);
    assert_eq!(s.lines().count(), 10);
    assert!(s.starts_with("- d0\n- d1\n"));
    assert!(s.ends_with("- d9"));
    assert_eq!(summary(&Vec::new(), 10, LineKind::Typed), "");
}

#[test]
fn breakdown_without_task_shows_usage() {
    let mut run = BreakdownRun::new(String::new());
    assert_eq!(sent(run.step(Event::Begin)), "Usage: /breakdown <task description>");
    assert!(matches!(run.step(Event::Sent), Action::Finish));
    assert_eq!(run.stage, BreakdownStage::Done);
}

#[test]
fn breakdown_run() {
    let mut run = BreakdownRun::new("Plan offsite".into());
    assert_eq!(sent(run.step(Event::Begin)), "🔨 Breaking down: Plan offsite");
    match run.step(Event::Sent) {
        Action::Recall(q) => assert_eq!(q, "Plan offsite"),
        other => panic!("unexpected {other:?}"),
    }
    let recalled = vec![node("1", "space", "Offsite 2023", Some("venue notes"), JsonValue::Null)];
    match run.step(Event::Recalled(recalled)) {
        Action::BreakdownTask { task, context } => {
            assert_eq!(task, "Plan offsite");
            assert_eq!(context, "- [space] Offsite 2023: venue notes");
        }
        other => panic!("unexpected {other:?}"),
    }
    let b = TaskBreakdown {
        goal: "A great offsite".into(),
        actions: vec![
            SubTask { title: "Pick dates".into(), estimate_min: 15, depends_on: vec![] },
            SubTask { title: "Book venue".into(), estimate_min: 30, depends_on: vec![0] },
        ],
    };
    let shown = sent(run.step(Event::BrokenDown(b)));
    assert_eq!(
        shown,
        "**Goal:** A great offsite\n\n**Actions:**\n\n  1. Pick dates (~15min)\n  2. Book venue (~30min) (after #1)\n\n**Total estimate:** ~45min"
    );
    assert!(matches!(run.step(Event::Sent), Action::Finish));
}

#[test]
fn breakdown_presentation_with_several_dependencies() {
    let b = TaskBreakdown {
        goal: "g".into(),
        actions: vec![
            SubTask { title: "a".into(), estimate_min: 1, depends_on: vec![] },
            SubTask { title: "b".into(), estimate_min: 2, depends_on: vec![] },
            SubTask { title: "c".into(), estimate_min: 3, depends_on: vec![0, 1] },
        ],
    };
    assert_eq!(
        present_breakdown(&b),
        "**Goal:** g\n\n**Actions:**\n\n  1. a (~1min)\n  2. b (~2min)\n  3. c (~3min) (after #1, #2)\n\n**Total estimate:** ~6min"
    );
    let empty = TaskBreakdown { goal: "g".into(), actions: vec![] };
    assert_eq!(present_breakdown(&empty), "**Goal:** g\n\n**Actions:**\n\n\n**Total estimate:** ~0min");
}

#[test]
fn briefing_texts() {
    assert_eq!(summarize_inbox(&Vec::new()), "No new inbox items.");
    let items = vec![item("slack", "1", "Hi", "hello there"), item("todoist", "2", "Pay rent", &"x".repeat(150))];
    assert_eq!(
        summarize_inbox(&items),
        format!("- [slack] Hi: hello there\n- [todoist] Pay rent: {}", "x".repeat(100))
    );
    let b = BriefingSynthesis {
        greeting: "Good morning".into(),
        summary: "Busy day".into(),
        priorities: vec!["Ship".into(), "Call Bob".into()],
        reminders: vec![],
    };
    assert_eq!(present_briefing(&b), "Good morning\n\nBusy day\n\n**Priorities:**\n  - Ship\n  - Call Bob\n");
    assert!(any_daily(&vec![node("1", "space", "x", None, JsonValue::Null), node("2", "daily", "y", None, JsonValue::Null)]));
    assert!(!any_daily(&vec![node("1", "space", "x", None, JsonValue::Null)]));
}

#[test]
fn briefing_run_inserts_todays_note() {
    let mut run = BriefingRun::new(2);
    assert_eq!(sent(run.step(Event::Begin)), "📋 Preparing your briefing...");
    assert!(matches!(run.step(Event::Sent), Action::FetchInbox(0)));
    assert!(matches!(run.step(Event::Fetched(Some(vec![item("slack", "1", "Hi", "hello")]))), Action::FetchInbox(1)));
    // A failing connector adds nothing.
    match run.step(Event::Fetched(None)) {
        Action::Recall(q) => assert_eq!(q, "briefing today schedule tasks"),
        other => panic!("unexpected {other:?}"),
    }
    match run.step(Event::Recalled(Vec::new())) {
        Action::SynthesizeBriefing { inbox, context } => {
            assert_eq!(inbox, "- [slack] Hi: hello");
            assert_eq!(context, "");
        }
        other => panic!("unexpected {other:?}"),
    }
    let b = BriefingSynthesis {
        greeting: "Hello".into(),
        summary: "Calm".into(),
        priorities: vec!["Rest".into()],
        reminders: vec!["Water plants".into()],
    };
    assert_eq!(
        sent(run.step(Event::Briefed(b))),
        "Hello\n\nCalm\n\n**Priorities:**\n  - Rest\n\n**Reminders:**\n  - Water plants\n"
    );
    assert!(matches!(run.step(Event::Sent), Action::ReadClock));
    match run.step(Event::Clock(T0)) {
        Action::FindByTitle(q) => assert_eq!(q, "2024-05-01"),
        other => panic!("unexpected {other:?}"),
    }
    match run.step(Event::Found(Vec::new())) {
        Action::InsertNode(nn) => {
            assert_eq!(nn.node_type, NodeType::Daily);
            assert_eq!(nn.category, Category::Memory);
            assert_eq!(nn.title, "2024-05-01");
            assert_eq!(
                nn.content.as_deref(),
                Some("## Briefing\nCalm\n\n## Inbox (1 items)\n- [slack] Hi: hello\n\n## Priorities\nRest")
            );
        }
        other => panic!("unexpected {other:?}"),
    }
    assert!(matches!(run.step(Event::Inserted(node("n", "daily", "2024-05-01", None, JsonValue::Null))), Action::Finish));
    assert_eq!(run.stage, BriefingStage::Done);
}

#[test]
fn briefing_run_keeps_existing_note() {
    let mut run = BriefingRun::new(0);
    run.step(Event::Begin);
    assert!(matches!(run.step(Event::Sent), Action::Recall(_)));
    run.step(Event::Recalled(Vec::new()));
    let b = BriefingSynthesis { greeting: "g".into(), summary: "s".into(), priorities: vec![], reminders: vec![] };
    assert_eq!(sent(run.step(Event::Briefed(b))), "g\n\ns");
    run.step(Event::Sent);
    run.step(Event::Clock(T0));
    let existing = vec![node("d", "daily", "2024-05-01", None, JsonValue::Null)];
    assert!(matches!(run.step(Event::Found(existing)), Action::Finish));
}

#[test]
fn review_texts() {
    let r = ReviewSynthesis {
        summary: "Good day".into(),
        completed: vec!["Shipped".into()],
        in_progress: vec![],
        unstarted: vec!["Taxes".into()],
        tomorrow: vec!["Rest".into()],
        learnings: vec![],
    };
    assert_eq!(
        present_review(&r),
        "**Review:** Good day\n\n**Completed:**\n  ✅ Shipped\n\n**Not Started:**\n  ⬜ Taxes\n\n**Tomorrow's Priorities:**\n  → Rest\n"
    );
    let nodes = vec![
        node("1", "space", "a", None, JsonValue::Null),
        node("2", "daily", "b", None, JsonValue::Null),
        node("3", "daily", "c", None, JsonValue::Null),
    ];
    assert_eq!(find_daily(&nodes), Some(1));
    assert_eq!(find_daily(&Vec::new()), None);
}

#[test]
fn inbox_icons_and_statuses() {
    assert_eq!(icon("do_now"), "⚡");
    assert_eq!(icon("task"), "📋");
    assert_eq!(icon("breakdown"), "🔨");
    assert_eq!(icon("reference"), "📚");
    assert_eq!(icon("skip"), "⏭");
    assert_eq!(icon("other"), "❓");
    assert_eq!(status_for("skip"), "skipped");
    assert_eq!(status_for("task"), "processed");
}

#[test]
fn inbox_presentation() {
    let items = vec![item("slack", "s1", "Lunch?", "want lunch"), item("linear", "ENG-1", "Bug", "crash")];
    assert_eq!(title_for(&items, "ENG-1"), "Bug");
    assert_eq!(title_for(&items, "missing"), "missing");
    let cs = vec![
        InboxClassification { external_id: "ENG-1".into(), classification: "do_now".into(), reason: "urgent".into() },
        InboxClassification { external_id: "gone".into(), classification: "skip".into(), reason: "noise".into() },
    ];
    assert_eq!(
        present_classifications(&items, &cs),
        "**Inbox Classification:**\n\n⚡ **Bug** → do_now\n  _urgent_\n\n⏭ **gone** → skip\n  _noise_\n\n"
    );
    let entries = classify_entries(&vec![item("slack", "s1", "t", &"y".repeat(400))]);
    assert_eq!(entries.len(), 1);
    assert_eq!(entries[0].external_id, "s1");
    assert_eq!(entries[0].source, "slack");
    assert_eq!(entries[0].content.chars().count(), 300);
}

#[test]
fn inbox_nodes_and_lookup() {
    let nn = inbox_node(&item("todoist", "42", "Pay rent", "before friday"));
    assert_eq!(nn.node_type, NodeType::Inbox);
    assert_eq!(nn.category, Category::Gtd);
    assert_eq!(nn.title, "Pay rent");
    assert_eq!(nn.content.as_deref(), Some("before friday"));
    assert_eq!(nn.metadata.str_field("source").as_deref(), Some("todoist"));
    assert_eq!(nn.metadata.str_field("external_id").as_deref(), Some("42"));
    assert_eq!(nn.metadata.str_field("status").as_deref(), Some("unprocessed"));
    assert_eq!(nn.metadata.str_field("captured_at").as_deref(), Some("2024-05-01T00:00:00+00:00"));
    let with_id = |id: &str| JsonValue::Object(vec![("external_id".into(), JsonValue::text(id))]);
    let nodes = vec![
        node("a", "inbox", "x", None, with_id("1")),
        node("b", "inbox", "y", None, with_id("2")),
        node("c", "inbox", "z", None, with_id("2")),
    ];
    assert_eq!(find_recording(&nodes, "2"), Some(1));
    assert_eq!(find_recording(&nodes, "3"), None);
}

#[test]
fn same_topic_pairs() {
    let titles: Vec<Vec<char>> = ["Quarterly report draft", "Lunch", "Review quarterly numbers", "Lunch plans"]
        .iter()
        .map(|t| t.chars().collect())
        .collect();
    // "Quarterly" and "quarterly" differ in case; "Lunch" occurs in "Lunch plans".
    assert_eq!(next_pair(&titles, 0, 1), Some((1, 3)));
    assert_eq!(next_pair(&titles, 1, 4), None);
    let titles: Vec<Vec<char>> = ["report draft", "final report", "lunch"].iter().map(|t| t.chars().collect()).collect();
    assert_eq!(next_pair(&titles, 0, 1), Some((0, 1)));
    assert_eq!(next_pair(&titles, 0, 2), None);
}

#[test]
fn classified_metadata_sets_two_fields() {
    let m = JsonValue::Object(vec![
        ("source".into(), JsonValue::text("slack")),
        ("status".into(), JsonValue::text("unprocessed")),
    ]);
    let r = classified_metadata(m, "processed", "task");
    assert_eq!(r.str_field("status").as_deref(), Some("processed"));
    assert_eq!(r.str_field("classification").as_deref(), Some("task"));
    assert_eq!(r.str_field("source").as_deref(), Some("slack"));
    let r = classified_metadata(JsonValue::Null, "skipped", "skip");
    assert_eq!(r.str_field("status").as_deref(), Some("skipped"));
}

#[test]
fn review_run_appends_to_existing_note() {
    let mut run = ReviewRun::new(1);
    assert_eq!(sent(run.step(Event::Begin)), "🌆 Starting daily review...");
    assert!(matches!(run.step(Event::Sent), Action::FetchInbox(0)));
    assert!(matches!(
        run.step(Event::Fetched(Some(vec![item("slack", "1", "Hi", "hello")]))),
        Action::FindByType(NodeType::Inbox)
    ));
    let status = JsonValue::Object(vec![("status".into(), JsonValue::text("processed"))]);
    match run.step(Event::Found(vec![node("i1", "inbox", "Pay rent", None, status)])) {
        Action::Recall(q) => assert_eq!(q, "daily review today summary"),
        other => panic!("unexpected {other:?}"),
    }
    match run.step(Event::Recalled(vec![node("s", "space", "Launch", None, JsonValue::Null)])) {
        Action::SynthesizeReview { activities, context } => {
            assert_eq!(activities, "- [slack] Hi: hello\n- [inbox/processed] Pay rent");
            assert_eq!(context, "- [space] Launch");
        }
        other => panic!("unexpected {other:?}"),
    }
    let r = ReviewSynthesis {
        summary: "Good".into(),
        completed: vec!["A".into(), "B".into()],
        in_progress: vec![],
        unstarted: vec![],
        tomorrow: vec!["C".into()],
        learnings: vec!["L1".into()],
    };
    assert_eq!(
        sent(run.step(Event::Reviewed(r))),
        "**Review:** Good\n\n**Completed:**\n  ✅ A\n  ✅ B\n\n**Tomorrow's Priorities:**\n  → C\n\n**Learnings:**\n  💡 L1\n"
    );
    assert!(matches!(run.step(Event::Sent), Action::ReadClock));
    match run.step(Event::Clock(T0)) {
        Action::FindByTitle(q) => assert_eq!(q, "2024-05-01"),
        other => panic!("unexpected {other:?}"),
    }
    let daily = node("d1", "daily", "2024-05-01", Some("morning notes"), JsonValue::Null);
    match run.step(Event::Found(vec![node("x", "space", "2024-05-01 plan", None, JsonValue::Null), daily])) {
        Action::UpdateNode { id, update } => {
            assert_eq!(id, "d1");
            assert!(update.title.is_none() && update.metadata.is_none());
            assert_eq!(
                update.content.as_deref(),
                Some("morning notes\n\n---\n\n## Review\nGood\n\n## Completed\nA\n- B\n\n## Tomorrow\nC")
            );
        }
        other => panic!("unexpected {other:?}"),
    }
    assert!(matches!(run.step(Event::Updated), Action::ReadClock));
    match run.step(Event::Clock(T0)) {
        Action::InsertNode(nn) => {
            assert_eq!(nn.node_type, NodeType::Learning);
            assert_eq!(nn.category, Category::Knowledge);
            assert_eq!(nn.title, "L1");
            assert_eq!(nn.content.as_deref(), Some("Learned on 2024-05-01: L1"));
            assert_eq!(nn.metadata.str_field("source").as_deref(), Some("daily_review"));
        }
        other => panic!("unexpected {other:?}"),
    }
    assert!(matches!(run.step(Event::Inserted(node("l", "learning", "L1", None, JsonValue::Null))), Action::Finish));
    assert_eq!(run.stage, ReviewStage::Done);
}

#[test]
fn review_run_without_note_inserts_one() {
    let mut run = ReviewRun::new(0);
    run.step(Event::Begin);
    assert!(matches!(run.step(Event::Sent), Action::FindByType(NodeType::Inbox)));
    run.step(Event::Found(Vec::new()));
    match run.step(Event::Recalled(Vec::new())) {
        Action::SynthesizeReview { activities, .. } => assert_eq!(activities, "No activities captured today."),
        other => panic!("unexpected {other:?}"),
    }
    let r = ReviewSynthesis {
        summary: "Quiet".into(),
        completed: vec![],
        in_progress: vec![],
        unstarted: vec![],
        tomorrow: vec![],
        learnings: vec![],
    };
    assert_eq!(sent(run.step(Event::Reviewed(r))), "**Review:** Quiet\n\n");
    run.step(Event::Sent);
    run.step(Event::Clock(T0));
    match run.step(Event::Found(Vec::new())) {
        Action::InsertNode(nn) => {
            assert_eq!(nn.node_type, NodeType::Daily);
            assert_eq!(nn.title, "2024-05-01");
            assert_eq!(nn.content.as_deref(), Some("## Review\nQuiet\n\n## Completed\n\n\n## Tomorrow\n"));
        }
        other => panic!("unexpected {other:?}"),
    }
    assert!(matches!(run.step(Event::Inserted(node("d", "daily", "2024-05-01", None, JsonValue::Null))), Action::Finish));
}

fn stored(id: &str, item_id: &str, title: &str) -> Node {
    let metadata = JsonValue::Object(vec![
        ("source".into(), JsonValue::text("todoist")),
        ("external_id".into(), JsonValue::text(item_id)),
        ("status".into(), JsonValue::text("unprocessed")),
    ]);
    node(id, "inbox", title, None, metadata)
}

#[test]
fn inbox_run_dedups_links_and_classifies() {
    let mut run = InboxRun::new(2);
    assert_eq!(sent(run.step(Event::Begin)), "📥 Collecting inbox...");
    assert!(matches!(run.step(Event::Sent), Action::FetchInbox(0)));
    let fetched = vec![
        item("todoist", "1", "report draft", "write it"),
        item("todoist", "2", "done task", "x"),
        item("todoist", "3", "final report", "send it"),
        item("todoist", "4", "old item", "y"),
    ];
    match run.step(Event::Fetched(Some(fetched))) {
        Action::IsPending { query, external_id } => {
            assert_eq!(query, 0);
            assert_eq!(external_id, "1");
        }
        other => panic!("unexpected {other:?}"),
    }
    match run.step(Event::Pending(Some(true))) {
        Action::InboxExists { source, external_id } => {
            assert_eq!(source, "todoist");
            assert_eq!(external_id, "1");
        }
        other => panic!("unexpected {other:?}"),
    }
    // Item 1 is new.
    assert!(matches!(run.step(Event::Exists(false)), Action::IsPending { ref external_id, .. } if external_id == "2"));
    // Item 2 is done in the service.
    assert!(matches!(run.step(Event::Pending(Some(false))), Action::IsPending { ref external_id, .. } if external_id == "3"));
    // The service cannot tell about item 3: it counts as pending.
    assert!(matches!(run.step(Event::Pending(None)), Action::InboxExists { .. }));
    assert!(matches!(run.step(Event::Exists(false)), Action::IsPending { ref external_id, .. } if external_id == "4"));
    // Item 4 is already in the Cortex.
    assert!(matches!(run.step(Event::Pending(Some(true))), Action::InboxExists { .. }));
    assert!(matches!(run.step(Event::Exists(true)), Action::FetchInbox(1)));
    // The second connector fails: nothing more.
    assert_eq!(sent(run.step(Event::Fetched(None))), "Found 2 new items.");
    match run.step(Event::Sent) {
        Action::InsertNode(nn) => {
            assert_eq!(nn.title, "report draft");
            assert_eq!(nn.metadata.str_field("external_id").as_deref(), Some("1"));
        }
        other => panic!("unexpected {other:?}"),
    }
    match run.step(Event::Inserted(stored("n1", "1", "report draft"))) {
        Action::InsertNode(nn) => assert_eq!(nn.title, "final report"),
        other => panic!("unexpected {other:?}"),
    }
    match run.step(Event::Inserted(stored("n3", "3", "final report"))) {
        Action::LinkSameTopic { from, to } => {
            assert_eq!(from, "n1");
            assert_eq!(to, "n3");
        }
        other => panic!("unexpected {other:?}"),
    }
    match run.step(Event::Linked) {
        Action::Recall(q) => assert_eq!(q, "inbox processing"),
        other => panic!("unexpected {other:?}"),
    }
    let recalled = vec![node("r", "space", "Reports", Some("x"), JsonValue::Null)];
    match run.step(Event::Recalled(recalled)) {
        Action::ClassifyInbox { items, context } => {
            assert_eq!(items.len(), 2);
            assert_eq!(items[0].external_id, "1");
            assert_eq!(items[1].external_id, "3");
            assert_eq!(context, "- Reports");
        }
        other => panic!("unexpected {other:?}"),
    }
    let cs = vec![
        InboxClassification { external_id: "3".into(), classification: "skip".into(), reason: "dup".into() },
        InboxClassification { external_id: "9".into(), classification: "task".into(), reason: "unknown".into() },
        InboxClassification { external_id: "1".into(), classification: "do_now".into(), reason: "due".into() },
    ];
    let shown = sent(run.step(Event::Classified(cs)));
    assert!(shown.starts_with("**Inbox Classification:**\n\n⏭ **final report** → skip"));
    match run.step(Event::Sent) {
        Action::MarkClassified { node, status, classification } => {
            assert_eq!(node, 1);
            assert_eq!(status, "skipped");
            assert_eq!(classification, "skip");
        }
        other => panic!("unexpected {other:?}"),
    }
    // The classification of an unknown item is passed over.
    match run.step(Event::Updated) {
        Action::MarkClassified { node, status, classification } => {
            assert_eq!(node, 0);
            assert_eq!(status, "processed");
            assert_eq!(classification, "do_now");
        }
        other => panic!("unexpected {other:?}"),
    }
    assert_eq!(sent(run.step(Event::Updated)), "Processed 3 inbox items.");
    assert!(matches!(run.step(Event::Sent), Action::Finish));
    assert_eq!(run.stage, InboxStage::Done);
}

#[test]
fn inbox_run_with_nothing_new() {
    let mut run = InboxRun::new(1);
    run.step(Event::Begin);
    assert!(matches!(run.step(Event::Sent), Action::FetchInbox(0)));
    assert_eq!(sent(run.step(Event::Fetched(Some(Vec::new())))), "✅ Inbox is empty!");
    assert!(matches!(run.step(Event::Sent), Action::Finish));
    let mut none = InboxRun::new(0);
    none.step(Event::Begin);
    assert_eq!(sent(none.step(Event::Sent)), "✅ Inbox is empty!");
}
