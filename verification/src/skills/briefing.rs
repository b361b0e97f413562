//! `/briefing`: calendar, inbox, tasks and context, summarized for the day.
use vstd::prelude::*;
use crate::brain::client::BriefingSynthesis;
use crate::connectors::traits::InboxItem;
use crate::json::{fields_of, JsonValue};
use crate::skills::format::{
    item_line, item_line_spec, joined, push_section, section_spec, summary, summary_spec, LineKind,
};
use crate::skills::traits::{Action, Event};
use crate::text::{decimal, join, join_spec, push_decimal};
use crate::time::{utc_representable, ymd_text};
use crate::types::{opt_text, Category, NodeType};

verus! {

/// The briefing skill.
#[derive(Clone, Debug)]
pub struct BriefingSkill;

impl BriefingSkill {
    /// The skill's name.
    pub fn name(&self) -> (r: &'static str)
        ensures
            r@ == "briefing"@,
    {
        "briefing"
    }

    /// What the skill does.
    pub fn description(&self) -> (r: &'static str)
        ensures
            r@ == "Briefing: calendar, inbox, tasks, and context"@,
    {
        "Briefing: calendar, inbox, tasks, and context"
    }
}

/// Where a briefing run is.
#[derive(PartialEq, Eq, Structural, Clone, Copy, Debug)]
pub enum BriefingStage {
    Start,
    Announcing,
    Fetching(usize),
    Recalling,
    Synthesizing,
    Presenting,
    Dating,
    Looking,
    Inserting,
    Done,
}

/// A run of the briefing skill over `n_queries` query connectors.
#[derive(Debug)]
pub struct BriefingRun {
    pub n_queries: usize,
    pub stage: BriefingStage,
    /// The items fetched so far, in connector order.
    pub items: Vec<InboxItem>,
    pub inbox_summary: String,
    pub summary: String,
    pub priorities: Vec<String>,
    pub today: String,
}

/// The query used to recall context for the briefing.
pub open spec fn briefing_query() -> Seq<char> {
    "briefing today schedule tasks"@
}

/// The inbox summary: one line per item, or a note that there are none.
pub open spec fn inbox_summary_spec(items: Seq<InboxItem>) -> Seq<char> {
    if items.len() == 0 {
        "No new inbox items."@
    } else {
        join_spec(Seq::new(items.len(), |i: int| item_line_spec(items[i])), "\n"@)
    }
}

/// The briefing as shown to the user.
pub open spec fn briefing_output(b: BriefingSynthesis) -> Seq<char> {
    b.greeting@ + "\n\n"@ + b.summary@ + section_spec(b.priorities@, "\n\n**Priorities:**\n"@, "  - "@)
        + section_spec(b.reminders@, "\n**Reminders:**\n"@, "  - "@)
}

/// The content of the day's note.
pub open spec fn daily_content(summary: Seq<char>, n_items: nat, inbox: Seq<char>, priorities: Seq<String>) -> Seq<char> {
    "## Briefing\n"@ + summary + "\n\n## Inbox ("@ + decimal(n_items) + " items)\n"@ + inbox
        + "\n\n## Priorities\n"@ + joined(priorities, "\n- "@)
}

/// Some node is of type `daily`.
pub open spec fn has_daily(nodes: Seq<crate::types::Node>) -> bool {
    exists|i: int| 0 <= i < nodes.len() && #[trigger] nodes[i].node_type@ == "daily"@
}

/// The items fetched by one connector: its items, or none when fetching failed.
pub open spec fn fetched_items(r: Option<Vec<InboxItem>>) -> Seq<InboxItem> {
    match r {
        Some(v) => v@,
        None => Seq::empty(),
    }
}

/// The inbox summary of the items.
pub fn summarize_inbox(items: &Vec<InboxItem>) -> (r: String)
    ensures
        r@ == inbox_summary_spec(items@),
{
    if items.len() == 0 {
        return "No new inbox items.".to_owned();
    }
    let mut lines: Vec<String> = Vec::new();
    let mut i: usize = 0;
    while i < items.len()
        invariant
            i <= items@.len(),
            lines@.len() == i,
            forall|t: int| 0 <= t < i ==> #[trigger] lines@[t]@ == item_line_spec(items@[t]),
        decreases items.len() - i,
    {
        lines.push(item_line(&items[i]));
        i = i + 1;
    }
    assert(crate::text::views(lines@) =~= Seq::new(items@.len(), |i: int| item_line_spec(items@[i])));
    join(&lines, "\n")
}

/// The briefing as shown to the user.
pub fn present_briefing(b: &BriefingSynthesis) -> (r: String)
    ensures
        r@ == briefing_output(*b),
{
    let mut out = b.greeting.clone();
    out.append("\n\n");
    out.append(b.summary.as_str());
    push_section(&mut out, &b.priorities, "\n\n**Priorities:**\n", "  - ");
    push_section(&mut out, &b.reminders, "\n**Reminders:**\n", "  - ");
    out
}

/// Whether some node is of type `daily`.
pub fn any_daily(nodes: &Vec<crate::types::Node>) -> (r: bool)
    ensures
        r == has_daily(nodes@),
{
    let mut i: usize = 0;
    while i < nodes.len()
        invariant
            i <= nodes@.len(),
            forall|t: int| 0 <= t < i ==> #[trigger] nodes@[t].node_type@ != "daily"@,
        decreases nodes.len() - i,
    {
        if crate::json::str_eq(nodes[i].node_type.as_str(), "daily") {
            return true;
        }
        i = i + 1;
    }
    false
}

impl BriefingRun {
    /// A run over `n_queries` query connectors.
    pub fn new(n_queries: usize) -> (r: BriefingRun)
        ensures
            r.n_queries == n_queries,
            r.stage == BriefingStage::Start,
            r.items@.len() == 0,
    {
        BriefingRun {
            n_queries,
            stage: BriefingStage::Start,
            items: Vec::new(),
            inbox_summary: String::new(),
            summary: String::new(),
            priorities: Vec::new(),
            today: String::new(),
        }
    }

    /// The next action after an event. The briefing is announced; each
    /// connector's items are fetched (a failing connector adds none); context
    /// is recalled; the model synthesizes a briefing from the inbox summary and
    /// the first ten recalled nodes; it is shown; then, unless a `daily` node
    /// already has today's date in its title, today's note is inserted.
    pub fn step(&mut self, event: Event) -> (a: Action)
        ensures
            final(self).n_queries == old(self).n_queries,
            ({
                let n = old(self).n_queries;
                match (old(self).stage, event) {
                    (BriefingStage::Start, Event::Begin) => final(self).stage == BriefingStage::Announcing
                        && final(self).items == old(self).items
                        && (a matches Action::Send(m) && m@ == "📋 Preparing your briefing..."@),
                    (BriefingStage::Announcing, Event::Sent) => final(self).items == old(self).items && if n > 0 {
                        final(self).stage == BriefingStage::Fetching(0) && a == Action::FetchInbox(0)
                    } else {
                        final(self).stage == BriefingStage::Recalling && (a matches Action::Recall(q) && q@ == briefing_query())
                    },
                    (BriefingStage::Fetching(i), Event::Fetched(r)) => final(self).items@ == old(self).items@ + fetched_items(r)
                        && if i + 1 < n {
                        final(self).stage == BriefingStage::Fetching((i + 1) as usize) && a == Action::FetchInbox((i + 1) as usize)
                    } else {
                        final(self).stage == BriefingStage::Recalling && (a matches Action::Recall(q) && q@ == briefing_query())
                    },
                    (BriefingStage::Recalling, Event::Recalled(nodes)) => final(self).stage == BriefingStage::Synthesizing
                        && final(self).items == old(self).items
                        && final(self).inbox_summary@ == inbox_summary_spec(old(self).items@)
                        && (a matches Action::SynthesizeBriefing { inbox: i, context: c }
                            && i@ == inbox_summary_spec(old(self).items@)
                            && c@ == summary_spec(nodes@, 10, LineKind::Detailed)),
                    (BriefingStage::Synthesizing, Event::Briefed(b)) => final(self).stage == BriefingStage::Presenting
                        && final(self).items == old(self).items
                        && final(self).inbox_summary == old(self).inbox_summary
                        && final(self).summary@ == b.summary@ && final(self).priorities == b.priorities
                        && (a matches Action::Send(m) && m@ == briefing_output(b)),
                    (BriefingStage::Presenting, Event::Sent) => final(self).stage == BriefingStage::Dating
                        && final(self).items == old(self).items
                        && final(self).inbox_summary == old(self).inbox_summary
                        && final(self).summary == old(self).summary && final(self).priorities == old(self).priorities
                        && a is ReadClock,
                    (BriefingStage::Dating, Event::Clock(t)) => if utc_representable(t.secs, t.nanos) {
                        final(self).stage == BriefingStage::Looking
                            && final(self).items == old(self).items
                            && final(self).inbox_summary == old(self).inbox_summary
                            && final(self).summary == old(self).summary && final(self).priorities == old(self).priorities
                            && final(self).today@ == ymd_text(t)
                            && (a matches Action::FindByTitle(q) && q@ == ymd_text(t))
                    } else {
                        final(self).stage == BriefingStage::Done && a is Finish
                    },
                    (BriefingStage::Looking, Event::Found(nodes)) => if has_daily(nodes@) {
                        final(self).stage == BriefingStage::Done && a is Finish
                    } else {
                        final(self).stage == BriefingStage::Inserting
                            && (a matches Action::InsertNode(nn)
                                && nn.node_type == NodeType::Daily
                                && nn.category == Category::Memory
                                && nn.title@ == old(self).today@
                                && opt_text(nn.content) == daily_content(old(self).summary@, old(self).items@.len(),
                                    old(self).inbox_summary@, old(self).priorities@)
                                && nn.content is Some
                                && nn.metadata is Object && fields_of(nn.metadata).len() == 0)
                    },
                    _ => final(self).stage == BriefingStage::Done && a is Finish,
                }
            }),
    {
        let query = "briefing today schedule tasks";
        match (self.stage, event) {
            (BriefingStage::Start, Event::Begin) => {
                self.stage = BriefingStage::Announcing;
                Action::Send("📋 Preparing your briefing...".to_owned())
            },
            (BriefingStage::Announcing, Event::Sent) => {
                if self.n_queries > 0 {
                    self.stage = BriefingStage::Fetching(0);
                    Action::FetchInbox(0)
                } else {
                    self.stage = BriefingStage::Recalling;
                    Action::Recall(query.to_owned())
                }
            },
            (BriefingStage::Fetching(i), Event::Fetched(r)) => {
                match r {
                    Some(v) => {
                        let mut v = v;
                        self.items.append(&mut v);
                    },
                    None => {
                        assert(self.items@ == self.items@ + Seq::<InboxItem>::empty());
                    },
                }
                if i < self.n_queries && i + 1 < self.n_queries {
                    self.stage = BriefingStage::Fetching(i + 1);
                    Action::FetchInbox(i + 1)
                } else {
                    self.stage = BriefingStage::Recalling;
                    Action::Recall(query.to_owned())
                }
            },
            (BriefingStage::Recalling, Event::Recalled(nodes)) => {
                self.stage = BriefingStage::Synthesizing;
                let inbox = summarize_inbox(&self.items);
                self.inbox_summary = inbox.clone();
                Action::SynthesizeBriefing { inbox, context: summary(&nodes, 10, LineKind::Detailed) }
            },
            (BriefingStage::Synthesizing, Event::Briefed(b)) => {
                self.stage = BriefingStage::Presenting;
                let out = present_briefing(&b);
                self.summary = b.summary;
                self.priorities = b.priorities;
                Action::Send(out)
            },
            (BriefingStage::Presenting, Event::Sent) => {
                self.stage = BriefingStage::Dating;
                Action::ReadClock
            },
            (BriefingStage::Dating, Event::Clock(t)) => {
                match t.date_text() {
                    Some(today) => {
                        self.stage = BriefingStage::Looking;
                        self.today = today.clone();
                        Action::FindByTitle(today)
                    },
                    None => {
                        self.stage = BriefingStage::Done;
                        Action::Finish
                    },
                }
            },
            (BriefingStage::Looking, Event::Found(nodes)) => {
                if any_daily(&nodes) {
                    self.stage = BriefingStage::Done;
                    Action::Finish
                } else {
                    self.stage = BriefingStage::Inserting;
                    let mut content = "## Briefing\n".to_owned();
                    content.append(self.summary.as_str());
                    content.append("\n\n## Inbox (");
                    push_decimal(&mut content, self.items.len() as u64);
                    content.append(" items)\n");
                    content.append(self.inbox_summary.as_str());
                    content.append("\n\n## Priorities\n");
                    content.append(join(&self.priorities, "\n- ").as_str());
                    Action::InsertNode(crate::types::NewNode {
                        node_type: NodeType::Daily,
                        category: Category::Memory,
                        title: self.today.clone(),
                        content: Some(content),
                        metadata: JsonValue::Object(Vec::new()),
                    })
                }
            },
            _ => {
                self.stage = BriefingStage::Done;
                Action::Finish
            },
        }
    }
}

} // verus!
