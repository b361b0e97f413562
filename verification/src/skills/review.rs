//! `/review`: the end-of-day review that summarizes the day, updates the
//! day's note and records what was learned.
use vstd::prelude::*;
use crate::brain::client::ReviewSynthesis;
use crate::connectors::traits::InboxItem;
use crate::json::{as_str_spec, fields_of, get_spec, text_entry, text_field, JsonValue};
use crate::skills::format::{
    bullets_spec, item_line, item_line_spec, joined, lemma_section_shows_entries, push_section, section_spec, summary, summary_spec, LineKind,
};
use crate::skills::traits::{Action, Event};
use crate::text::{contains_spec, has_prefix, join, join_spec, occurs_at, views};
use crate::time::{utc_representable, ymd_text};
use crate::types::{opt_text, Category, NewNode, Node, NodeType, NodeUpdate};

verus! {

/// The review skill.
#[derive(Clone, Debug)]
pub struct ReviewSkill;

impl ReviewSkill {
    /// The skill's name.
    pub fn name(&self) -> (r: &'static str)
        ensures
            r@ == "review"@,
    {
        "review"
    }

    /// What the skill does.
    pub fn description(&self) -> (r: &'static str)
        ensures
            r@ == "End-of-day review: summarize, update DailyNote, consolidate memory"@,
    {
        "End-of-day review: summarize, update DailyNote, consolidate memory"
    }
}

/// Where a review run is.
#[derive(PartialEq, Eq, Structural, Clone, Copy, Debug)]
pub enum ReviewStage {
    Start,
    Announcing,
    Fetching(usize),
    ListingInbox,
    Recalling,
    Synthesizing,
    Presenting,
    Dating,
    Looking,
    Writing,
    LearningClock(usize),
    LearningInsert(usize),
    Done,
}

/// A run of the review skill over `n_queries` query connectors.
#[derive(Clone, Debug)]
pub struct ReviewRun {
    pub n_queries: usize,
    pub stage: ReviewStage,
    /// The activity lines gathered so far.
    pub activities: Vec<String>,
    pub summary: String,
    pub completed: Vec<String>,
    pub tomorrow: Vec<String>,
    pub learnings: Vec<String>,
    pub today: String,
}

/// The status of an inbox node, `unknown` when it has none.
pub open spec fn inbox_status(metadata: JsonValue) -> Seq<char> {
    match get_spec(metadata, "status"@) {
        Some(v) => match as_str_spec(v) {
            Some(s) => s,
            None => "unknown"@,
        },
        None => "unknown"@,
    }
}

/// The activity line of an inbox node.
pub open spec fn inbox_line(n: Node) -> Seq<char> {
    "- [inbox/"@ + inbox_status(n.metadata) + "] "@ + n.title@
}

/// The activities as text: one per line, or a note that there are none.
pub open spec fn activities_text(activities: Seq<String>) -> Seq<char> {
    if activities.len() == 0 {
        "No activities captured today."@
    } else {
        joined(activities, "\n"@)
    }
}

/// The review as shown to the user.
pub open spec fn review_output(r: ReviewSynthesis) -> Seq<char> {
    "**Review:** "@ + r.summary@ + "\n\n"@ + section_spec(r.completed@, "**Completed:**\n"@, "  ✅ "@)
        + section_spec(r.in_progress@, "\n**In Progress:**\n"@, "  🔄 "@) + section_spec(
        r.unstarted@,
        "\n**Not Started:**\n"@,
        "  ⬜ "@,
    ) + section_spec(r.tomorrow@, "\n**Tomorrow's Priorities:**\n"@, "  → "@) + section_spec(
        r.learnings@,
        "\n**Learnings:**\n"@,
        "  💡 "@,
    )
}

/// The review's part of the day's note.
pub open spec fn review_note(summary: Seq<char>, completed: Seq<String>, tomorrow: Seq<String>) -> Seq<char> {
    "## Review\n"@ + summary + "\n\n## Completed\n"@ + joined(completed, "\n- "@) + "\n\n## Tomorrow\n"@
        + joined(tomorrow, "\n- "@)
}

/// An existing note with the review appended after a rule.
pub open spec fn appended_note(existing: Seq<char>, note: Seq<char>) -> Seq<char> {
    existing + "\n\n---\n\n"@ + note
}

/// The index of the first node of type `daily`.
pub open spec fn first_daily(nodes: Seq<Node>, i: int) -> bool {
    0 <= i < nodes.len() && nodes[i].node_type@ == "daily"@ && forall|t: int|
        0 <= t < i ==> (#[trigger] nodes[t]).node_type@ != "daily"@
}

/// The content of a learning node.
pub open spec fn learning_content(date: Seq<char>, learning: Seq<char>) -> Seq<char> {
    "Learned on "@ + date + ": "@ + learning
}

/// The shown review leaves nothing of the synthesis out. It starts with the
/// summary; every entry of every list shows on a line of its own under that
/// list's marker; and the in-progress work, when there is any, comes under its
/// heading right after the summary and the Completed section, and right
/// before the Not Started section.
pub proof fn review_shows_every_entry(r: ReviewSynthesis, i: int)
    ensures
        has_prefix(review_output(r), "**Review:** "@ + r.summary@ + "\n\n"@),
        0 <= i < r.completed@.len() ==> contains_spec(review_output(r), "  ✅ "@ + r.completed@[i]@ + "\n"@),
        0 <= i < r.in_progress@.len() ==> contains_spec(review_output(r), "  🔄 "@ + r.in_progress@[i]@ + "\n"@),
        0 <= i < r.unstarted@.len() ==> contains_spec(review_output(r), "  ⬜ "@ + r.unstarted@[i]@ + "\n"@),
        0 <= i < r.tomorrow@.len() ==> contains_spec(review_output(r), "  → "@ + r.tomorrow@[i]@ + "\n"@),
        0 <= i < r.learnings@.len() ==> contains_spec(review_output(r), "  💡 "@ + r.learnings@[i]@ + "\n"@),
        r.in_progress@.len() > 0 ==> occurs_at(
            review_output(r),
            "\n**In Progress:**\n"@ + bullets_spec(r.in_progress@, "  🔄 "@) + section_spec(
                r.unstarted@,
                "\n**Not Started:**\n"@,
                "  ⬜ "@,
            ),
            ("**Review:** "@ + r.summary@ + "\n\n"@ + section_spec(r.completed@, "**Completed:**\n"@, "  ✅ "@)).len() as int,
        ),
{
    let h = "**Review:** "@ + r.summary@ + "\n\n"@;
    let c = section_spec(r.completed@, "**Completed:**\n"@, "  ✅ "@);
    let p = section_spec(r.in_progress@, "\n**In Progress:**\n"@, "  🔄 "@);
    let u = section_spec(r.unstarted@, "\n**Not Started:**\n"@, "  ⬜ "@);
    let t = section_spec(r.tomorrow@, "\n**Tomorrow's Priorities:**\n"@, "  → "@);
    let l = section_spec(r.learnings@, "\n**Learnings:**\n"@, "  💡 "@);
    let out = review_output(r);
    assert(out == h + c + p + u + t + l);
    assert(out.take(h.len() as int) =~= h);
    if 0 <= i < r.completed@.len() {
        assert(out =~= h + c + (p + u + t + l));
        lemma_section_shows_entries(h, r.completed@, "**Completed:**\n"@, "  ✅ "@, p + u + t + l, i);
    }
    if 0 <= i < r.in_progress@.len() {
        assert(out =~= (h + c) + p + (u + t + l));
        lemma_section_shows_entries(h + c, r.in_progress@, "\n**In Progress:**\n"@, "  🔄 "@, u + t + l, i);
    }
    if 0 <= i < r.unstarted@.len() {
        assert(out =~= (h + c + p) + u + (t + l));
        lemma_section_shows_entries(h + c + p, r.unstarted@, "\n**Not Started:**\n"@, "  ⬜ "@, t + l, i);
    }
    if 0 <= i < r.tomorrow@.len() {
        assert(out =~= (h + c + p + u) + t + l);
        lemma_section_shows_entries(h + c + p + u, r.tomorrow@, "\n**Tomorrow's Priorities:**\n"@, "  → "@, l, i);
    }
    if 0 <= i < r.learnings@.len() {
        assert(out =~= (h + c + p + u + t) + l + Seq::<char>::empty());
        lemma_section_shows_entries(h + c + p + u + t, r.learnings@, "\n**Learnings:**\n"@, "  💡 "@, Seq::<char>::empty(), i);
    }
    if r.in_progress@.len() > 0 {
        let block = "\n**In Progress:**\n"@ + bullets_spec(r.in_progress@, "  🔄 "@) + u;
        assert(p + u =~= block);
        assert(out =~= (h + c) + block + (t + l));
        assert(out.subrange((h + c).len() as int, ((h + c).len() + block.len()) as int) =~= block);
    }
}

/// Appending the review to the day's note keeps the note as it was in front.
pub proof fn appended_note_keeps_existing(existing: Seq<char>, note: Seq<char>)
    ensures
        appended_note(existing, note).subrange(0, existing.len() as int) == existing,
        appended_note(existing, note).len() == existing.len() + 7 + note.len(),
{
    reveal_strlit("\n\n---\n\n");
    assert(appended_note(existing, note).subrange(0, existing.len() as int) =~= existing);
}

/// The activity line of an inbox node.
fn inbox_activity(n: &Node) -> (r: String)
    ensures
        r@ == inbox_line(*n),
{
    let status = match n.metadata.get("status") {
        Some(JsonValue::Str(s)) => s.clone(),
        _ => "unknown".to_owned(),
    };
    let mut r = "- [inbox/".to_owned();
    r.append(status.as_str());
    r.append("] ");
    r.append(n.title.as_str());
    r
}

/// The review as shown to the user.
pub fn present_review(r: &ReviewSynthesis) -> (out: String)
    ensures
        out@ == review_output(*r),
{
    let mut out = "**Review:** ".to_owned();
    out.append(r.summary.as_str());
    out.append("\n\n");
    push_section(&mut out, &r.completed, "**Completed:**\n", "  ✅ ");
    push_section(&mut out, &r.in_progress, "\n**In Progress:**\n", "  🔄 ");
    push_section(&mut out, &r.unstarted, "\n**Not Started:**\n", "  ⬜ ");
    push_section(&mut out, &r.tomorrow, "\n**Tomorrow's Priorities:**\n", "  → ");
    push_section(&mut out, &r.learnings, "\n**Learnings:**\n", "  💡 ");
    out
}

/// The first node of type `daily`, if any.
pub fn find_daily(nodes: &Vec<Node>) -> (r: Option<usize>)
    ensures
        match r {
            Some(i) => first_daily(nodes@, i as int),
            None => forall|t: int| 0 <= t < nodes@.len() ==> (#[trigger] nodes@[t]).node_type@ != "daily"@,
        },
{
    let mut i: usize = 0;
    while i < nodes.len()
        invariant
            i <= nodes@.len(),
            forall|t: int| 0 <= t < i ==> (#[trigger] nodes@[t]).node_type@ != "daily"@,
        decreases nodes.len() - i,
    {
        if crate::json::str_eq(nodes[i].node_type.as_str(), "daily") {
            return Some(i);
        }
        i = i + 1;
    }
    None
}

/// The gathered activity lines followed by those of `items`.
pub open spec fn with_item_lines(acts: Seq<Seq<char>>, items: Seq<InboxItem>) -> Seq<Seq<char>> {
    acts + Seq::new(items.len(), |i: int| item_line_spec(items[i]))
}

/// The gathered activity lines followed by those of inbox `nodes`.
pub open spec fn with_inbox_lines(acts: Seq<Seq<char>>, nodes: Seq<Node>) -> Seq<Seq<char>> {
    acts + Seq::new(nodes.len(), |i: int| inbox_line(nodes[i]))
}

/// The learning node for `learning` on `date`.
pub open spec fn is_learning_node(nn: NewNode, date: Seq<char>, learning: Seq<char>) -> bool {
    &&& nn.node_type == NodeType::Learning
    &&& nn.category == Category::Knowledge
    &&& nn.title@ == learning
    &&& nn.content matches Some(c) && c@ == learning_content(date, learning)
    &&& nn.metadata is Object && fields_of(nn.metadata).len() == 1
    &&& text_field(fields_of(nn.metadata)[0], "source"@, "daily_review"@)
}

impl ReviewRun {
    /// A run over `n_queries` query connectors.
    pub fn new(n_queries: usize) -> (r: ReviewRun)
        ensures
            r.n_queries == n_queries,
            r.stage == ReviewStage::Start,
            r.activities@.len() == 0,
    {
        ReviewRun {
            n_queries,
            stage: ReviewStage::Start,
            activities: Vec::new(),
            summary: String::new(),
            completed: Vec::new(),
            tomorrow: Vec::new(),
            learnings: Vec::new(),
            today: String::new(),
        }
    }

    /// Adds the activity lines of fetched items.
    fn add_items(&mut self, items: &Vec<InboxItem>)
        ensures
            views(final(self).activities@) == with_item_lines(views(old(self).activities@), items@),
            final(self).n_queries == old(self).n_queries,
            final(self).stage == old(self).stage,
    {
        let ghost start = views(self.activities@);
        let mut i: usize = 0;
        assert(with_item_lines(start, items@.take(0)) =~= start);
        while i < items.len()
            invariant
                i <= items@.len(),
                self.n_queries == old(self).n_queries,
                self.stage == old(self).stage,
                views(self.activities@) == with_item_lines(start, items@.take(i as int)),
            decreases items.len() - i,
        {
            let ghost before = self.activities@;
            let line = item_line(&items[i]);
            self.activities.push(line);
            assert(views(self.activities@) =~= views(before).push(line@));
            assert(with_item_lines(start, items@.take(i + 1)) =~= with_item_lines(start, items@.take(i as int)).push(item_line_spec(items@[i as int])));
            i = i + 1;
        }
        assert(items@.take(items@.len() as int) == items@);
    }

    /// Adds the activity lines of inbox nodes.
    fn add_inbox_nodes(&mut self, nodes: &Vec<Node>)
        ensures
            views(final(self).activities@) == with_inbox_lines(views(old(self).activities@), nodes@),
            final(self).n_queries == old(self).n_queries,
            final(self).stage == old(self).stage,
    {
        let ghost start = views(self.activities@);
        let mut i: usize = 0;
        assert(with_inbox_lines(start, nodes@.take(0)) =~= start);
        while i < nodes.len()
            invariant
                i <= nodes@.len(),
                self.n_queries == old(self).n_queries,
                self.stage == old(self).stage,
                views(self.activities@) == with_inbox_lines(start, nodes@.take(i as int)),
            decreases nodes.len() - i,
        {
            let ghost before = self.activities@;
            let line = inbox_activity(&nodes[i]);
            self.activities.push(line);
            assert(views(self.activities@) =~= views(before).push(line@));
            assert(with_inbox_lines(start, nodes@.take(i + 1)) =~= with_inbox_lines(start, nodes@.take(i as int)).push(inbox_line(nodes@[i as int])));
            i = i + 1;
        }
        assert(nodes@.take(nodes@.len() as int) == nodes@);
    }

    /// The next action after an event. The review is announced; each
    /// connector's items become activity lines (a failing connector adds none),
    /// then each inbox node with its status; context is recalled; the model
    /// reviews the activities with the first ten recalled nodes; the review is
    /// shown; the review is appended to the first `daily` node found by today's
    /// date, or a new day's note is inserted; then each learning is recorded
    /// as a learning node dated when it is recorded.
    pub fn step(&mut self, event: Event) -> (a: Action)
        ensures
            final(self).n_queries == old(self).n_queries,
            ({
                let n = old(self).n_queries;
                let acts = views(old(self).activities@);
                match (old(self).stage, event) {
                    (ReviewStage::Start, Event::Begin) => final(self).stage == ReviewStage::Announcing
                        && final(self).activities == old(self).activities
                        && (a matches Action::Send(m) && m@ == "🌆 Starting daily review..."@),
                    (ReviewStage::Announcing, Event::Sent) => final(self).activities == old(self).activities
                        && if n > 0 {
                        final(self).stage == ReviewStage::Fetching(0) && a == Action::FetchInbox(0)
                    } else {
                        final(self).stage == ReviewStage::ListingInbox && a == Action::FindByType(NodeType::Inbox)
                    },
                    (ReviewStage::Fetching(i), Event::Fetched(r)) => views(final(self).activities@)
                        == with_item_lines(acts, match r {
                        Some(v) => v@,
                        None => Seq::empty(),
                    }) && if i + 1 < n {
                        final(self).stage == ReviewStage::Fetching((i + 1) as usize) && a == Action::FetchInbox((i + 1) as usize)
                    } else {
                        final(self).stage == ReviewStage::ListingInbox && a == Action::FindByType(NodeType::Inbox)
                    },
                    (ReviewStage::ListingInbox, Event::Found(nodes)) => final(self).stage == ReviewStage::Recalling
                        && views(final(self).activities@) == with_inbox_lines(acts, nodes@)
                        && (a matches Action::Recall(q) && q@ == "daily review today summary"@),
                    (ReviewStage::Recalling, Event::Recalled(nodes)) => final(self).stage == ReviewStage::Synthesizing
                        && (a matches Action::SynthesizeReview { activities: t, context: c }
                            && t@ == activities_text(old(self).activities@)
                            && c@ == summary_spec(nodes@, 10, LineKind::Typed)),
                    (ReviewStage::Synthesizing, Event::Reviewed(r)) => final(self).stage == ReviewStage::Presenting
                        && final(self).summary@ == r.summary@ && final(self).completed == r.completed
                        && final(self).tomorrow == r.tomorrow && final(self).learnings == r.learnings
                        && (a matches Action::Send(m) && m@ == review_output(r)),
                    (ReviewStage::Presenting, Event::Sent) => final(self).stage == ReviewStage::Dating
                        && final(self).summary == old(self).summary && final(self).completed == old(self).completed
                        && final(self).tomorrow == old(self).tomorrow && final(self).learnings == old(self).learnings
                        && a is ReadClock,
                    (ReviewStage::Dating, Event::Clock(t)) => if utc_representable(t.secs, t.nanos) {
                        final(self).stage == ReviewStage::Looking
                            && final(self).summary == old(self).summary && final(self).completed == old(self).completed
                            && final(self).tomorrow == old(self).tomorrow && final(self).learnings == old(self).learnings
                            && final(self).today@ == ymd_text(t)
                            && (a matches Action::FindByTitle(q) && q@ == ymd_text(t))
                    } else {
                        final(self).stage == ReviewStage::Done && a is Finish
                    },
                    (ReviewStage::Looking, Event::Found(nodes)) => {
                        let note = review_note(old(self).summary@, old(self).completed@, old(self).tomorrow@);
                        &&& final(self).stage == ReviewStage::Writing
                        &&& final(self).learnings == old(self).learnings
                        &&& if exists|i: int| first_daily(nodes@, i) {
                            let i = choose|i: int| first_daily(nodes@, i);
                            a matches Action::UpdateNode { id, update } && id@ == nodes@[i].id@
                                && update.title is None && update.metadata is None
                                && (update.content matches Some(c) && c@ == appended_note(opt_text(nodes@[i].content), note))
                        } else {
                            a matches Action::InsertNode(nn) && nn.node_type == NodeType::Daily
                                && nn.category == Category::Memory && nn.title@ == old(self).today@
                                && (nn.content matches Some(c) && c@ == note)
                                && nn.metadata is Object && fields_of(nn.metadata).len() == 0
                        }
                    },
                    (ReviewStage::Writing, Event::Updated) | (ReviewStage::Writing, Event::Inserted(_)) =>
                        final(self).learnings == old(self).learnings && if old(self).learnings@.len() > 0 {
                        final(self).stage == ReviewStage::LearningClock(0) && a is ReadClock
                    } else {
                        final(self).stage == ReviewStage::Done && a is Finish
                    },
                    (ReviewStage::LearningClock(k), Event::Clock(t)) => if k < old(self).learnings@.len()
                        && utc_representable(t.secs, t.nanos) {
                        final(self).stage == ReviewStage::LearningInsert(k) && final(self).learnings == old(self).learnings
                            && (a matches Action::InsertNode(nn) && is_learning_node(nn, ymd_text(t), old(self).learnings@[k as int]@))
                    } else {
                        final(self).stage == ReviewStage::Done && a is Finish
                    },
                    (ReviewStage::LearningInsert(k), Event::Inserted(_)) => final(self).learnings == old(self).learnings
                        && if k + 1 < old(self).learnings@.len() {
                        final(self).stage == ReviewStage::LearningClock((k + 1) as usize) && a is ReadClock
                    } else {
                        final(self).stage == ReviewStage::Done && a is Finish
                    },
                    _ => final(self).stage == ReviewStage::Done && a is Finish,
                }
            }),
    {
        match (self.stage, event) {
            (ReviewStage::Start, Event::Begin) => {
                self.stage = ReviewStage::Announcing;
                Action::Send("🌆 Starting daily review...".to_owned())
            },
            (ReviewStage::Announcing, Event::Sent) => {
                if self.n_queries > 0 {
                    self.stage = ReviewStage::Fetching(0);
                    Action::FetchInbox(0)
                } else {
                    self.stage = ReviewStage::ListingInbox;
                    Action::FindByType(NodeType::Inbox)
                }
            },
            (ReviewStage::Fetching(i), Event::Fetched(r)) => {
                match r {
                    Some(v) => self.add_items(&v),
                    None => {
                        assert(with_item_lines(views(self.activities@), Seq::<InboxItem>::empty()) =~= views(self.activities@));
                    },
                }
                if i < self.n_queries && i + 1 < self.n_queries {
                    self.stage = ReviewStage::Fetching(i + 1);
                    Action::FetchInbox(i + 1)
                } else {
                    self.stage = ReviewStage::ListingInbox;
                    Action::FindByType(NodeType::Inbox)
                }
            },
            (ReviewStage::ListingInbox, Event::Found(nodes)) => {
                self.add_inbox_nodes(&nodes);
                self.stage = ReviewStage::Recalling;
                Action::Recall("daily review today summary".to_owned())
            },
            (ReviewStage::Recalling, Event::Recalled(nodes)) => {
                self.stage = ReviewStage::Synthesizing;
                let text = if self.activities.len() == 0 {
                    "No activities captured today.".to_owned()
                } else {
                    join(&self.activities, "\n")
                };
                Action::SynthesizeReview { activities: text, context: summary(&nodes, 10, LineKind::Typed) }
            },
            (ReviewStage::Synthesizing, Event::Reviewed(r)) => {
                self.stage = ReviewStage::Presenting;
                let out = present_review(&r);
                self.summary = r.summary;
                self.completed = r.completed;
                self.tomorrow = r.tomorrow;
                self.learnings = r.learnings;
                Action::Send(out)
            },
            (ReviewStage::Presenting, Event::Sent) => {
                self.stage = ReviewStage::Dating;
                Action::ReadClock
            },
            (ReviewStage::Dating, Event::Clock(t)) => {
                match t.date_text() {
                    Some(today) => {
                        self.stage = ReviewStage::Looking;
                        self.today = today.clone();
                        Action::FindByTitle(today)
                    },
                    None => {
                        self.stage = ReviewStage::Done;
                        Action::Finish
                    },
                }
            },
            (ReviewStage::Looking, Event::Found(nodes)) => {
                self.stage = ReviewStage::Writing;
                let mut note = "## Review\n".to_owned();
                note.append(self.summary.as_str());
                note.append("\n\n## Completed\n");
                note.append(join(&self.completed, "\n- ").as_str());
                note.append("\n\n## Tomorrow\n");
                note.append(join(&self.tomorrow, "\n- ").as_str());
                match find_daily(&nodes) {
                    Some(i) => {
                        let mut content = match &nodes[i].content {
                            Some(c) => c.clone(),
                            None => String::new(),
                        };
                        content.append("\n\n---\n\n");
                        content.append(note.as_str());
                        proof {
                            assert forall|j: int| first_daily(nodes@, j) implies j == i by {
                                if j < i {
                                } else if j > i {
                                    assert(nodes@[i as int].node_type@ == "daily"@);
                                }
                            }
                        }
                        Action::UpdateNode {
                            id: nodes[i].id.clone(),
                            update: NodeUpdate { title: None, content: Some(content), metadata: None },
                        }
                    },
                    None => {
                        Action::InsertNode(NewNode {
                            node_type: NodeType::Daily,
                            category: Category::Memory,
                            title: self.today.clone(),
                            content: Some(note),
                            metadata: JsonValue::Object(Vec::new()),
                        })
                    },
                }
            },
            (ReviewStage::Writing, Event::Updated) | (ReviewStage::Writing, Event::Inserted(_)) => {
                if self.learnings.len() > 0 {
                    self.stage = ReviewStage::LearningClock(0);
                    Action::ReadClock
                } else {
                    self.stage = ReviewStage::Done;
                    Action::Finish
                }
            },
            (ReviewStage::LearningClock(k), Event::Clock(t)) => {
                if k < self.learnings.len() {
                    match t.date_text() {
                        Some(date) => {
                            self.stage = ReviewStage::LearningInsert(k);
                            let learning = self.learnings[k].clone();
                            let mut content = "Learned on ".to_owned();
                            content.append(date.as_str());
                            content.append(": ");
                            content.append(learning.as_str());
                            let mut fields = Vec::new();
                            fields.push(text_entry("source", "daily_review"));
                            Action::InsertNode(NewNode {
                                node_type: NodeType::Learning,
                                category: Category::Knowledge,
                                title: learning,
                                content: Some(content),
                                metadata: JsonValue::Object(fields),
                            })
                        },
                        None => {
                            self.stage = ReviewStage::Done;
                            Action::Finish
                        },
                    }
                } else {
                    self.stage = ReviewStage::Done;
                    Action::Finish
                }
            },
            (ReviewStage::LearningInsert(k), Event::Inserted(_)) => {
                if k < self.learnings.len() && k + 1 < self.learnings.len() {
                    self.stage = ReviewStage::LearningClock(k + 1);
                    Action::ReadClock
                } else {
                    self.stage = ReviewStage::Done;
                    Action::Finish
                }
            },
            _ => {
                self.stage = ReviewStage::Done;
                Action::Finish
            },
        }
    }
}

} // verus!
