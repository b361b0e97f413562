//! `/inbox`: collect new items from every connector, skip what is done or
//! already captured, store them as inbox nodes, link items about the same
//! topic, classify them and record the classification.
use vstd::prelude::*;
use crate::brain::client::InboxClassification;
use crate::connectors::traits::InboxItem;
use crate::json::{as_str_spec, fields_of, get_spec, is_text, str_eq, text_entry, text_field, JsonValue};
use crate::skills::format::{summary, summary_spec, LineKind};
use crate::skills::traits::{Action, ClassifyEntry, Event};
use crate::text::{chars_of, decimal, has_long_shared_word, prefix_spec, push_decimal, shares_long_word, take_chars};
use crate::time::{rfc3339_text, utc_representable};
use crate::types::{Category, NewNode, Node, NodeType, NodeUpdate};

verus! {

/// The inbox skill.
#[derive(Clone, Debug)]
pub struct InboxSkill;

impl InboxSkill {
    /// The skill's name.
    pub fn name(&self) -> (r: &'static str)
        ensures
            r@ == "inbox"@,
    {
        "inbox"
    }

    /// What the skill does.
    pub fn description(&self) -> (r: &'static str)
        ensures
            r@ == "Process inbox: collect, dedup, classify, and organize"@,
    {
        "Process inbox: collect, dedup, classify, and organize"
    }
}

/// The icon of a classification.
pub open spec fn icon_spec(c: Seq<char>) -> Seq<char> {
    if c == "do_now"@ {
        "⚡"@
    } else if c == "task"@ {
        "📋"@
    } else if c == "breakdown"@ {
        "🔨"@
    } else if c == "reference"@ {
        "📚"@
    } else if c == "skip"@ {
        "⏭"@
    } else {
        "❓"@
    }
}

/// The icon of a classification.
pub fn icon(c: &str) -> (r: &'static str)
    ensures
        r@ == icon_spec(c@),
{
    if str_eq(c, "do_now") {
        "⚡"
    } else if str_eq(c, "task") {
        "📋"
    } else if str_eq(c, "breakdown") {
        "🔨"
    } else if str_eq(c, "reference") {
        "📚"
    } else if str_eq(c, "skip") {
        "⏭"
    } else {
        "❓"
    }
}

/// The status recorded for an item with this classification.
pub open spec fn status_spec(c: Seq<char>) -> Seq<char> {
    if c == "skip"@ {
        "skipped"@
    } else {
        "processed"@
    }
}

/// The recorded status of a classification: `skipped` exactly for `skip`,
/// and `processed` for every other classification.
pub proof fn status_skipped_only_for_skip(c: Seq<char>)
    ensures
        status_spec(c) == "skipped"@ <==> c == "skip"@,
        c != "skip"@ ==> status_spec(c) == "processed"@,
{
    reveal_strlit("skipped");
    reveal_strlit("processed");
    assert("skipped"@[0] != "processed"@[0]);
}

/// The status recorded for an item with this classification.
pub fn status_for(c: &str) -> (r: &'static str)
    ensures
        r@ == status_spec(c@),
        c@ == "skip"@ ==> r@ == "skipped"@,
        c@ != "skip"@ ==> r@ == "processed"@,
{
    if str_eq(c, "skip") {
        "skipped"
    } else {
        "processed"
    }
}

/// The title shown for a classification: that of the first new item with its
/// external id, or the external id itself.
pub open spec fn shown_title(items: Seq<InboxItem>, external_id: Seq<char>) -> Seq<char>
    decreases items.len(),
{
    if items.len() == 0 {
        external_id
    } else if items[0].external_id@ == external_id {
        items[0].title@
    } else {
        shown_title(items.drop_first(), external_id)
    }
}

/// The title shown for a classification.
pub fn title_for(items: &Vec<InboxItem>, external_id: &str) -> (r: String)
    ensures
        r@ == shown_title(items@, external_id@),
{
    let mut i: usize = 0;
    assert(items@.skip(0) == items@);
    while i < items.len()
        invariant
            i <= items@.len(),
            shown_title(items@, external_id@) == shown_title(items@.skip(i as int), external_id@),
        decreases items.len() - i,
    {
        assert(items@.skip(i as int).drop_first() == items@.skip(i + 1));
        if str_eq(items[i].external_id.as_str(), external_id) {
            return items[i].title.clone();
        }
        i = i + 1;
    }
    external_id.to_owned()
}

/// The lines that present one classification.
pub open spec fn classification_lines(items: Seq<InboxItem>, c: InboxClassification) -> Seq<char> {
    icon_spec(c.classification@) + " **"@ + shown_title(items, c.external_id@) + "** → "@
        + c.classification@ + "\n  _"@ + c.reason@ + "_\n\n"@
}

/// The presentation of the classifications.
pub open spec fn classifications_text(items: Seq<InboxItem>, cs: Seq<InboxClassification>) -> Seq<char>
    decreases cs.len(),
{
    if cs.len() == 0 {
        "**Inbox Classification:**\n\n"@
    } else {
        classifications_text(items, cs.drop_last()) + classification_lines(items, cs.last())
    }
}

/// The presentation of the classifications.
pub fn present_classifications(items: &Vec<InboxItem>, cs: &Vec<InboxClassification>) -> (r: String)
    ensures
        r@ == classifications_text(items@, cs@),
{
    let mut out = "**Inbox Classification:**\n\n".to_owned();
    let mut i: usize = 0;
    assert(cs@.take(0).len() == 0);
    while i < cs.len()
        invariant
            i <= cs@.len(),
            out@ == classifications_text(items@, cs@.take(i as int)),
        decreases cs.len() - i,
    {
        let c = &cs[i];
        out.append(icon(c.classification.as_str()));
        out.append(" **");
        out.append(title_for(items, c.external_id.as_str()).as_str());
        out.append("** → ");
        out.append(c.classification.as_str());
        out.append("\n  _");
        out.append(c.reason.as_str());
        out.append("_\n\n");
        assert(cs@.take(i + 1).drop_last() == cs@.take(i as int));
        i = i + 1;
    }
    assert(cs@.take(cs@.len() as int) == cs@);
    out
}

/// The entry handed to the classifier for an item.
pub open spec fn is_entry(e: ClassifyEntry, item: InboxItem) -> bool {
    &&& e.external_id@ == item.external_id@
    &&& e.source@ == item.source@
    &&& e.title@ == item.title@
    &&& e.content@ == prefix_spec(item.content@, 300)
}

/// The entries handed to the classifier, one per item.
pub fn classify_entries(items: &Vec<InboxItem>) -> (r: Vec<ClassifyEntry>)
    ensures
        r@.len() == items@.len(),
        forall|i: int| 0 <= i < r@.len() ==> is_entry(#[trigger] r@[i], items@[i]),
{
    let mut r: Vec<ClassifyEntry> = Vec::new();
    let mut i: usize = 0;
    while i < items.len()
        invariant
            i <= items@.len(),
            r@.len() == i,
            forall|t: int| 0 <= t < i ==> is_entry(#[trigger] r@[t], items@[t]),
        decreases items.len() - i,
    {
        let it = &items[i];
        r.push(ClassifyEntry {
            external_id: it.external_id.clone(),
            source: it.source.clone(),
            title: it.title.clone(),
            content: take_chars(it.content.as_str(), 300),
        });
        i = i + 1;
    }
    r
}

/// The node stored for a new item.
pub open spec fn is_inbox_node(nn: NewNode, item: InboxItem) -> bool {
    let f = fields_of(nn.metadata);
    &&& nn.node_type == NodeType::Inbox
    &&& nn.category == Category::Gtd
    &&& nn.title@ == item.title@
    &&& (nn.content matches Some(c) && c@ == item.content@)
    &&& nn.metadata is Object
    &&& f.len() == 4
    &&& text_field(f[0], "source"@, item.source@)
    &&& text_field(f[1], "external_id"@, item.external_id@)
    &&& text_field(f[2], "status"@, "unprocessed"@)
    &&& f[3].0@ == "captured_at"@
    &&& if utc_representable(item.timestamp.secs, item.timestamp.nanos) {
        is_text(f[3].1, rfc3339_text(item.timestamp))
    } else {
        f[3].1 is Null
    }
}

/// The node stored for a new item.
pub fn inbox_node(item: &InboxItem) -> (r: NewNode)
    ensures
        is_inbox_node(r, *item),
{
    let captured = match item.timestamp.rfc3339() {
        Some(t) => JsonValue::Str(t),
        None => JsonValue::Null,
    };
    let mut fields = Vec::new();
    fields.push(text_entry("source", item.source.as_str()));
    fields.push(text_entry("external_id", item.external_id.as_str()));
    fields.push(text_entry("status", "unprocessed"));
    fields.push((("captured_at").to_owned(), captured));
    NewNode {
        node_type: NodeType::Inbox,
        category: Category::Gtd,
        title: item.title.clone(),
        content: Some(item.content.clone()),
        metadata: JsonValue::Object(fields),
    }
}

/// The external id recorded in a node's metadata.
pub open spec fn recorded_id(n: Node) -> Option<Seq<char>> {
    match get_spec(n.metadata, "external_id"@) {
        Some(v) => as_str_spec(v),
        None => None,
    }
}

/// `nodes[i]` is the first node that records `external_id`.
pub open spec fn first_recording(nodes: Seq<Node>, external_id: Seq<char>, i: int) -> bool {
    0 <= i < nodes.len() && recorded_id(nodes[i]) == Some(external_id) && forall|t: int|
        0 <= t < i ==> recorded_id(#[trigger] nodes[t]) != Some(external_id)
}

/// The first node that records `external_id`.
pub fn find_recording(nodes: &Vec<Node>, external_id: &str) -> (r: Option<usize>)
    ensures
        match r {
            Some(i) => first_recording(nodes@, external_id@, i as int),
            None => forall|t: int| 0 <= t < nodes@.len() ==> recorded_id(#[trigger] nodes@[t]) != Some(external_id@),
        },
{
    let mut i: usize = 0;
    while i < nodes.len()
        invariant
            i <= nodes@.len(),
            forall|t: int| 0 <= t < i ==> recorded_id(#[trigger] nodes@[t]) != Some(external_id@),
        decreases nodes.len() - i,
    {
        match nodes[i].metadata.get("external_id") {
            Some(JsonValue::Str(s)) => {
                if str_eq(s.as_str(), external_id) {
                    return Some(i);
                }
            },
            _ => {},
        }
        i = i + 1;
    }
    None
}

/// `(a, b)` comes at or after `(i, j)` in the order in which pairs are compared.
pub open spec fn pair_at_or_after(a: int, b: int, i: int, j: int) -> bool {
    a > i || (a == i && b >= j)
}

/// Two titles are about the same topic: some word longer than three bytes of the first occurs in the second.
pub open spec fn same_topic(titles: Seq<Seq<char>>, a: int, b: int) -> bool {
    shares_long_word(titles[a], titles[b])
}

/// `(a, b)` is the first pair of titles about the same topic at or after `(i, j)`.
pub open spec fn is_next_pair(titles: Seq<Seq<char>>, i: int, j: int, a: int, b: int) -> bool {
    &&& 0 <= a < b < titles.len()
    &&& pair_at_or_after(a, b, i, j)
    &&& same_topic(titles, a, b)
    &&& forall|x: int, y: int|
        0 <= x < y < titles.len() && pair_at_or_after(x, y, i, j) && !pair_at_or_after(x, y, a, b) ==> !#[trigger] same_topic(titles, x, y)
}

/// No pair of titles at or after `(i, j)` is about the same topic.
pub open spec fn no_pair_after(titles: Seq<Seq<char>>, i: int, j: int) -> bool {
    forall|x: int, y: int| 0 <= x < y < titles.len() && pair_at_or_after(x, y, i, j) ==> !#[trigger] same_topic(titles, x, y)
}

/// The first pair of titles about the same topic at or after `(i, j)`.
pub fn next_pair(titles: &Vec<Vec<char>>, i: usize, j: usize) -> (r: Option<(usize, usize)>)
    ensures
        match r {
            Some((a, b)) => is_next_pair(titles@.map_values(|v: Vec<char>| v@), i as int, j as int, a as int, b as int),
            None => no_pair_after(titles@.map_values(|v: Vec<char>| v@), i as int, j as int),
        },
{
    let ghost ts = titles@.map_values(|v: Vec<char>| v@);
    let mut x = i;
    while x < titles.len()
        invariant
            ts == titles@.map_values(|v: Vec<char>| v@),
            x >= i,
            forall|a: int, b: int| 0 <= a < b < ts.len() && pair_at_or_after(a, b, i as int, j as int) && a < x ==> !#[trigger] same_topic(ts, a, b),
        decreases titles.len() - x,
    {
        let mut y = if x == i && j > x + 1 {
            j
        } else {
            x + 1
        };
        while y < titles.len()
            invariant
                ts == titles@.map_values(|v: Vec<char>| v@),
                x >= i,
                x < titles@.len(),
                y >= x + 1,
                x == i ==> y >= j,
                forall|a: int, b: int| 0 <= a < b < ts.len() && pair_at_or_after(a, b, i as int, j as int) && (a < x || (a == x && b < y)) ==> !#[trigger] same_topic(ts, a, b),
            decreases titles.len() - y,
        {
            if has_long_shared_word(&titles[x], &titles[y]) {
                assert(same_topic(ts, x as int, y as int));
                return Some((x, y));
            }
            y = y + 1;
        }
        x = x + 1;
    }
    None
}

/// A node's metadata after recording a classification.
pub fn classified_metadata(metadata: JsonValue, status: &str, classification: &str) -> (r: JsonValue)
    requires
        metadata is Object || metadata is Null,
    ensures
        r is Object,
        get_spec(r, "status"@) matches Some(v) && is_text(v, status@),
        get_spec(r, "classification"@) matches Some(v) && is_text(v, classification@),
        forall|k: Seq<char>| k != "status"@ && k != "classification"@ ==> #[trigger] get_spec(r, k) == get_spec(metadata, k),
{
    proof {
        reveal_strlit("status");
        reveal_strlit("classification");
        assert("status"@[0] != "classification"@[0]);
    }
    let m = metadata.with_field("status", JsonValue::Str(status.to_owned()));
    m.with_field("classification", JsonValue::Str(classification.to_owned()))
}

/// Where an inbox run is.
#[derive(PartialEq, Eq, Structural, Clone, Copy, Debug)]
pub enum InboxStage {
    Start,
    Announcing,
    Fetching(usize),
    Checking(usize),
    Deduping(usize),
    Announced,
    Inserting(usize),
    Linking(usize, usize),
    Recalling,
    Classifying,
    Presenting,
    Updating(usize),
    Ending,
    Done,
}

/// A run of the inbox skill over `n_queries` query connectors.
#[derive(Debug)]
pub struct InboxRun {
    pub n_queries: usize,
    pub stage: InboxStage,
    /// The fetched items of the current connector still to check, last first.
    pub batch: Vec<InboxItem>,
    /// The item being checked.
    pub current: Option<InboxItem>,
    /// The items that are pending and not yet in the Cortex, in order.
    pub new_items: Vec<InboxItem>,
    /// The inbox nodes stored for the new items, in order.
    pub inbox_nodes: Vec<Node>,
    /// The titles of the inbox nodes.
    pub titles: Vec<Vec<char>>,
    pub classifications: Vec<InboxClassification>,
}

/// The titles of the inbox nodes as text.
pub open spec fn title_views(titles: Seq<Vec<char>>) -> Seq<Seq<char>> {
    titles.map_values(|v: Vec<char>| v@)
}

/// The items of a fetch: its items, or none when it failed.
pub open spec fn fetched_or_none(r: Option<Vec<InboxItem>>) -> Seq<InboxItem> {
    match r {
        Some(v) => v@,
        None => Seq::empty(),
    }
}

/// What follows once the current item of connector `q` is dealt with: the
/// next item is checked, else the next connector is fetched, else the new
/// items are announced (or that there are none).
pub open spec fn advanced(n_queries: usize, stack: Seq<InboxItem>, items: Seq<InboxItem>, new: InboxRun, a: Action, q: usize) -> bool {
    &&& new.n_queries == n_queries
    &&& new.new_items@ == items
    &&& if stack.len() > 0 {
        &&& new.stage == InboxStage::Checking(q)
        &&& new.batch@ == stack.drop_last()
        &&& new.current == Some(stack.last())
        &&& (a matches Action::IsPending { query, external_id } && query == q && external_id@ == stack.last().external_id@)
    } else if q + 1 < n_queries {
        new.stage == InboxStage::Fetching((q + 1) as usize) && a == Action::FetchInbox((q + 1) as usize)
    } else if items.len() == 0 {
        new.stage == InboxStage::Ending && (a matches Action::Send(m) && m@ == "✅ Inbox is empty!"@)
    } else {
        new.stage == InboxStage::Announced && (a matches Action::Send(m) && m@ == "Found "@ + decimal(items.len()) + " new items."@)
    }
}

/// What follows once the links up to pair `(i, j)` are dealt with: the next
/// pair of nodes about the same topic is linked, else context is recalled.
pub open spec fn linked_next(run: InboxRun, new_stage: InboxStage, a: Action, i: int, j: int) -> bool {
    let ts = title_views(run.titles@);
    if exists|x: int, y: int| is_next_pair(ts, i, j, x, y) {
        let (x, y) = choose|x: int, y: int| is_next_pair(ts, i, j, x, y);
        new_stage == InboxStage::Linking(x as usize, y as usize) && (a matches Action::LinkSameTopic { from, to }
            && from@ == run.inbox_nodes@[x].id@ && to@ == run.inbox_nodes@[y].id@)
    } else {
        new_stage == InboxStage::Recalling && (a matches Action::Recall(q) && q@ == "inbox processing"@)
    }
}

/// What follows once the classifications before `u` are recorded: the next
/// classification whose item has a node is recorded there, else the count is reported.
pub open spec fn updated_next(run: InboxRun, new_stage: InboxStage, a: Action, u: int) -> bool {
    let cs = run.classifications@;
    let nodes = run.inbox_nodes@;
    if exists|v: int, i: int| u <= v < cs.len() && first_recording(nodes, cs[v].external_id@, i)
        && forall|w: int| u <= w < v ==> forall|t: int| 0 <= t < nodes.len() ==> recorded_id(#[trigger] nodes[t]) != Some(#[trigger] cs[w].external_id@) {
        let (v, i) = choose|v: int, i: int| u <= v < cs.len() && first_recording(nodes, cs[v].external_id@, i)
            && forall|w: int| u <= w < v ==> forall|t: int| 0 <= t < nodes.len() ==> recorded_id(#[trigger] nodes[t]) != Some(#[trigger] cs[w].external_id@);
        new_stage == InboxStage::Updating(v as usize) && (a matches Action::MarkClassified { node, status, classification }
            && node == i && status@ == status_spec(cs[v].classification@) && classification@ == cs[v].classification@)
    } else {
        new_stage == InboxStage::Ending && (a matches Action::Send(m) && m@ == "Processed "@ + decimal(cs.len()) + " inbox items."@)
    }
}

proof fn lemma_next_pair_unique(ts: Seq<Seq<char>>, i: int, j: int, x: int, y: int, x2: int, y2: int)
    requires
        is_next_pair(ts, i, j, x, y),
        is_next_pair(ts, i, j, x2, y2),
    ensures
        x == x2 && y == y2,
{
    if !pair_at_or_after(x, y, x2, y2) {
        assert(!same_topic(ts, x, y));
    } else if !pair_at_or_after(x2, y2, x, y) {
        assert(!same_topic(ts, x2, y2));
    }
}

proof fn lemma_first_recording_unique(nodes: Seq<Node>, id: Seq<char>, i: int, i2: int)
    requires
        first_recording(nodes, id, i),
        first_recording(nodes, id, i2),
    ensures
        i == i2,
{
    if i < i2 {
        assert(recorded_id(nodes[i]) != Some(id));
    } else if i2 < i {
        assert(recorded_id(nodes[i2]) != Some(id));
    }
}

impl InboxRun {
    /// A run over `n_queries` query connectors.
    pub fn new(n_queries: usize) -> (r: InboxRun)
        ensures
            r.n_queries == n_queries,
            r.stage == InboxStage::Start,
            r.batch@.len() == 0 && r.current is None && r.new_items@.len() == 0,
            r.inbox_nodes@.len() == 0 && r.titles@.len() == 0 && r.classifications@.len() == 0,
    {
        InboxRun {
            n_queries,
            stage: InboxStage::Start,
            batch: Vec::new(),
            current: None,
            new_items: Vec::new(),
            inbox_nodes: Vec::new(),
            titles: Vec::new(),
            classifications: Vec::new(),
        }
    }

    /// Moves on once the current item of connector `q` is dealt with.
    fn advance(&mut self, q: usize) -> (a: Action)
        ensures
            advanced(old(self).n_queries, old(self).batch@, old(self).new_items@, *final(self), a, q),
            final(self).new_items == old(self).new_items,
            final(self).inbox_nodes == old(self).inbox_nodes,
            final(self).titles == old(self).titles,
            final(self).classifications == old(self).classifications,
    {
        match self.batch.pop() {
            Some(item) => {
                let external_id = item.external_id.clone();
                self.current = Some(item);
                self.stage = InboxStage::Checking(q);
                Action::IsPending { query: q, external_id }
            },
            None => {
                if q < self.n_queries && q + 1 < self.n_queries {
                    self.stage = InboxStage::Fetching(q + 1);
                    Action::FetchInbox(q + 1)
                } else if self.new_items.len() == 0 {
                    self.stage = InboxStage::Ending;
                    Action::Send("✅ Inbox is empty!".to_owned())
                } else {
                    self.stage = InboxStage::Announced;
                    let mut m = "Found ".to_owned();
                    push_decimal(&mut m, self.new_items.len() as u64);
                    m.append(" new items.");
                    Action::Send(m)
                }
            },
        }
    }

    /// Links the next pair of nodes about the same topic at or after `(i, j)`, or recalls context.
    fn link_from(&mut self, i: usize, j: usize) -> (a: Action)
        requires
            old(self).titles@.len() == old(self).inbox_nodes@.len(),
        ensures
            linked_next(*old(self), final(self).stage, a, i as int, j as int),
            final(self).stage matches InboxStage::Linking(x, y) ==> x < y < final(self).titles@.len(),
            final(self).stage is Linking || final(self).stage is Recalling,
            final(self).new_items == old(self).new_items,
            final(self).inbox_nodes == old(self).inbox_nodes,
            final(self).titles == old(self).titles,
            final(self).classifications == old(self).classifications,
            final(self).n_queries == old(self).n_queries,
    {
        let ghost ts = title_views(self.titles@);
        match next_pair(&self.titles, i, j) {
            Some((x, y)) => {
                proof {
                    assert forall|x2: int, y2: int| is_next_pair(ts, i as int, j as int, x2, y2) implies x2 == x && y2 == y by {
                        lemma_next_pair_unique(ts, i as int, j as int, x as int, y as int, x2, y2);
                    }
                }
                self.stage = InboxStage::Linking(x, y);
                Action::LinkSameTopic { from: self.inbox_nodes[x].id.clone(), to: self.inbox_nodes[y].id.clone() }
            },
            None => {
                self.stage = InboxStage::Recalling;
                Action::Recall("inbox processing".to_owned())
            },
        }
    }

    /// Records the next classification, from the one at `u`, whose item has a node.
    fn update_from(&mut self, u: usize) -> (a: Action)
        ensures
            updated_next(*old(self), final(self).stage, a, u as int),
            final(self).stage matches InboxStage::Updating(v) ==> v < final(self).classifications@.len(),
            final(self).stage is Updating || final(self).stage is Ending,
            final(self).new_items == old(self).new_items,
            final(self).inbox_nodes == old(self).inbox_nodes,
            final(self).titles == old(self).titles,
            final(self).classifications == old(self).classifications,
            final(self).n_queries == old(self).n_queries,
    {
        let ghost cs = self.classifications@;
        let ghost nodes = self.inbox_nodes@;
        let mut v = u;
        while v < self.classifications.len()
            invariant
                cs == self.classifications@,
                nodes == self.inbox_nodes@,
                self.new_items == old(self).new_items,
                self.inbox_nodes == old(self).inbox_nodes,
                self.titles == old(self).titles,
                self.classifications == old(self).classifications,
                self.n_queries == old(self).n_queries,
                v >= u,
                forall|w: int| u <= w < v ==> forall|t: int| 0 <= t < nodes.len() ==> recorded_id(#[trigger] nodes[t]) != Some(#[trigger] cs[w].external_id@),
            decreases self.classifications.len() - v,
        {
            match find_recording(&self.inbox_nodes, self.classifications[v].external_id.as_str()) {
                Some(i) => {
                    proof {
                        assert forall|v2: int, i2: int| u <= v2 < cs.len() && first_recording(nodes, cs[v2].external_id@, i2)
                            && (forall|w: int| u <= w < v2 ==> forall|t: int| 0 <= t < nodes.len() ==> recorded_id(#[trigger] nodes[t]) != Some(#[trigger] cs[w].external_id@))
                            implies v2 == v && i2 == i by {
                            if v2 < v {
                                assert(recorded_id(nodes[i2]) != Some(cs[v2].external_id@));
                            } else if v2 > v {
                                assert(recorded_id(nodes[i as int]) != Some(cs[v as int].external_id@));
                            } else {
                                lemma_first_recording_unique(nodes, cs[v2].external_id@, i as int, i2);
                            }
                        }
                    }
                    self.stage = InboxStage::Updating(v);
                    let c = &self.classifications[v];
                    return Action::MarkClassified {
                        node: i,
                        status: status_for(c.classification.as_str()).to_owned(),
                        classification: c.classification.clone(),
                    };
                },
                None => {},
            }
            v = v + 1;
        }
        self.stage = InboxStage::Ending;
        let mut m = "Processed ".to_owned();
        push_decimal(&mut m, self.classifications.len() as u64);
        m.append(" inbox items.");
        Action::Send(m)
    }

    /// The titles are those of the inbox nodes.
    pub open spec fn wf(&self) -> bool {
        &&& self.titles@.len() == self.inbox_nodes@.len()
        &&& forall|i: int| 0 <= i < self.titles@.len() ==> #[trigger] self.titles@[i]@ == self.inbox_nodes@[i].title@
        &&& (self.stage matches InboxStage::Linking(x, y) ==> x < y < self.titles@.len())
        &&& (self.stage matches InboxStage::Updating(v) ==> v < self.classifications@.len())
    }

    /// The next action after an event. Inbox collection is announced; each
    /// connector's items are fetched (a failing connector gives none) and
    /// checked in order: an item the connector reports done is skipped (when
    /// it cannot tell, the item counts as pending), and an item already in the
    /// Cortex is skipped. With no new item the inbox is reported empty;
    /// otherwise their number is reported, each is stored as an inbox node,
    /// every pair of stored nodes about the same topic is linked, context is
    /// recalled, the model classifies the items with the first five recalled
    /// titles, the classifications are shown, recorded in the items' nodes,
    /// and their number is reported.
    pub fn step(&mut self, event: Event) -> (a: Action)
        requires
            old(self).wf(),
        ensures
            final(self).wf(),
            final(self).n_queries == old(self).n_queries,
            match (old(self).stage, event) {
                (InboxStage::Start, Event::Begin) => final(self).stage == InboxStage::Announcing
                    && final(self).new_items == old(self).new_items
                    && (a matches Action::Send(m) && m@ == "📥 Collecting inbox..."@),
                (InboxStage::Announcing, Event::Sent) => final(self).new_items == old(self).new_items && if old(self).n_queries > 0 {
                    final(self).stage == InboxStage::Fetching(0) && a == Action::FetchInbox(0)
                } else {
                    final(self).stage == InboxStage::Ending && (a matches Action::Send(m) && m@ == "✅ Inbox is empty!"@)
                },
                (InboxStage::Fetching(q), Event::Fetched(r)) => {
                    let f = fetched_or_none(r);
                    &&& advanced(old(self).n_queries, Seq::new(f.len(), |i: int| f[f.len() - 1 - i]), old(self).new_items@, *final(self), a, q)
                },
                (InboxStage::Checking(q), Event::Pending(p)) => match old(self).current {
                    Some(item) => if p == Some(false) {
                        advanced(old(self).n_queries, old(self).batch@, old(self).new_items@, *final(self), a, q)
                    } else {
                        final(self).stage == InboxStage::Deduping(q) && final(self).current == old(self).current
                            && final(self).batch == old(self).batch && final(self).new_items == old(self).new_items
                            && (a matches Action::InboxExists { source, external_id } && source@ == item.source@
                                && external_id@ == item.external_id@)
                    },
                    None => final(self).stage == InboxStage::Done && a is Finish,
                },
                (InboxStage::Deduping(q), Event::Exists(e)) => match old(self).current {
                    Some(item) => advanced(old(self).n_queries, old(self).batch@, if e {
                        old(self).new_items@
                    } else {
                        old(self).new_items@.push(item)
                    }, *final(self), a, q),
                    None => final(self).stage == InboxStage::Done && a is Finish,
                },
                (InboxStage::Announced, Event::Sent) => if old(self).new_items@.len() > 0 {
                    final(self).stage == InboxStage::Inserting(0) && final(self).new_items == old(self).new_items
                        && final(self).inbox_nodes == old(self).inbox_nodes
                        && (a matches Action::InsertNode(nn) && is_inbox_node(nn, old(self).new_items@[0]))
                } else {
                    final(self).stage == InboxStage::Done && a is Finish
                },
                (InboxStage::Inserting(k), Event::Inserted(node)) => {
                    &&& final(self).new_items == old(self).new_items
                    &&& final(self).inbox_nodes@ == old(self).inbox_nodes@.push(node)
                    &&& if k + 1 < old(self).new_items@.len() {
                        final(self).stage == InboxStage::Inserting((k + 1) as usize)
                            && (a matches Action::InsertNode(nn) && is_inbox_node(nn, old(self).new_items@[k + 1]))
                    } else {
                        linked_next(*final(self), final(self).stage, a, 0, 1)
                    }
                },
                (InboxStage::Linking(x, y), Event::Linked) => final(self).new_items == old(self).new_items
                    && final(self).inbox_nodes == old(self).inbox_nodes
                    && linked_next(*old(self), final(self).stage, a, x as int, y + 1),
                (InboxStage::Recalling, Event::Recalled(nodes)) => final(self).stage == InboxStage::Classifying
                    && final(self).new_items == old(self).new_items
                    && final(self).inbox_nodes == old(self).inbox_nodes
                    && (a matches Action::ClassifyInbox { items, context } && items@.len() == old(self).new_items@.len()
                        && (forall|i: int| 0 <= i < items@.len() ==> is_entry(#[trigger] items@[i], old(self).new_items@[i]))
                        && context@ == summary_spec(nodes@, 5, LineKind::TitleOnly)),
                (InboxStage::Classifying, Event::Classified(cs)) => final(self).stage == InboxStage::Presenting
                    && final(self).new_items == old(self).new_items
                    && final(self).inbox_nodes == old(self).inbox_nodes
                    && final(self).classifications == cs
                    && (a matches Action::Send(m) && m@ == classifications_text(old(self).new_items@, cs@)),
                (InboxStage::Presenting, Event::Sent) => final(self).inbox_nodes == old(self).inbox_nodes
                    && final(self).classifications == old(self).classifications
                    && updated_next(*old(self), final(self).stage, a, 0),
                (InboxStage::Updating(v), Event::Updated) => final(self).inbox_nodes == old(self).inbox_nodes
                    && final(self).classifications == old(self).classifications
                    && updated_next(*old(self), final(self).stage, a, v + 1),
                _ => final(self).stage == InboxStage::Done && a is Finish,
            },
    {
        match (self.stage, event) {
            (InboxStage::Start, Event::Begin) => {
                self.stage = InboxStage::Announcing;
                Action::Send("📥 Collecting inbox...".to_owned())
            },
            (InboxStage::Announcing, Event::Sent) => {
                if self.n_queries > 0 {
                    self.stage = InboxStage::Fetching(0);
                    Action::FetchInbox(0)
                } else {
                    self.stage = InboxStage::Ending;
                    Action::Send("✅ Inbox is empty!".to_owned())
                }
            },
            (InboxStage::Fetching(q), Event::Fetched(r)) => {
                let items = match r {
                    Some(v) => v,
                    None => Vec::new(),
                };
                let ghost f = items@;
                self.batch = crate::seqs::reversed(items);
                assert(self.batch@ =~= Seq::new(f.len(), |i: int| f[f.len() - 1 - i]));
                self.advance(q)
            },
            (InboxStage::Checking(q), Event::Pending(p)) => {
                match &self.current {
                    Some(item) => {
                        let pending = match p {
                            Some(b) => b,
                            None => true,
                        };
                        if !pending {
                            self.current = None;
                            self.advance(q)
                        } else {
                            let source = item.source.clone();
                            let external_id = item.external_id.clone();
                            self.stage = InboxStage::Deduping(q);
                            Action::InboxExists { source, external_id }
                        }
                    },
                    None => {
                        self.stage = InboxStage::Done;
                        Action::Finish
                    },
                }
            },
            (InboxStage::Deduping(q), Event::Exists(e)) => {
                let current = self.current.take();
                match current {
                    Some(item) => {
                        if !e {
                            self.new_items.push(item);
                        }
                        self.advance(q)
                    },
                    None => {
                        self.stage = InboxStage::Done;
                        Action::Finish
                    },
                }
            },
            (InboxStage::Announced, Event::Sent) => {
                if self.new_items.len() > 0 {
                    self.stage = InboxStage::Inserting(0);
                    Action::InsertNode(inbox_node(&self.new_items[0]))
                } else {
                    self.stage = InboxStage::Done;
                    Action::Finish
                }
            },
            (InboxStage::Inserting(k), Event::Inserted(node)) => {
                let title = chars_of(node.title.as_str());
                self.titles.push(title);
                self.inbox_nodes.push(node);
                if k < self.new_items.len() && k + 1 < self.new_items.len() {
                    self.stage = InboxStage::Inserting(k + 1);
                    Action::InsertNode(inbox_node(&self.new_items[k + 1]))
                } else {
                    self.link_from(0, 1)
                }
            },
            (InboxStage::Linking(x, y), Event::Linked) => {
                if y < self.titles.len() {
                    self.link_from(x, y + 1)
                } else {
                    self.stage = InboxStage::Done;
                    Action::Finish
                }
            },
            (InboxStage::Recalling, Event::Recalled(nodes)) => {
                self.stage = InboxStage::Classifying;
                Action::ClassifyInbox { items: classify_entries(&self.new_items), context: summary(&nodes, 5, LineKind::TitleOnly) }
            },
            (InboxStage::Classifying, Event::Classified(cs)) => {
                self.stage = InboxStage::Presenting;
                let out = present_classifications(&self.new_items, &cs);
                self.classifications = cs;
                Action::Send(out)
            },
            (InboxStage::Presenting, Event::Sent) => self.update_from(0),
            (InboxStage::Updating(v), Event::Updated) => {
                if v < self.classifications.len() {
                    self.update_from(v + 1)
                } else {
                    self.stage = InboxStage::Done;
                    Action::Finish
                }
            },
            _ => {
                self.stage = InboxStage::Done;
                Action::Finish
            },
        }
    }
}

} // verus!
