//! What a running skill asks for and what it is told back.
use vstd::prelude::*;
use crate::brain::client::{BriefingSynthesis, InboxClassification, ReviewSynthesis, TaskBreakdown};
use crate::connectors::traits::InboxItem;
use crate::time::UtcTime;
use crate::types::{NewNode, Node, NodeType, NodeUpdate};

verus! {

/// An inbox item as it is handed to the classifier.
#[derive(Clone, Debug)]
pub struct ClassifyEntry {
    pub external_id: String,
    pub source: String,
    pub title: String,
    /// The first 300 characters of the item's content.
    pub content: String,
}

/// The next thing a running skill needs done.
#[derive(Debug)]
pub enum Action {
    /// Show the user a message.
    Send(String),
    /// Fetch the items of the query connector with this index.
    FetchInbox(usize),
    /// Ask the query connector with this index whether an item is still pending.
    IsPending { query: usize, external_id: String },
    /// Ask the Cortex whether an inbox node exists for this source and external id.
    InboxExists { source: String, external_id: String },
    /// Recall context for a query.
    Recall(String),
    /// Ask the model to break a task down.
    BreakdownTask { task: String, context: String },
    /// Ask the model for a briefing.
    SynthesizeBriefing { inbox: String, context: String },
    /// Ask the model for a review.
    SynthesizeReview { activities: String, context: String },
    /// Ask the model to classify inbox items.
    ClassifyInbox { items: Vec<ClassifyEntry>, context: String },
    /// Find the nodes whose title contains this text.
    FindByTitle(String),
    /// Find the nodes of a type.
    FindByType(NodeType),
    /// Insert a node.
    InsertNode(NewNode),
    /// Update the node with this id.
    UpdateNode { id: String, update: NodeUpdate },
    /// Record a classification in the metadata of the run's inbox node with
    /// this index: the node's metadata with the fields `status` and
    /// `classification` set (see `classified_metadata`).
    MarkClassified { node: usize, status: String, classification: String },
    /// Link two inbox nodes as being about the same topic (relation
    /// `same_topic`, context `cross-source dedup`); a failure is ignored.
    LinkSameTopic { from: String, to: String },
    /// Read the current time.
    ReadClock,
    /// The skill is done.
    Finish,
}

/// What happened after an action.
#[derive(Debug)]
pub enum Event {
    /// The skill starts.
    Begin,
    /// A message was shown.
    Sent,
    /// A connector's items; `None` when fetching failed.
    Fetched(Option<Vec<InboxItem>>),
    /// Whether an item is pending; `None` when the connector could not tell.
    Pending(Option<bool>),
    /// Whether an inbox node already exists.
    Exists(bool),
    /// The recalled context, best first.
    Recalled(Vec<Node>),
    /// The model's breakdown of a task.
    BrokenDown(TaskBreakdown),
    /// The model's briefing.
    Briefed(BriefingSynthesis),
    /// The model's review.
    Reviewed(ReviewSynthesis),
    /// The model's classifications.
    Classified(Vec<InboxClassification>),
    /// The nodes found.
    Found(Vec<Node>),
    /// The node inserted.
    Inserted(Node),
    /// A node was updated.
    Updated,
    /// A link was attempted.
    Linked,
    /// The current time.
    Clock(UtcTime),
}

} // verus!
