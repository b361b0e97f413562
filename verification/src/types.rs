//! The nodes of the Cortex graph and their classification.
use vstd::prelude::*;
use crate::json::{str_eq, JsonValue};
use crate::time::UtcTime;

verus! {

/// The kind of information a node holds.
#[derive(PartialEq, Eq, Structural, Clone, Debug)]
pub enum NodeType {
    Person,
    Space,
    Episode,
    Decision,
    Daily,
    Procedure,
    Domain,
    Learning,
    Inbox,
    Preference,
    Pattern,
}

/// The stored (snake case) name of a node type.
pub open spec fn node_type_name(t: NodeType) -> Seq<char> {
    match t {
        NodeType::Person => "person"@,
        NodeType::Space => "space"@,
        NodeType::Episode => "episode"@,
        NodeType::Decision => "decision"@,
        NodeType::Daily => "daily"@,
        NodeType::Procedure => "procedure"@,
        NodeType::Domain => "domain"@,
        NodeType::Learning => "learning"@,
        NodeType::Inbox => "inbox"@,
        NodeType::Preference => "preference"@,
        NodeType::Pattern => "pattern"@,
    }
}

impl NodeType {
    /// The stored name of this node type.
    pub fn as_str(&self) -> (r: &'static str)
        ensures
            r@ == node_type_name(*self),
    {
        match self {
            NodeType::Person => "person",
            NodeType::Space => "space",
            NodeType::Episode => "episode",
            NodeType::Decision => "decision",
            NodeType::Daily => "daily",
            NodeType::Procedure => "procedure",
            NodeType::Domain => "domain",
            NodeType::Learning => "learning",
            NodeType::Inbox => "inbox",
            NodeType::Preference => "preference",
            NodeType::Pattern => "pattern",
        }
    }
}

/// The part of the Cortex a node belongs to.
#[derive(PartialEq, Eq, Structural, Clone, Debug)]
pub enum Category {
    Memory,
    Knowledge,
    Ssot,
    Gtd,
}

/// The stored (snake case) name of a category.
pub open spec fn category_name(c: Category) -> Seq<char> {
    match c {
        Category::Memory => "memory"@,
        Category::Knowledge => "knowledge"@,
        Category::Ssot => "ssot"@,
        Category::Gtd => "gtd"@,
    }
}

impl Category {
    /// The stored name of this category.
    pub fn as_str(&self) -> (r: &'static str)
        ensures
            r@ == category_name(*self),
    {
        match self {
            Category::Memory => "memory",
            Category::Knowledge => "knowledge",
            Category::Ssot => "ssot",
            Category::Gtd => "gtd",
        }
    }
}

/// Distinct node types have distinct stored names, so a stored name
/// identifies its node type.
pub proof fn node_type_names_distinct(a: NodeType, b: NodeType)
    requires
        a != b,
    ensures
        node_type_name(a) != node_type_name(b),
{
    reveal_strlit("person");
    reveal_strlit("space");
    reveal_strlit("episode");
    reveal_strlit("decision");
    reveal_strlit("daily");
    reveal_strlit("procedure");
    reveal_strlit("domain");
    reveal_strlit("learning");
    reveal_strlit("inbox");
    reveal_strlit("preference");
    reveal_strlit("pattern");
    let x = node_type_name(a);
    let y = node_type_name(b);
    assert(x.len() != y.len() || x[0] != y[0] || x[1] != y[1] || x[2] != y[2]);
}

/// Distinct categories have distinct stored names.
pub proof fn category_names_distinct(a: Category, b: Category)
    requires
        a != b,
    ensures
        category_name(a) != category_name(b),
{
    reveal_strlit("memory");
    reveal_strlit("knowledge");
    reveal_strlit("ssot");
    reveal_strlit("gtd");
    let x = category_name(a);
    let y = category_name(b);
    assert(x.len() != y.len() || x[0] != y[0]);
}

/// The node type stored under a name: what reading the stored (snake case) name gives.
pub open spec fn node_type_named(s: Seq<char>) -> Option<NodeType> {
    if s == "person"@ {
        Some(NodeType::Person)
    } else if s == "space"@ {
        Some(NodeType::Space)
    } else if s == "episode"@ {
        Some(NodeType::Episode)
    } else if s == "decision"@ {
        Some(NodeType::Decision)
    } else if s == "daily"@ {
        Some(NodeType::Daily)
    } else if s == "procedure"@ {
        Some(NodeType::Procedure)
    } else if s == "domain"@ {
        Some(NodeType::Domain)
    } else if s == "learning"@ {
        Some(NodeType::Learning)
    } else if s == "inbox"@ {
        Some(NodeType::Inbox)
    } else if s == "preference"@ {
        Some(NodeType::Preference)
    } else if s == "pattern"@ {
        Some(NodeType::Pattern)
    } else {
        None
    }
}

impl NodeType {
    /// The node type stored under a name, if any.
    pub fn from_name(s: &str) -> (r: Option<NodeType>)
        ensures
            r == node_type_named(s@),
    {
        if str_eq(s, "person") {
            Some(NodeType::Person)
        } else if str_eq(s, "space") {
            Some(NodeType::Space)
        } else if str_eq(s, "episode") {
            Some(NodeType::Episode)
        } else if str_eq(s, "decision") {
            Some(NodeType::Decision)
        } else if str_eq(s, "daily") {
            Some(NodeType::Daily)
        } else if str_eq(s, "procedure") {
            Some(NodeType::Procedure)
        } else if str_eq(s, "domain") {
            Some(NodeType::Domain)
        } else if str_eq(s, "learning") {
            Some(NodeType::Learning)
        } else if str_eq(s, "inbox") {
            Some(NodeType::Inbox)
        } else if str_eq(s, "preference") {
            Some(NodeType::Preference)
        } else if str_eq(s, "pattern") {
            Some(NodeType::Pattern)
        } else {
            None
        }
    }
}

/// Reading the stored name of a node type gives it back, and only its own name
/// reads as it: the names and the values correspond one to one.
pub proof fn node_type_name_round_trip(t: NodeType, s: Seq<char>)
    ensures
        node_type_named(node_type_name(t)) == Some(t),
        node_type_named(s) == Some(t) ==> s == node_type_name(t),
{
    reveal_strlit("person");
    reveal_strlit("space");
    reveal_strlit("episode");
    reveal_strlit("decision");
    reveal_strlit("daily");
    reveal_strlit("procedure");
    reveal_strlit("domain");
    reveal_strlit("learning");
    reveal_strlit("inbox");
    reveal_strlit("preference");
    reveal_strlit("pattern");
    if t != NodeType::Person {
        node_type_names_distinct(t, NodeType::Person);
    }
    if t != NodeType::Space {
        node_type_names_distinct(t, NodeType::Space);
    }
    if t != NodeType::Episode {
        node_type_names_distinct(t, NodeType::Episode);
    }
    if t != NodeType::Decision {
        node_type_names_distinct(t, NodeType::Decision);
    }
    if t != NodeType::Daily {
        node_type_names_distinct(t, NodeType::Daily);
    }
    if t != NodeType::Procedure {
        node_type_names_distinct(t, NodeType::Procedure);
    }
    if t != NodeType::Domain {
        node_type_names_distinct(t, NodeType::Domain);
    }
    if t != NodeType::Learning {
        node_type_names_distinct(t, NodeType::Learning);
    }
    if t != NodeType::Inbox {
        node_type_names_distinct(t, NodeType::Inbox);
    }
    if t != NodeType::Preference {
        node_type_names_distinct(t, NodeType::Preference);
    }
    if t != NodeType::Pattern {
        node_type_names_distinct(t, NodeType::Pattern);
    }
    match t {
        NodeType::Person => assert(node_type_name(t) =~= "person"@),
        NodeType::Space => assert(node_type_name(t) =~= "space"@),
        NodeType::Episode => assert(node_type_name(t) =~= "episode"@),
        NodeType::Decision => assert(node_type_name(t) =~= "decision"@),
        NodeType::Daily => assert(node_type_name(t) =~= "daily"@),
        NodeType::Procedure => assert(node_type_name(t) =~= "procedure"@),
        NodeType::Domain => assert(node_type_name(t) =~= "domain"@),
        NodeType::Learning => assert(node_type_name(t) =~= "learning"@),
        NodeType::Inbox => assert(node_type_name(t) =~= "inbox"@),
        NodeType::Preference => assert(node_type_name(t) =~= "preference"@),
        NodeType::Pattern => assert(node_type_name(t) =~= "pattern"@),
    }
}

/// The category stored under a name: what reading the stored (snake case) name gives.
pub open spec fn category_named(s: Seq<char>) -> Option<Category> {
    if s == "memory"@ {
        Some(Category::Memory)
    } else if s == "knowledge"@ {
        Some(Category::Knowledge)
    } else if s == "ssot"@ {
        Some(Category::Ssot)
    } else if s == "gtd"@ {
        Some(Category::Gtd)
    } else {
        None
    }
}

impl Category {
    /// The category stored under a name, if any.
    pub fn from_name(s: &str) -> (r: Option<Category>)
        ensures
            r == category_named(s@),
    {
        if str_eq(s, "memory") {
            Some(Category::Memory)
        } else if str_eq(s, "knowledge") {
            Some(Category::Knowledge)
        } else if str_eq(s, "ssot") {
            Some(Category::Ssot)
        } else if str_eq(s, "gtd") {
            Some(Category::Gtd)
        } else {
            None
        }
    }
}

/// Reading the stored name of a category gives it back, and only its own name
/// reads as it: the names and the values correspond one to one.
pub proof fn category_name_round_trip(t: Category, s: Seq<char>)
    ensures
        category_named(category_name(t)) == Some(t),
        category_named(s) == Some(t) ==> s == category_name(t),
{
    reveal_strlit("memory");
    reveal_strlit("knowledge");
    reveal_strlit("ssot");
    reveal_strlit("gtd");
    if t != Category::Memory {
        category_names_distinct(t, Category::Memory);
    }
    if t != Category::Knowledge {
        category_names_distinct(t, Category::Knowledge);
    }
    if t != Category::Ssot {
        category_names_distinct(t, Category::Ssot);
    }
    if t != Category::Gtd {
        category_names_distinct(t, Category::Gtd);
    }
    match t {
        Category::Memory => assert(category_name(t) =~= "memory"@),
        Category::Knowledge => assert(category_name(t) =~= "knowledge"@),
        Category::Ssot => assert(category_name(t) =~= "ssot"@),
        Category::Gtd => assert(category_name(t) =~= "gtd"@),
    }
}

/// A node of the Cortex as stored.
#[derive(Debug)]
pub struct Node {
    pub id: String,
    pub user_id: Option<u128>,
    pub node_type: String,
    pub category: String,
    pub title: String,
    pub content: Option<String>,
    pub metadata: JsonValue,
    pub access_count: i32,
    pub created_at: UtcTime,
    pub updated_at: UtcTime,
}

/// A node to be inserted.
#[derive(Debug)]
pub struct NewNode {
    pub node_type: NodeType,
    pub category: Category,
    pub title: String,
    pub content: Option<String>,
    pub metadata: JsonValue,
}

/// The fields of a node to change; `None` keeps the stored value.
#[derive(Debug)]
pub struct NodeUpdate {
    pub title: Option<String>,
    pub content: Option<String>,
    pub metadata: Option<JsonValue>,
}

impl Default for NodeUpdate {
    fn default() -> (r: NodeUpdate)
        ensures
            r.title is None && r.content is None && r.metadata is None,
    {
        NodeUpdate { title: None, content: None, metadata: None }
    }
}

/// The view of an optional string.
pub open spec fn opt_view(o: Option<String>) -> Option<Seq<char>> {
    match o {
        Some(s) => Some(s@),
        None => None,
    }
}

/// The text of an optional string, empty when absent (`as_deref().unwrap_or("")`).
pub open spec fn opt_text(o: Option<String>) -> Seq<char> {
    match o {
        Some(s) => s@,
        None => Seq::empty(),
    }
}

} // verus!
