//! Linear: the issues assigned to the user, issue state changes and comments.
use vstd::prelude::*;
use crate::connectors::registry::{actions_of, immediate_reply, lemma_not_unsupported, lemma_supports, ConnectorKind};
use crate::text::has_prefix;
use crate::connectors::http::{pair, pairs2, Body, HttpRequest, Method};
use crate::connectors::traits::{
    is_unsupported, unsupported, ConnectorMeta, InboxItem, MutationPlan, MutationRequest,
    MutationResult,
};
use crate::json::{
    as_bool_spec, entry, fields_of, get_spec, index_spec, str_eq, str_or_empty, text_entry, text_field,
    value_field, JsonValue,
};
use crate::time::{parse_time_or, time_or, UtcTime};
use crate::types::opt_view;

verus! {

/// A connector to Linear through an API key.
#[derive(Clone, Debug)]
pub struct LinearConnector {
    pub api_key: String,
}

/// The state of an issue.
#[derive(Clone, Debug)]
pub struct GqlState {
    pub name: String,
    pub state_type: String,
}

impl GqlState {
    /// The state's type (such as "started").
    pub fn type_field(&self) -> (r: &str)
        ensures
            r@ == self.state_type@,
    {
        self.state_type.as_str()
    }
}

/// An issue as Linear reports it. The priority is a number; it is held as the
/// text `Display` prints for it and as its JSON text.
#[derive(Clone, Debug)]
pub struct GqlIssue {
    pub id: String,
    pub identifier: String,
    pub title: String,
    pub description: Option<String>,
    pub priority_display: String,
    pub priority_json: String,
    pub state: GqlState,
    pub due_date: Option<String>,
    pub updated_at: String,
}

/// The reply to a Linear mutation that was sent: which mutation it answers.
#[derive(Clone, Debug)]
pub enum LinearReply {
    IssueStateUpdated,
    CommentCreated,
}

/// The GraphQL query for the open issues assigned to the user.
pub const ASSIGNED_ISSUES_QUERY: &'static str = "
            query {
                issues(
                    filter: {
                        assignee: { isMe: { eq: true } }
                        state: { type: { nin: [\"completed\", \"canceled\"] } }
                    }
                    orderBy: updatedAt
                    first: 50
                ) {
                    nodes {
                        id
                        identifier
                        title
                        description
                        priority
                        state { name type }
                        dueDate
                        updatedAt
                    }
                }
            }
        ";

/// The text of an issue's item.
pub open spec fn issue_content(issue: GqlIssue) -> Seq<char> {
    "["@ + issue.state.name@ + "] "@ + issue.identifier@ + " — "@ + match issue.description {
        Some(d) => d@,
        None => "(no description)"@,
    } + "\nPriority: "@ + issue.priority_display@ + match issue.due_date {
        Some(d) => "\nDue: "@ + d@,
        None => Seq::empty(),
    }
}

/// The captured item for an issue.
pub open spec fn is_issue_item(item: InboxItem, issue: GqlIssue, now: UtcTime) -> bool {
    &&& item.source@ == "linear"@
    &&& item.external_id@ == issue.identifier@
    &&& item.title@ == issue.title@
    &&& item.content@ == issue_content(issue)
    &&& fields_of(item.metadata).len() == 4
    &&& text_field(fields_of(item.metadata)[0], "state"@, issue.state.name@)
    &&& text_field(fields_of(item.metadata)[1], "state_type"@, issue.state.state_type@)
    &&& fields_of(item.metadata)[2].0@ == "priority"@
    &&& (fields_of(item.metadata)[2].1 matches JsonValue::Number(n) && n@ == issue.priority_json@)
    &&& text_field(fields_of(item.metadata)[3], "linear_id"@, issue.id@)
    &&& item.timestamp == time_or(issue.updated_at@, now)
}

/// The GraphQL mutation that moves an issue to a state.
pub open spec fn update_state_query(issue_id: Seq<char>, state_id: Seq<char>) -> Seq<char> {
    "mutation { issueUpdate(id: \""@ + issue_id + "\", input: { stateId: \""@ + state_id
        + "\" }) { success } }"@
}

/// The GraphQL mutation that comments on an issue.
pub open spec fn comment_query(issue_id: Seq<char>, body: Seq<char>) -> Seq<char> {
    "mutation { commentCreate(input: { issueId: \""@ + issue_id + "\", body: \""@ + body
        + "\" }) { success } }"@
}

/// The request posts the GraphQL `query` with the API key.
pub open spec fn is_graphql_request(h: HttpRequest, api_key: Seq<char>, query: Seq<char>) -> bool {
    &&& h.method == Method::Post
    &&& h.url@ == "https://api.linear.app/graphql"@
    &&& pairs2(h.headers@, "Authorization"@, api_key, "Content-Type"@, "application/json"@)
    &&& h.query@.len() == 0
    &&& (h.body matches Body::Json(b) && b is Object && fields_of(b).len() == 1 && text_field(
        fields_of(b)[0],
        "query"@,
        query,
    ))
}

/// The success flag at `data.<field>.success` of a GraphQL reply, false when absent.
pub open spec fn mutation_success(body: JsonValue, field: Seq<char>) -> bool {
    match as_bool_spec(index_spec(index_spec(index_spec(body, "data"@), field), "success"@)) {
        Some(b) => b,
        None => false,
    }
}

/// A mutation succeeded exactly when the reply holds `true` at
/// `data.<field>.success`; a missing or non-boolean flag, or `false`, is failure.
pub proof fn success_is_the_reply_flag(body: JsonValue, field: Seq<char>)
    ensures
        mutation_success(body, field) <==> (get_spec(body, "data"@) matches Some(d) && (get_spec(d, field) matches Some(x)
            && get_spec(x, "success"@) == Some(JsonValue::Bool(true)))),
        (get_spec(body, "data"@) matches Some(d) && (get_spec(d, field) matches Some(x)
            && get_spec(x, "success"@) == Some(JsonValue::Bool(false)))) ==> !mutation_success(body, field),
{
}

impl LinearConnector {
    /// A connector with the given API key.
    pub fn new(api_key: String) -> (r: LinearConnector)
        ensures
            r.api_key == api_key,
    {
        LinearConnector { api_key }
    }

    /// The request that posts a GraphQL query.
    pub fn graphql_request(&self, query: &str) -> (r: HttpRequest)
        ensures
            is_graphql_request(r, self.api_key@, query@),
    {
        let mut headers = Vec::new();
        headers.push(pair("Authorization", self.api_key.as_str()));
        headers.push(pair("Content-Type", "application/json"));
        let mut fields = Vec::new();
        fields.push(text_entry("query", query));
        HttpRequest {
            method: Method::Post,
            url: "https://api.linear.app/graphql".to_owned(),
            headers,
            query: Vec::new(),
            body: Body::Json(JsonValue::Object(fields)),
        }
    }

    /// The request for the open issues assigned to the user.
    pub fn assigned_issues_request(&self) -> (r: HttpRequest)
        ensures
            is_graphql_request(r, self.api_key@, ASSIGNED_ISSUES_QUERY@),
    {
        self.graphql_request(ASSIGNED_ISSUES_QUERY)
    }

    /// The captured item for an issue.
    pub fn issue_item(issue: GqlIssue, now: UtcTime) -> (r: InboxItem)
        ensures
            is_issue_item(r, issue, now),
    {
        let mut content = "[".to_owned();
        content.append(issue.state.name.as_str());
        content.append("] ");
        content.append(issue.identifier.as_str());
        content.append(" — ");
        match &issue.description {
            Some(d) => content.append(d.as_str()),
            None => content.append("(no description)"),
        }
        content.append("\nPriority: ");
        content.append(issue.priority_display.as_str());
        let ghost before_due = content@;
        match &issue.due_date {
            Some(d) => {
                content.append("\nDue: ");
                content.append(d.as_str());
                assert(content@ =~= before_due + ("\nDue: "@ + d@));
            },
            None => {
                assert(content@ =~= before_due + Seq::<char>::empty());
            },
        }
        let timestamp = parse_time_or(issue.updated_at.as_str(), now);
        let mut fields = Vec::new();
        fields.push(text_entry("state", issue.state.name.as_str()));
        fields.push(text_entry("state_type", issue.state.type_field()));
        fields.push(entry("priority", JsonValue::Number(issue.priority_json.clone())));
        fields.push(text_entry("linear_id", issue.id.as_str()));
        InboxItem {
            source: "linear".to_owned(),
            external_id: issue.identifier,
            title: issue.title,
            content,
            metadata: JsonValue::Object(fields),
            timestamp,
        }
    }

    /// The captured items for the issues, in order.
    pub fn issue_items(issues: Vec<GqlIssue>, now: UtcTime) -> (r: Vec<InboxItem>)
        ensures
            r@.len() == issues@.len(),
            forall|i: int| 0 <= i < r@.len() ==> is_issue_item(#[trigger] r@[i], issues@[i], now),
    {
        let ghost all = issues@;
        let mut issues = crate::seqs::reversed(issues);
        let mut r = Vec::new();
        while issues.len() > 0
            invariant
                r@.len() + issues@.len() == all.len(),
                forall|i: int| 0 <= i < issues@.len() ==> issues@[i] == all[all.len() - 1 - i],
                forall|i: int| 0 <= i < r@.len() ==> is_issue_item(#[trigger] r@[i], all[i], now),
            decreases issues.len(),
        {
            let issue = issues.pop().unwrap();
            r.push(Self::issue_item(issue, now));
        }
        r
    }

    /// Whether an item is still pending: the query only returns open issues, so always.
    pub fn is_pending(&self, external_id: &str) -> (r: bool)
        ensures
            r,
    {
        true
    }

    /// The actions this connector supports.
    pub fn supported_actions(&self) -> (r: Vec<&'static str>)
        ensures
            r@.len() == 2,
            r@[0]@ == "update_issue_state"@,
            r@[1]@ == "create_comment"@,
            r@.len() == actions_of(ConnectorKind::Linear).len(),
            forall|i: int| 0 <= i < r@.len() ==> #[trigger] r@[i]@ == actions_of(ConnectorKind::Linear)[i],
    {
        let mut r = Vec::new();
        r.push("update_issue_state");
        r.push("create_comment");
        r
    }

    /// What a mutation does: `update_issue_state` and `create_comment` send a
    /// GraphQL mutation built from the payload; anything else is unsupported.
    pub fn plan(&self, request: &MutationRequest) -> (r: MutationPlan<LinearReply>)
        ensures
            (r matches MutationPlan::Reply(m) && is_unsupported(m, request.action@))
                <==> !actions_of(ConnectorKind::Linear).contains(request.action@),
            match immediate_reply(ConnectorKind::Linear, request.action@) {
                Some(msg) => r matches MutationPlan::Reply(m) && !m.success && m.message@ == msg && m.data is None,
                None => r is Send,
            },
            request.action@ == "update_issue_state"@ ==> (r matches MutationPlan::Send(h, LinearReply::IssueStateUpdated)
                && is_graphql_request(h, self.api_key@, update_state_query(
                    str_or_empty(request.payload, "issue_id"@), str_or_empty(request.payload, "state_id"@)))),
            request.action@ == "create_comment"@ ==> (r matches MutationPlan::Send(h, LinearReply::CommentCreated)
                && is_graphql_request(h, self.api_key@, comment_query(
                    str_or_empty(request.payload, "issue_id"@), str_or_empty(request.payload, "body"@)))),
            request.action@ != "update_issue_state"@ && request.action@ != "create_comment"@ ==> (
                r matches MutationPlan::Reply(m) && is_unsupported(m, request.action@)),
    {
        proof {
            lemma_supports(ConnectorKind::Linear, request.action@);
        }
        proof {
            reveal_strlit("update_issue_state");
            reveal_strlit("create_comment");
            assert("update_issue_state"@[0] != "create_comment"@[0]);
        }
        if str_eq(request.action.as_str(), "update_issue_state") {
            let issue_id = request.payload.str_field_or_empty("issue_id");
            let state_id = request.payload.str_field_or_empty("state_id");
            let mut q = "mutation { issueUpdate(id: \"".to_owned();
            q.append(issue_id.as_str());
            q.append("\", input: { stateId: \"");
            q.append(state_id.as_str());
            q.append("\" }) { success } }");
            MutationPlan::Send(self.graphql_request(q.as_str()), LinearReply::IssueStateUpdated)
        } else if str_eq(request.action.as_str(), "create_comment") {
            let issue_id = request.payload.str_field_or_empty("issue_id");
            let body = request.payload.str_field_or_empty("body");
            let mut q = "mutation { commentCreate(input: { issueId: \"".to_owned();
            q.append(issue_id.as_str());
            q.append("\", body: \"");
            q.append(body.as_str());
            q.append("\" }) { success } }");
            MutationPlan::Send(self.graphql_request(q.as_str()), LinearReply::CommentCreated)
        } else {
            MutationPlan::Reply(unsupported(request.action.as_str()))
        }
    }

    /// The result of a sent mutation, from the GraphQL reply body.
    pub fn interpret(reply: LinearReply, body: JsonValue) -> (r: MutationResult)
        ensures
            reply is IssueStateUpdated ==> r.success == mutation_success(body, "issueUpdate"@)
                && r.message@ == if r.success {
                "issue state updated"@
            } else {
                "failed to update issue state"@
            },
            reply is CommentCreated ==> r.success == mutation_success(body, "commentCreate"@)
                && r.message@ == if r.success {
                "comment created"@
            } else {
                "failed to create comment"@
            },
            r.data == Some(body),
            !has_prefix(r.message@, "unsupported action"@),
    {
        proof {
            reveal_strlit("unsupported action");
            reveal_strlit("issue state updated");
            reveal_strlit("failed to update issue state");
            reveal_strlit("comment created");
            reveal_strlit("failed to create comment");
            lemma_not_unsupported("issue state updated"@, 0);
            lemma_not_unsupported("failed to update issue state"@, 0);
            lemma_not_unsupported("comment created"@, 0);
            lemma_not_unsupported("failed to create comment"@, 0);
        }
        let (field, ok_message, failed_message) = match reply {
            LinearReply::IssueStateUpdated => ("issueUpdate", "issue state updated", "failed to update issue state"),
            LinearReply::CommentCreated => ("commentCreate", "comment created", "failed to create comment"),
        };
        let success = match body.get("data") {
            Some(d) => match d.get(field) {
                Some(f) => match f.bool_field("success") {
                    Some(b) => b,
                    None => false,
                },
                None => false,
            },
            None => false,
        };
        let message = if success {
            ok_message.to_owned()
        } else {
            failed_message.to_owned()
        };
        MutationResult { success, message, data: Some(body) }
    }
}

impl ConnectorMeta for LinearConnector {
    fn source_name(&self) -> (r: &str)
        ensures
            r@ == "linear"@,
    {
        "linear"
    }
}

} // verus!
