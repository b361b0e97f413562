//! Todoist: today's and overdue tasks, completing and creating tasks.
use vstd::prelude::*;
use crate::connectors::registry::{actions_of, immediate_reply, lemma_not_unsupported, lemma_supports, ConnectorKind};
use crate::text::has_prefix;
use crate::connectors::http::{bearer, bearer_request, pair, pairs1, Body, HttpRequest, Method};
use crate::connectors::traits::{
    is_unsupported, status_message, status_result, unsupported, ConnectorMeta, InboxItem,
    MutationPlan, MutationRequest, MutationResult,
};
use crate::error::Error;
use crate::json::{
    entry, fields_of, get_spec, str_eq, str_or_empty, take_field, text_entry, text_field,
    value_field, JsonValue,
};
use crate::text::{decimal, push_decimal};
use crate::time::{parse_time_or, time_or, UtcTime};

verus! {

/// A connector to Todoist through an API key.
#[derive(Clone, Debug)]
pub struct TodoistConnector {
    pub api_key: String,
}

/// When a task is due.
#[derive(Clone, Debug)]
pub struct TodoistDue {
    pub date: String,
    pub string: String,
}

/// A task as Todoist reports it.
#[derive(Clone, Debug)]
pub struct TodoistTask {
    pub id: String,
    pub content: String,
    pub description: String,
    pub is_completed: bool,
    pub priority: u8,
    pub due: Option<TodoistDue>,
    pub created_at: String,
}

/// The reply to a Todoist mutation that was sent.
#[derive(Clone, Debug)]
pub enum TodoistReply {
    TaskCompleted,
    TaskCreated,
}

/// The tasks that are not completed, in order.
pub open spec fn open_tasks(tasks: Seq<TodoistTask>) -> Seq<TodoistTask>
    decreases tasks.len(),
{
    if tasks.len() == 0 {
        Seq::empty()
    } else if tasks.last().is_completed {
        open_tasks(tasks.drop_last())
    } else {
        open_tasks(tasks.drop_last()).push(tasks.last())
    }
}

/// The due line of a task's text.
pub open spec fn due_info(due: Option<TodoistDue>) -> Seq<char> {
    match due {
        Some(d) => "Due: "@ + d.date@ + " ("@ + d.string@ + ")"@,
        None => "No due date"@,
    }
}

/// The captured item for a task.
pub open spec fn is_task_item(item: InboxItem, task: TodoistTask, now: UtcTime) -> bool {
    &&& item.source@ == "todoist"@
    &&& item.external_id@ == task.id@
    &&& item.title@ == task.content@
    &&& item.content@ == task.description@ + "\nPriority: "@ + decimal(task.priority as nat) + "\n"@
        + due_info(task.due)
    &&& fields_of(item.metadata).len() == 2
    &&& fields_of(item.metadata)[0].0@ == "priority"@
    &&& (fields_of(item.metadata)[0].1 matches JsonValue::Number(n) && n@ == decimal(
        task.priority as nat,
    ))
    &&& text_field(fields_of(item.metadata)[1], "todoist_id"@, task.id@)
    &&& item.timestamp == time_or(task.created_at@, now)
}

/// The URL of a task.
pub open spec fn task_url(id: Seq<char>) -> Seq<char> {
    "https://api.todoist.com/rest/v2/tasks/"@ + id
}

impl TodoistConnector {
    /// A connector with the given API key.
    pub fn new(api_key: String) -> (r: TodoistConnector)
        ensures
            r.api_key == api_key,
    {
        TodoistConnector { api_key }
    }

    /// The request for the tasks due today or overdue.
    pub fn tasks_request(&self) -> (r: HttpRequest)
        ensures
            r.method == Method::Get,
            r.url@ == "https://api.todoist.com/rest/v2/tasks"@,
            pairs1(r.headers@, "Authorization"@, bearer(self.api_key@)),
            pairs1(r.query@, "filter"@, "today | overdue"@),
            r.body is Empty,
    {
        let mut r = bearer_request(Method::Get, "https://api.todoist.com/rest/v2/tasks".to_owned(), self.api_key.as_str());
        let mut query = Vec::new();
        query.push(pair("filter", "today | overdue"));
        r.query = query;
        r
    }

    /// The captured item for a task.
    pub fn task_item(task: TodoistTask, now: UtcTime) -> (r: InboxItem)
        ensures
            is_task_item(r, task, now),
    {
        let mut content = task.description.clone();
        content.append("\nPriority: ");
        push_decimal(&mut content, task.priority as u64);
        content.append("\n");
        let ghost before_due = content@;
        match &task.due {
            Some(d) => {
                content.append("Due: ");
                content.append(d.date.as_str());
                content.append(" (");
                content.append(d.string.as_str());
                content.append(")");
                assert(content@ =~= before_due + due_info(task.due));
            },
            None => {
                content.append("No due date");
            },
        }
        let mut priority = String::new();
        push_decimal(&mut priority, task.priority as u64);
        assert(priority@ =~= decimal(task.priority as nat));
        let timestamp = parse_time_or(task.created_at.as_str(), now);
        let mut fields = Vec::new();
        fields.push(entry("priority", JsonValue::Number(priority)));
        fields.push(text_entry("todoist_id", task.id.as_str()));
        InboxItem {
            source: "todoist".to_owned(),
            external_id: task.id,
            title: task.content,
            content,
            metadata: JsonValue::Object(fields),
            timestamp,
        }
    }

    /// The captured items: one for each task that is not completed, in order.
    pub fn task_items(tasks: Vec<TodoistTask>, now: UtcTime) -> (r: Vec<InboxItem>)
        ensures
            r@.len() == open_tasks(tasks@).len(),
            forall|i: int| 0 <= i < r@.len() ==> is_task_item(#[trigger] r@[i], open_tasks(tasks@)[i], now),
    {
        let ghost all = tasks@;
        let mut rest = crate::seqs::reversed(tasks);
        let mut r = Vec::new();
        while rest.len() > 0
            invariant
                rest@.len() <= all.len(),
                forall|i: int| 0 <= i < rest@.len() ==> rest@[i] == all[all.len() - 1 - i],
                r@.len() == open_tasks(all.take(all.len() - rest@.len())).len(),
                forall|i: int| 0 <= i < r@.len() ==> is_task_item(#[trigger] r@[i], open_tasks(all.take(all.len() - rest@.len()))[i], now),
            decreases rest.len(),
        {
            let ghost done = all.take(all.len() - rest@.len());
            let task = rest.pop().unwrap();
            proof {
                let next = all.take(all.len() - rest@.len());
                assert(next.drop_last() == done);
                assert(next.last() == task);
            }
            if !task.is_completed {
                r.push(Self::task_item(task, now));
            }
        }
        assert(all.take(all.len() as int) == all);
        r
    }

    /// The request for one task.
    pub fn task_request(&self, external_id: &str) -> (r: HttpRequest)
        ensures
            r.method == Method::Get,
            r.url@ == task_url(external_id@),
            pairs1(r.headers@, "Authorization"@, bearer(self.api_key@)),
            r.query@.len() == 0,
            r.body is Empty,
    {
        let mut url = "https://api.todoist.com/rest/v2/tasks/".to_owned();
        url.append(external_id);
        bearer_request(Method::Get, url, self.api_key.as_str())
    }

    /// Whether a task is pending, when the reply's status (its code and its
    /// text, such as `404 Not Found`) already says: not found means it was
    /// deleted or completed; any other client error (a refused token, say)
    /// tells nothing of the task and is an error. `Ok(None)` means the reply
    /// body decides.
    pub fn pending_from_status(code: u16, status: &str) -> (r: Result<Option<bool>, Error>)
        ensures
            code == 404 ==> r == Ok::<Option<bool>, Error>(Some(false)),
            400 <= code < 500 && code != 404 ==> (r matches Err(Error::Connector { connector: c, message: m })
                && c@ == "todoist"@ && m@ == status@),
            !(400 <= code < 500) ==> r == Ok::<Option<bool>, Error>(None),
    {
        if code == 404 {
            Ok(Some(false))
        } else if 400 <= code && code < 500 {
            Err(Error::connector("todoist", status.to_owned()))
        } else {
            Ok(None)
        }
    }

    /// Whether a task is pending, from the decoded reply body.
    pub fn pending_from_task(decoded: Result<TodoistTask, String>) -> (r: Result<bool, Error>)
        ensures
            decoded matches Ok(t) ==> r == Ok::<bool, Error>(!t.is_completed),
            decoded matches Err(e) ==> (r matches Err(Error::Connector { connector: c, message: m })
                && c@ == "todoist"@ && m@ == e@),
    {
        match decoded {
            Ok(t) => Ok(!t.is_completed),
            Err(e) => Err(Error::connector("todoist", e)),
        }
    }

    /// The actions this connector supports.
    pub fn supported_actions(&self) -> (r: Vec<&'static str>)
        ensures
            r@.len() == 2,
            r@[0]@ == "complete_task"@,
            r@[1]@ == "create_task"@,
            r@.len() == actions_of(ConnectorKind::Todoist).len(),
            forall|i: int| 0 <= i < r@.len() ==> #[trigger] r@[i]@ == actions_of(ConnectorKind::Todoist)[i],
    {
        let mut r = Vec::new();
        r.push("complete_task");
        r.push("create_task");
        r
    }

    /// What a mutation does: `complete_task` closes the payload's `task_id`;
    /// `create_task` creates a task with the payload's `content`, and its
    /// `due_string` when there is one; anything else is unsupported.
    pub fn plan(&self, request: MutationRequest) -> (r: MutationPlan<TodoistReply>)
        ensures
            (r matches MutationPlan::Reply(m) && is_unsupported(m, request.action@))
                <==> !actions_of(ConnectorKind::Todoist).contains(request.action@),
            match immediate_reply(ConnectorKind::Todoist, request.action@) {
                Some(msg) => r matches MutationPlan::Reply(m) && !m.success && m.message@ == msg && m.data is None,
                None => r is Send,
            },
            request.action@ == "complete_task"@ ==> (r matches MutationPlan::Send(h, TodoistReply::TaskCompleted)
                && h.method == Method::Post
                && h.url@ == task_url(str_or_empty(request.payload, "task_id"@)) + "/close"@
                && pairs1(h.headers@, "Authorization"@, bearer(self.api_key@))
                && h.query@.len() == 0
                && h.body is Empty),
            request.action@ == "create_task"@ ==> (r matches MutationPlan::Send(h, TodoistReply::TaskCreated)
                && h.method == Method::Post
                && h.url@ == "https://api.todoist.com/rest/v2/tasks"@
                && pairs1(h.headers@, "Authorization"@, bearer(self.api_key@))
                && h.query@.len() == 0
                && (h.body matches Body::Json(b) && b is Object
                    && text_field(fields_of(b)[0], "content"@, str_or_empty(request.payload, "content"@))
                    && match get_spec(request.payload, "due_string"@) {
                        Some(d) => fields_of(b).len() == 2 && value_field(fields_of(b)[1], "due_string"@, d),
                        None => fields_of(b).len() == 1,
                    })),
            request.action@ != "complete_task"@ && request.action@ != "create_task"@ ==> (
                r matches MutationPlan::Reply(m) && is_unsupported(m, request.action@)),
    {
        proof {
            lemma_supports(ConnectorKind::Todoist, request.action@);
        }
        proof {
            reveal_strlit("complete_task");
            reveal_strlit("create_task");
            assert("complete_task"@[1] != "create_task"@[1]);
        }
        if str_eq(request.action.as_str(), "complete_task") {
            let task_id = request.payload.str_field_or_empty("task_id");
            let mut url = "https://api.todoist.com/rest/v2/tasks/".to_owned();
            url.append(task_id.as_str());
            url.append("/close");
            MutationPlan::Send(bearer_request(Method::Post, url, self.api_key.as_str()), TodoistReply::TaskCompleted)
        } else if str_eq(request.action.as_str(), "create_task") {
            let content = request.payload.str_field_or_empty("content");
            let mut fields = Vec::new();
            fields.push(text_entry("content", content.as_str()));
            let mut payload_fields = match request.payload {
                JsonValue::Object(f) => f,
                _ => Vec::new(),
            };
            let due = take_field(&mut payload_fields, "due_string");
            match due {
                Some(d) => fields.push(entry("due_string", d)),
                None => {},
            }
            let mut h = bearer_request(Method::Post, "https://api.todoist.com/rest/v2/tasks".to_owned(), self.api_key.as_str());
            h.body = Body::Json(JsonValue::Object(fields));
            MutationPlan::Send(h, TodoistReply::TaskCreated)
        } else {
            MutationPlan::Reply(unsupported(request.action.as_str()))
        }
    }

    /// The result of completing a task, from the reply's status.
    pub fn completed_result(success: bool, status: &str) -> (r: MutationResult)
        ensures
            r.success == success,
            r.message@ == status_message(success, status@, "task completed"@),
            !has_prefix(r.message@, "unsupported action"@),
            r.data is None,
    {
        proof {
            reveal_strlit("unsupported action");
            reveal_strlit("task completed");
            reveal_strlit("failed: ");
            lemma_not_unsupported(status_message(success, status@, "task completed"@), 0);
        }
        status_result(success, status, "task completed")
    }

    /// The result of creating a task, from the reply's status and decoded body
    /// (an empty object when the body does not decode).
    pub fn created_result(success: bool, status: &str, decoded: Option<JsonValue>) -> (r: MutationResult)
        ensures
            r.success == success,
            r.message@ == status_message(success, status@, "task created"@),
            !has_prefix(r.message@, "unsupported action"@),
            decoded matches Some(b) ==> r.data == Some(b),
            decoded is None ==> (r.data matches Some(b) && b is Object && fields_of(b).len() == 0),
    {
        proof {
            reveal_strlit("unsupported action");
            reveal_strlit("task created");
            reveal_strlit("failed: ");
            lemma_not_unsupported(status_message(success, status@, "task created"@), 0);
        }
        let message = status_result(success, status, "task created").message;
        let data = match decoded {
            Some(b) => b,
            None => JsonValue::Object(Vec::new()),
        };
        MutationResult { success, message, data: Some(data) }
    }
}

impl ConnectorMeta for TodoistConnector {
    fn source_name(&self) -> (r: &str)
        ensures
            r@ == "todoist"@,
    {
        "todoist"
    }
}

} // verus!
