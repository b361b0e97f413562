//! What every connector shares: captured items, mutation requests and results.
use vstd::prelude::*;
use crate::json::JsonValue;
use crate::time::UtcTime;

verus! {

/// An item captured from an outside service, ready for inbox processing.
#[derive(Debug)]
pub struct InboxItem {
    pub source: String,
    pub external_id: String,
    pub title: String,
    pub content: String,
    pub metadata: JsonValue,
    pub timestamp: UtcTime,
}

/// Identifies the service a connector talks to.
pub trait ConnectorMeta {
    /// The service's unique name (such as "gmail", "slack", "linear").
    fn source_name(&self) -> &str;
}

/// A requested change in an outside service.
#[derive(Debug)]
pub struct MutationRequest {
    /// The action verb (such as "send_message", "complete_task").
    pub action: String,
    /// The action's parameters.
    pub payload: JsonValue,
}

/// The outcome of a mutation.
#[derive(Debug)]
pub struct MutationResult {
    pub success: bool,
    pub message: String,
    pub data: Option<JsonValue>,
}

/// What a mutation does next: answer at once, or send a request and interpret its reply.
#[derive(Debug)]
pub enum MutationPlan<A> {
    Reply(MutationResult),
    Send(crate::connectors::http::HttpRequest, A),
}

/// The result for an action the connector does not support.
pub open spec fn is_unsupported(r: MutationResult, action: Seq<char>) -> bool {
    !r.success && r.message@ == "unsupported action: "@ + action && r.data is None
}

/// A failed result with the message `message` and no data.
pub open spec fn is_failure(r: MutationResult, message: Seq<char>) -> bool {
    !r.success && r.message@ == message && r.data is None
}

/// The result for an action the connector does not support.
pub fn unsupported(action: &str) -> (r: MutationResult)
    ensures
        is_unsupported(r, action@),
{
    let mut message = "unsupported action: ".to_owned();
    message.append(action);
    MutationResult { success: false, message, data: None }
}

/// A failed result with the given message.
pub fn failure(message: &str) -> (r: MutationResult)
    ensures
        is_failure(r, message@),
{
    MutationResult { success: false, message: message.to_owned(), data: None }
}

/// The error for a fetch whose reply status is not a success.
pub fn status_error(connector: &str, status: &str, body: &str) -> (e: crate::error::Error)
    ensures
        e matches crate::error::Error::Connector { connector: c, message: m } && c@ == connector@
            && m@ == status@ + ": "@ + body@,
{
    let mut m = status.to_owned();
    m.append(": ");
    m.append(body);
    crate::error::Error::connector(connector, m)
}

/// The message for a reply status: `ok_message` on success, `failed: <status>` otherwise.
pub open spec fn status_message(success: bool, status: Seq<char>, ok_message: Seq<char>) -> Seq<char> {
    if success {
        ok_message
    } else {
        "failed: "@ + status
    }
}

/// The result of a mutation judged by the reply's status alone.
pub fn status_result(success: bool, status: &str, ok_message: &str) -> (r: MutationResult)
    ensures
        r.success == success,
        r.message@ == status_message(success, status@, ok_message@),
        r.data is None,
{
    let message = if success {
        ok_message.to_owned()
    } else {
        let mut m = "failed: ".to_owned();
        m.append(status);
        m
    };
    MutationResult { success, message, data: None }
}

} // verus!
