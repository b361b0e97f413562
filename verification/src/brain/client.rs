//! Requests to the Anthropic messages API and the handling of its replies.
//! Sending a request and decoding JSON replies is left to the caller.
use vstd::prelude::*;
use crate::brain::prompt::{BRIEFING, CHAT_SYSTEM, CUE_EXTRACTION, DAILY_REVIEW, INBOX_CLASSIFY, TASK_BREAKDOWN};
use crate::config::Config;
use crate::error::Error;
use crate::types::opt_text;

verus! {

/// A message of the conversation sent to the model.
#[derive(Clone, Debug)]
pub struct Message {
    pub role: String,
    pub content: String,
}

/// The body of a request to the messages API.
#[derive(Clone, Debug)]
pub struct ApiRequest {
    pub model: String,
    pub max_tokens: u32,
    pub system: String,
    pub messages: Vec<Message>,
}

/// A block of the model's reply.
#[derive(Clone, Debug)]
pub struct ContentBlock {
    pub block_type: String,
    pub text: Option<String>,
}

/// Token usage reported with a reply.
#[derive(Clone, Debug)]
pub struct Usage {
    pub input_tokens: u32,
    pub output_tokens: u32,
}

/// A reply of the messages API.
#[derive(Clone, Debug)]
pub struct ApiResponse {
    pub content: Vec<ContentBlock>,
    pub usage: Usage,
}

/// Cues extracted from user input for recall.
#[derive(Clone, Debug)]
pub struct CueExtraction {
    pub entities: Vec<String>,
    pub intent: String,
    pub time_refs: Vec<String>,
    pub topics: Vec<String>,
}

impl Default for CueExtraction {
    fn default() -> (r: CueExtraction)
        ensures
            r.entities@.len() == 0,
            r.intent@.len() == 0,
            r.time_refs@.len() == 0,
            r.topics@.len() == 0,
    {
        CueExtraction {
            entities: Vec::new(),
            intent: String::new(),
            time_refs: Vec::new(),
            topics: Vec::new(),
        }
    }
}

/// The GTD classification of one inbox item.
#[derive(Clone, Debug)]
pub struct InboxClassification {
    pub external_id: String,
    pub classification: String,
    pub reason: String,
}

/// A task broken down into actions.
#[derive(Clone, Debug)]
pub struct TaskBreakdown {
    pub goal: String,
    pub actions: Vec<SubTask>,
}

/// One action of a broken-down task; `depends_on` holds indices of earlier actions.
#[derive(Clone, Debug)]
pub struct SubTask {
    pub title: String,
    pub estimate_min: u32,
    pub depends_on: Vec<usize>,
}

/// A synthesized briefing.
#[derive(Clone, Debug)]
pub struct BriefingSynthesis {
    pub greeting: String,
    pub summary: String,
    pub priorities: Vec<String>,
    pub reminders: Vec<String>,
}

/// A synthesized end-of-day review.
#[derive(Clone, Debug)]
pub struct ReviewSynthesis {
    pub summary: String,
    pub completed: Vec<String>,
    pub in_progress: Vec<String>,
    pub unstarted: Vec<String>,
    pub tomorrow: Vec<String>,
    pub learnings: Vec<String>,
}

/// A completion to request: system prompt, messages and token limit.
#[derive(Clone, Debug)]
pub struct CompletionCall {
    pub system: String,
    pub messages: Vec<Message>,
    pub max_tokens: u32,
}

/// The call sends `system`, one user message with `content`, and the limit `max`.
pub open spec fn is_user_call(c: CompletionCall, system: Seq<char>, content: Seq<char>, max: u32) -> bool {
    &&& c.system@ == system
    &&& c.messages@.len() == 1
    &&& c.messages@[0].role@ == "user"@
    &&& c.messages@[0].content@ == content
    &&& c.max_tokens == max
}

/// The client's settings: API key and model.
#[derive(Clone, Debug)]
pub struct AnthropicClient {
    pub api_key: String,
    pub model: String,
}

/// The concatenated text of the blocks that carry text, in order.
pub open spec fn blocks_text(blocks: Seq<ContentBlock>) -> Seq<char>
    decreases blocks.len(),
{
    if blocks.len() == 0 {
        Seq::empty()
    } else {
        blocks_text(blocks.drop_last()) + opt_text(blocks.last().text)
    }
}

/// The user content of an inbox classification request.
pub open spec fn classify_content(items_json: Seq<char>, context: Seq<char>) -> Seq<char> {
    "## Context\n"@ + context + "\n\n## Inbox items\n"@ + items_json
}

/// The user content of a task breakdown request.
pub open spec fn breakdown_content(task: Seq<char>, context: Seq<char>) -> Seq<char> {
    "## Task\n"@ + task + "\n\n## Context\n"@ + context
}

/// The user content of a briefing request.
pub open spec fn briefing_content(inbox: Seq<char>, context: Seq<char>) -> Seq<char> {
    "## Inbox\n"@ + inbox + "\n\n## Context (recalled from Cortex)\n"@ + context
}

/// The user content of a review request.
pub open spec fn review_content(activities: Seq<char>, context: Seq<char>) -> Seq<char> {
    "## Today's activities\n"@ + activities + "\n\n## Context (recalled from Cortex)\n"@ + context
}

/// The system prompt of a chat request.
pub open spec fn chat_system(context: Seq<char>) -> Seq<char> {
    CHAT_SYSTEM@ + "\n\n## Recalled context from Cortex\n"@ + context
}

/// A call with one user message.
fn user_call(system: String, content: String, max_tokens: u32) -> (c: CompletionCall)
    ensures
        is_user_call(c, system@, content@, max_tokens),
{
    let mut messages = Vec::new();
    messages.push(Message { role: "user".to_owned(), content });
    CompletionCall { system, messages, max_tokens }
}

/// `a + b + c + d` as a string.
fn concat4(a: &str, b: &str, c: &str, d: &str) -> (r: String)
    ensures
        r@ == a@ + b@ + c@ + d@,
{
    let mut r = a.to_owned();
    r.append(b);
    r.append(c);
    r.append(d);
    r
}

impl AnthropicClient {
    /// A client with the key and model of the configuration.
    pub fn new(config: &Config) -> (r: AnthropicClient)
        ensures
            r.api_key@ == config.anthropic_api_key@,
            r.model@ == config.anthropic_model@,
    {
        AnthropicClient { api_key: config.anthropic_api_key.clone(), model: config.anthropic_model.clone() }
    }

    /// The body of a completion request with this client's model.
    pub fn api_request(&self, call: CompletionCall) -> (r: ApiRequest)
        ensures
            r.model@ == self.model@,
            r.max_tokens == call.max_tokens,
            r.system@ == call.system@,
            r.messages == call.messages,
    {
        ApiRequest { model: self.model.clone(), max_tokens: call.max_tokens, system: call.system, messages: call.messages }
    }

    /// The error for a reply whose status is not a success.
    pub fn status_error(status: &str, body: &str) -> (e: Error)
        ensures
            e matches Error::Anthropic(m) && m@ == status@ + ": "@ + body@,
    {
        let mut m = status.to_owned();
        m.append(": ");
        m.append(body);
        Error::Anthropic(m)
    }

    /// The text of a reply: the texts of its blocks joined together.
    pub fn extract_text(response: &ApiResponse) -> (r: String)
        ensures
            r@ == blocks_text(response.content@),
    {
        let mut r = String::new();
        let mut i: usize = 0;
        while i < response.content.len()
            invariant
                i <= response.content@.len(),
                r@ == blocks_text(response.content@.take(i as int)),
            decreases response.content.len() - i,
        {
            match &response.content[i].text {
                Some(t) => r.append(t.as_str()),
                None => {},
            }
            assert(response.content@.take(i + 1).drop_last() == response.content@.take(i as int));
            i = i + 1;
        }
        assert(response.content@.take(response.content@.len() as int) == response.content@);
        r
    }

    /// The completion that extracts cues from user input.
    pub fn extract_cues_call(user_input: &str) -> (c: CompletionCall)
        ensures
            is_user_call(c, CUE_EXTRACTION@, user_input@, 512),
    {
        user_call(CUE_EXTRACTION.to_owned(), user_input.to_owned(), 512)
    }

    /// The cues of a reply: the decoded cues, or none when it does not decode.
    pub fn cues_from_reply(decoded: Option<CueExtraction>) -> (r: CueExtraction)
        ensures
            decoded matches Some(c) ==> r == c,
            decoded is None ==> r.entities@.len() == 0 && r.intent@.len() == 0
                && r.time_refs@.len() == 0 && r.topics@.len() == 0,
    {
        match decoded {
            Some(c) => c,
            None => CueExtraction::default(),
        }
    }

    /// The completion that classifies inbox items.
    pub fn classify_inbox_call(items_json: &str, context: &str) -> (c: CompletionCall)
        ensures
            is_user_call(c, INBOX_CLASSIFY@, classify_content(items_json@, context@), 2048),
    {
        user_call(INBOX_CLASSIFY.to_owned(), concat4("## Context\n", context, "\n\n## Inbox items\n", items_json), 2048)
    }

    /// The classifications of a reply: the decoded list, or none when it does not decode.
    pub fn classifications_from_reply(decoded: Option<Vec<InboxClassification>>) -> (r: Vec<InboxClassification>)
        ensures
            decoded matches Some(v) ==> r == v,
            decoded is None ==> r@.len() == 0,
    {
        match decoded {
            Some(v) => v,
            None => Vec::new(),
        }
    }

    /// The completion that breaks a task down.
    pub fn breakdown_task_call(task: &str, context: &str) -> (c: CompletionCall)
        ensures
            is_user_call(c, TASK_BREAKDOWN@, breakdown_content(task@, context@), 2048),
    {
        user_call(TASK_BREAKDOWN.to_owned(), concat4("## Task\n", task, "\n\n## Context\n", context), 2048)
    }

    /// The completion that synthesizes a briefing.
    pub fn synthesize_briefing_call(inbox_summary: &str, context_summary: &str) -> (c: CompletionCall)
        ensures
            is_user_call(c, BRIEFING@, briefing_content(inbox_summary@, context_summary@), 2048),
    {
        user_call(
            BRIEFING.to_owned(),
            concat4("## Inbox\n", inbox_summary, "\n\n## Context (recalled from Cortex)\n", context_summary),
            2048,
        )
    }

    /// The completion that synthesizes a review.
    pub fn synthesize_review_call(activities: &str, context_summary: &str) -> (c: CompletionCall)
        ensures
            is_user_call(c, DAILY_REVIEW@, review_content(activities@, context_summary@), 2048),
    {
        user_call(
            DAILY_REVIEW.to_owned(),
            concat4("## Today's activities\n", activities, "\n\n## Context (recalled from Cortex)\n", context_summary),
            2048,
        )
    }

    /// The completion that answers the user with recalled context.
    pub fn chat_call(user_input: &str, context: &str) -> (c: CompletionCall)
        ensures
            is_user_call(c, chat_system(context@), user_input@, 4096),
    {
        let mut system = CHAT_SYSTEM.to_owned();
        system.append("\n\n## Recalled context from Cortex\n");
        system.append(context);
        user_call(system, user_input.to_owned(), 4096)
    }

    /// A decoded structured reply, or the error that says why it did not decode.
    pub fn structured_reply<T>(decoded: Result<T, String>) -> (r: Result<T, Error>)
        ensures
            decoded matches Ok(v) ==> r == Ok::<T, Error>(v),
            decoded matches Err(e) ==> (r matches Err(Error::Anthropic(m)) && m@ == "parse error: "@ + e@),
    {
        match decoded {
            Ok(v) => Ok(v),
            Err(e) => {
                let mut m = "parse error: ".to_owned();
                m.append(e.as_str());
                Err(Error::Anthropic(m))
            },
        }
    }
}

} // verus!
