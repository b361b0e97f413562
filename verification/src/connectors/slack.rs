//! Slack: recent direct messages, and sending messages.
use vstd::prelude::*;
use crate::connectors::registry::{actions_of, immediate_reply, lemma_not_unsupported, lemma_supports, ConnectorKind};
use crate::text::has_prefix;
use crate::connectors::http::{bearer, bearer_request, pair, pairs2, Body, HttpRequest, Method};
use crate::connectors::traits::{
    failure, is_failure, is_unsupported, unsupported, ConnectorMeta, InboxItem, MutationPlan,
    MutationRequest, MutationResult,
};
use crate::error::Error;
use crate::json::{
    as_bool_spec, as_str_spec, entry, fields_of, index_spec, is_text, str_eq, str_or_empty,
    text_entry, text_field, value_field, JsonValue,
};
use crate::text::{parse_i64, parse_signed_spec, prefix_spec, take_chars};
use crate::time::{representable, utc_representable, UtcTime};
use crate::types::opt_view;

verus! {

/// A connector to a Slack workspace through a bot token.
#[derive(Clone, Debug)]
pub struct SlackConnector {
    pub bot_token: String,
}

/// A message of a conversation's history.
#[derive(Clone, Debug)]
pub struct SlackMessage {
    pub ts: String,
    pub text: String,
    pub user: Option<String>,
}

/// The reply to a Slack mutation that was sent.
#[derive(Clone, Debug)]
pub enum SlackReply {
    MessagePosted,
}

/// The part of a Slack timestamp before its first `.` (all of it when there is none).
pub open spec fn seconds_part(ts: Seq<char>) -> Seq<char>
    decreases ts.len(),
{
    if ts.len() == 0 {
        ts
    } else if ts[0] == '.' {
        Seq::empty()
    } else {
        seq![ts[0]] + seconds_part(ts.drop_first())
    }
}

/// The time of a Slack timestamp: its whole seconds when they parse and chrono
/// can represent them, `now` otherwise.
pub open spec fn slack_ts_time(ts: Seq<char>, now: UtcTime) -> UtcTime {
    match parse_signed_spec(seconds_part(ts), i64::MIN as int, i64::MAX as int) {
        Some(s) => if utc_representable(s as i64, 0) {
            UtcTime { secs: s as i64, nanos: 0 }
        } else {
            now
        },
        None => now,
    }
}

proof fn lemma_seconds_part(ts: Seq<char>, i: int)
    requires
        0 <= i <= ts.len(),
        forall|k: int| 0 <= k < i ==> ts[k] != '.',
        i == ts.len() || ts[i] == '.',
    ensures
        seconds_part(ts) == ts.take(i),
    decreases i,
{
    if i > 0 {
        lemma_seconds_part(ts.drop_first(), i - 1);
        assert(seq![ts[0]] + ts.drop_first().take(i - 1) == ts.take(i));
    } else if ts.len() > 0 {
        assert(ts.take(0) == Seq::<char>::empty());
    }
}

/// The time of a Slack message timestamp, or `now` when it names none.
pub fn parse_slack_ts(ts: &str, now: UtcTime) -> (r: UtcTime)
    ensures
        r == slack_ts_time(ts@, now),
{
    let v = crate::text::chars_of(ts);
    let mut i: usize = 0;
    while i < v.len() && v[i] != '.'
        invariant
            i <= v@.len(),
            forall|k: int| 0 <= k < i ==> v@[k] != '.',
        decreases v.len() - i,
    {
        i = i + 1;
    }
    let mut head = String::new();
    crate::text::push_chars(&mut head, &v, 0, i);
    proof {
        lemma_seconds_part(v@, i as int);
        assert(head@ == v@.take(i as int));
    }
    match parse_i64(head.as_str()) {
        Some(secs) => {
            if representable(secs, 0) {
                UtcTime { secs, nanos: 0 }
            } else {
                now
            }
        },
        None => now,
    }
}

/// The captured item for a message of a channel.
pub open spec fn is_message_item(item: InboxItem, channel: Seq<char>, msg: SlackMessage, now: UtcTime) -> bool {
    &&& item.source@ == "slack"@
    &&& item.external_id@ == channel + ":"@ + msg.ts@
    &&& item.title@ == prefix_spec(msg.text@, 80)
    &&& item.content@ == msg.text@
    &&& fields_of(item.metadata).len() == 3
    &&& text_field(fields_of(item.metadata)[0], "channel"@, channel)
    &&& text_field(fields_of(item.metadata)[1], "ts"@, msg.ts@)
    &&& fields_of(item.metadata)[2].0@ == "user"@
    &&& match msg.user {
        Some(u) => is_text(fields_of(item.metadata)[2].1, u@),
        None => fields_of(item.metadata)[2].1 is Null,
    }
    &&& item.timestamp == slack_ts_time(msg.ts@, now)
}

/// The result for the reply body of `chat.postMessage`.
pub open spec fn is_post_result(r: MutationResult, body: JsonValue) -> bool {
    let ok = match as_bool_spec(index_spec(body, "ok"@)) {
        Some(b) => b,
        None => false,
    };
    &&& r.success == ok
    &&& r.message@ == if ok {
        "message sent"@
    } else {
        match as_str_spec(index_spec(body, "error"@)) {
            Some(e) => e,
            None => "unknown error"@,
        }
    }
    &&& r.data == Some(body)
}

impl SlackConnector {
    /// A connector with the given bot token.
    pub fn new(bot_token: String) -> (r: SlackConnector)
        ensures
            r.bot_token == bot_token,
    {
        SlackConnector { bot_token }
    }

    /// The request that identifies the bot (`auth.test`).
    pub fn auth_test_request(&self) -> (r: HttpRequest)
        ensures
            r.method == Method::Get,
            r.url@ == "https://slack.com/api/auth.test"@,
            r.headers@.len() == 1 && r.headers@[0].0@ == "Authorization"@ && r.headers@[0].1@
                == bearer(self.bot_token@),
            r.query@.len() == 0,
            r.body is Empty,
    {
        bearer_request(Method::Get, "https://slack.com/api/auth.test".to_owned(), self.bot_token.as_str())
    }

    /// The bot's user id from the `auth.test` reply, or the error when there is none.
    pub fn bot_user_id(user_id: Option<String>) -> (r: Result<String, Error>)
        ensures
            user_id matches Some(u) ==> r == Ok::<String, Error>(u),
            user_id is None ==> (r matches Err(Error::Connector { connector: c, message: m })
                && c@ == "slack"@ && m@ == "could not determine bot user id"@),
    {
        match user_id {
            Some(u) => Ok(u),
            None => Err(Error::connector("slack", "could not determine bot user id".to_owned())),
        }
    }

    /// The request that lists direct-message channels (at most 20).
    pub fn conversations_list_request(&self) -> (r: HttpRequest)
        ensures
            r.method == Method::Get,
            r.url@ == "https://slack.com/api/conversations.list"@,
            r.headers@.len() == 1 && r.headers@[0].0@ == "Authorization"@ && r.headers@[0].1@
                == bearer(self.bot_token@),
            pairs2(r.query@, "types"@, "im"@, "limit"@, "20"@),
            r.body is Empty,
    {
        let mut r = bearer_request(Method::Get, "https://slack.com/api/conversations.list".to_owned(), self.bot_token.as_str());
        let mut query = Vec::new();
        query.push(pair("types", "im"));
        query.push(pair("limit", "20"));
        r.query = query;
        r
    }

    /// The channels whose history is read: the first ten listed.
    pub fn channels_to_read(channels: Vec<String>) -> (r: Vec<String>)
        ensures
            r@ == if channels@.len() <= 10 {
                channels@
            } else {
                channels@.take(10)
            },
    {
        let mut channels = channels;
        if channels.len() > 10 {
            channels.truncate(10);
        }
        channels
    }

    /// The request that reads the last five messages of a channel.
    pub fn history_request(&self, channel: &str) -> (r: HttpRequest)
        ensures
            r.method == Method::Get,
            r.url@ == "https://slack.com/api/conversations.history"@,
            r.headers@.len() == 1 && r.headers@[0].0@ == "Authorization"@ && r.headers@[0].1@
                == bearer(self.bot_token@),
            pairs2(r.query@, "channel"@, channel@, "limit"@, "5"@),
            r.body is Empty,
    {
        let mut r = bearer_request(Method::Get, "https://slack.com/api/conversations.history".to_owned(), self.bot_token.as_str());
        let mut query = Vec::new();
        query.push(pair("channel", channel));
        query.push(pair("limit", "5"));
        r.query = query;
        r
    }

    /// The captured item for a message of a channel.
    pub fn message_item(channel: &str, msg: SlackMessage, now: UtcTime) -> (r: InboxItem)
        ensures
            is_message_item(r, channel@, msg, now),
    {
        let ghost m = msg;
        let mut external_id = channel.to_owned();
        external_id.append(":");
        external_id.append(msg.ts.as_str());
        let title = take_chars(msg.text.as_str(), 80);
        let timestamp = parse_slack_ts(msg.ts.as_str(), now);
        let user = match msg.user {
            Some(u) => JsonValue::Str(u),
            None => JsonValue::Null,
        };
        let mut fields = Vec::new();
        fields.push(text_entry("channel", channel));
        fields.push(text_entry("ts", msg.ts.as_str()));
        fields.push(entry("user", user));
        InboxItem {
            source: "slack".to_owned(),
            external_id,
            title,
            content: msg.text,
            metadata: JsonValue::Object(fields),
            timestamp,
        }
    }

    /// Whether an item is still pending: Slack messages have no completed
    /// state, so they always are.
    pub fn is_pending(&self, external_id: &str) -> (r: bool)
        ensures
            r,
    {
        true
    }

    /// The actions this connector supports.
    pub fn supported_actions(&self) -> (r: Vec<&'static str>)
        ensures
            r@.len() == 2,
            r@[0]@ == "send_message"@,
            r@[1]@ == "add_reaction"@,
            r@.len() == actions_of(ConnectorKind::Slack).len(),
            forall|i: int| 0 <= i < r@.len() ==> #[trigger] r@[i]@ == actions_of(ConnectorKind::Slack)[i],
    {
        let mut r = Vec::new();
        r.push("send_message");
        r.push("add_reaction");
        r
    }

    /// What a mutation does: `send_message` posts the payload's `text` to its
    /// `channel`; `add_reaction` is not implemented; anything else is unsupported.
    pub fn plan(&self, request: &MutationRequest) -> (r: MutationPlan<SlackReply>)
        ensures
            (r matches MutationPlan::Reply(m) && is_unsupported(m, request.action@))
                <==> !actions_of(ConnectorKind::Slack).contains(request.action@),
            match immediate_reply(ConnectorKind::Slack, request.action@) {
                Some(msg) => r matches MutationPlan::Reply(m) && !m.success && m.message@ == msg && m.data is None,
                None => r is Send,
            },
            request.action@ == "send_message"@ ==> (r matches MutationPlan::Send(h, SlackReply::MessagePosted)
                && h.method == Method::Post
                && h.url@ == "https://slack.com/api/chat.postMessage"@
                && h.headers@.len() == 1 && h.headers@[0].0@ == "Authorization"@ && h.headers@[0].1@ == bearer(self.bot_token@)
                && h.query@.len() == 0
                && (h.body matches Body::Json(b) && fields_of(b).len() == 2
                    && b is Object
                    && text_field(fields_of(b)[0], "channel"@, str_or_empty(request.payload, "channel"@))
                    && text_field(fields_of(b)[1], "text"@, str_or_empty(request.payload, "text"@)))),
            request.action@ == "add_reaction"@ ==> (r matches MutationPlan::Reply(m) && is_failure(m, "add_reaction is not yet implemented"@)),
            request.action@ != "send_message"@ && request.action@ != "add_reaction"@ ==> (r matches MutationPlan::Reply(m)
                && is_unsupported(m, request.action@)),
    {
        proof {
            lemma_supports(ConnectorKind::Slack, request.action@);
        }
        proof {
            reveal_strlit("send_message");
            reveal_strlit("add_reaction");
            assert("send_message"@[0] != "add_reaction"@[0]);
        }
        if str_eq(request.action.as_str(), "send_message") {
            let channel = request.payload.str_field_or_empty("channel");
            let text = request.payload.str_field_or_empty("text");
            let mut fields = Vec::new();
            fields.push(text_entry("channel", channel.as_str()));
            fields.push(text_entry("text", text.as_str()));
            let mut h = bearer_request(Method::Post, "https://slack.com/api/chat.postMessage".to_owned(), self.bot_token.as_str());
            h.body = Body::Json(JsonValue::Object(fields));
            MutationPlan::Send(h, SlackReply::MessagePosted)
        } else if str_eq(request.action.as_str(), "add_reaction") {
            proof {
                reveal_strlit("add_reaction is not yet implemented");
                reveal_strlit("unsupported action: ");
                assert("add_reaction is not yet implemented"@[0] != ("unsupported action: "@ + request.action@)[0]);
            }
            MutationPlan::Reply(failure("add_reaction is not yet implemented"))
        } else {
            MutationPlan::Reply(unsupported(request.action.as_str()))
        }
    }

    /// The result of a sent mutation, from the reply body.
    pub fn interpret(reply: SlackReply, body: JsonValue) -> (r: MutationResult)
        ensures
            is_post_result(r, body),
            !(as_str_spec(index_spec(body, "error"@)) matches Some(e) && has_prefix(e, "unsupported action"@))
                ==> !has_prefix(r.message@, "unsupported action"@),
    {
        proof {
            reveal_strlit("unsupported action");
            reveal_strlit("message sent");
            reveal_strlit("unknown error");
            lemma_not_unsupported("message sent"@, 0);
            lemma_not_unsupported("unknown error"@, 2);
        }
        let ok = match body.bool_field("ok") {
            Some(b) => b,
            None => false,
        };
        let message = if ok {
            "message sent".to_owned()
        } else {
            match body.str_field("error") {
                Some(e) => e,
                None => "unknown error".to_owned(),
            }
        };
        MutationResult { success: ok, message, data: Some(body) }
    }
}

impl ConnectorMeta for SlackConnector {
    fn source_name(&self) -> (r: &str)
        ensures
            r@ == "slack"@,
    {
        "slack"
    }
}

} // verus!
