//! Chatwork: messages (not fetched yet) and sending messages.
use vstd::prelude::*;
use crate::connectors::registry::{actions_of, immediate_reply, lemma_not_unsupported, lemma_supports, ConnectorKind};
use crate::text::has_prefix;
use crate::connectors::http::{pair, pair_is, pairs1, Body, HttpRequest, Method};
use crate::connectors::traits::{
    InboxItem,
    status_message, status_result, unsupported, is_unsupported, ConnectorMeta, MutationPlan,
    MutationRequest, MutationResult,
};
use crate::json::{str_eq, str_or_empty, JsonValue};

verus! {

/// A connector to one Chatwork room.
#[derive(Clone, Debug)]
pub struct ChatworkConnector {
    pub api_token: String,
    pub room_id: String,
}

/// The reply to a Chatwork mutation that was sent.
#[derive(Clone, Debug)]
pub enum ChatworkReply {
    MessageSent,
}

/// The URL that posts a message to a room.
pub open spec fn messages_url(room_id: Seq<char>) -> Seq<char> {
    "https://api.chatwork.com/v2/rooms/"@ + room_id + "/messages"@
}

impl ChatworkConnector {
    /// A connector with the given token and room.
    pub fn new(api_token: String, room_id: String) -> (r: ChatworkConnector)
        ensures
            r.api_token == api_token,
            r.room_id == room_id,
    {
        ChatworkConnector { api_token, room_id }
    }

    /// The actions this connector supports.
    pub fn supported_actions(&self) -> (r: Vec<&'static str>)
        ensures
            r@.len() == 1,
            r@[0]@ == "send_message"@,
            r@.len() == actions_of(ConnectorKind::Chatwork).len(),
            forall|i: int| 0 <= i < r@.len() ==> #[trigger] r@[i]@ == actions_of(ConnectorKind::Chatwork)[i],
    {
        let mut r = Vec::new();
        r.push("send_message");
        r
    }

    /// The captured items: messages are not fetched yet, so there are none.
    pub fn fetch_inbox(&self) -> (r: Vec<InboxItem>)
        ensures
            r@.len() == 0,
    {
        Vec::new()
    }

    /// Whether an item is still pending: Chatwork messages always are.
    pub fn is_pending(&self, external_id: &str) -> (r: bool)
        ensures
            r,
    {
        true
    }

    /// What a mutation does: `send_message` posts the payload's `body` text
    /// (empty when absent) to the room; any other action is unsupported.
    pub fn plan(&self, request: &MutationRequest) -> (r: MutationPlan<ChatworkReply>)
        ensures
            (r matches MutationPlan::Reply(m) && is_unsupported(m, request.action@))
                <==> !actions_of(ConnectorKind::Chatwork).contains(request.action@),
            match immediate_reply(ConnectorKind::Chatwork, request.action@) {
                Some(msg) => r matches MutationPlan::Reply(m) && !m.success && m.message@ == msg && m.data is None,
                None => r is Send,
            },
            request.action@ == "send_message"@ ==> (r matches MutationPlan::Send(h, ChatworkReply::MessageSent)
                && h.method == Method::Post
                && h.url@ == messages_url(self.room_id@)
                && pairs1(h.headers@, "X-ChatWorkToken"@, self.api_token@)
                && h.query@.len() == 0
                && (h.body matches Body::Form(f) && pairs1(f@, "body"@, str_or_empty(request.payload, "body"@)))),
            request.action@ != "send_message"@ ==> (r matches MutationPlan::Reply(m) && is_unsupported(m, request.action@)),
    {
        proof {
            lemma_supports(ConnectorKind::Chatwork, request.action@);
        }
        if str_eq(request.action.as_str(), "send_message") {
            let body = request.payload.str_field_or_empty("body");
            let mut url = "https://api.chatwork.com/v2/rooms/".to_owned();
            url.append(self.room_id.as_str());
            url.append("/messages");
            let mut headers = Vec::new();
            headers.push(pair("X-ChatWorkToken", self.api_token.as_str()));
            let mut form = Vec::new();
            form.push(pair("body", body.as_str()));
            MutationPlan::Send(
                HttpRequest { method: Method::Post, url, headers, query: Vec::new(), body: Body::Form(form) },
                ChatworkReply::MessageSent,
            )
        } else {
            MutationPlan::Reply(unsupported(request.action.as_str()))
        }
    }

    /// The result of a sent mutation, from the reply's status.
    pub fn interpret(reply: ChatworkReply, success: bool, status: &str) -> (r: MutationResult)
        ensures
            r.success == success,
            r.message@ == status_message(success, status@, "message sent"@),
            r.data is None,
            !has_prefix(r.message@, "unsupported action"@),
    {
        proof {
            reveal_strlit("unsupported action");
            reveal_strlit("message sent");
            reveal_strlit("failed: ");
            lemma_not_unsupported(status_message(success, status@, "message sent"@), 0);
        }
        match reply {
            ChatworkReply::MessageSent => status_result(success, status, "message sent"),
        }
    }
}

impl ConnectorMeta for ChatworkConnector {
    fn source_name(&self) -> (r: &str)
        ensures
            r@ == "chatwork"@,
    {
        "chatwork"
    }
}

} // verus!
