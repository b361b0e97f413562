//! Which connectors are enabled, from the credentials that are configured.
use vstd::prelude::*;
use crate::config::Config;
use crate::json::str_eq;
use crate::text::has_prefix;

verus! {

/// The services the agent can connect to.
#[derive(PartialEq, Eq, Structural, Clone, Copy, Debug)]
pub enum ConnectorKind {
    Calendar,
    Slack,
    Linear,
    Todoist,
    Chatwork,
    Gmail,
}

/// The source name of a service.
pub open spec fn kind_name(k: ConnectorKind) -> Seq<char> {
    match k {
        ConnectorKind::Calendar => "calendar"@,
        ConnectorKind::Slack => "slack"@,
        ConnectorKind::Linear => "linear"@,
        ConnectorKind::Todoist => "todoist"@,
        ConnectorKind::Chatwork => "chatwork"@,
        ConnectorKind::Gmail => "gmail"@,
    }
}

impl ConnectorKind {
    /// The source name of the service.
    pub fn source_name(&self) -> (r: &'static str)
        ensures
            r@ == kind_name(*self),
    {
        match self {
            ConnectorKind::Calendar => "calendar",
            ConnectorKind::Slack => "slack",
            ConnectorKind::Linear => "linear",
            ConnectorKind::Todoist => "todoist",
            ConnectorKind::Chatwork => "chatwork",
            ConnectorKind::Gmail => "gmail",
        }
    }
}

/// The action verbs the service's mutation connector supports, in the order
/// it lists them (Gmail is never written).
pub open spec fn actions_of(k: ConnectorKind) -> Seq<Seq<char>> {
    match k {
        ConnectorKind::Calendar => seq!["create_event"@],
        ConnectorKind::Slack => seq!["send_message"@, "add_reaction"@],
        ConnectorKind::Linear => seq!["update_issue_state"@, "create_comment"@],
        ConnectorKind::Todoist => seq!["complete_task"@, "create_task"@],
        ConnectorKind::Chatwork => seq!["send_message"@],
        ConnectorKind::Gmail => Seq::empty(),
    }
}

/// The service supports the action `a`, as its list of actions says.
pub proof fn lemma_supports(k: ConnectorKind, a: Seq<char>)
    ensures
        actions_of(k).contains(a) <==> exists|i: int| 0 <= i < actions_of(k).len() && actions_of(k)[i] == a,
        actions_of(k).len() == 1 ==> (actions_of(k).contains(a) <==> a == actions_of(k)[0]),
        actions_of(k).len() == 2 ==> (actions_of(k).contains(a) <==> (a == actions_of(k)[0] || a == actions_of(k)[1])),
{
    let s = actions_of(k);
    if s.len() >= 1 && a == s[0] {
        assert(s.contains(a));
    }
    if s.len() >= 2 && a == s[1] {
        assert(s.contains(a));
    }
    match k {
        ConnectorKind::Gmail => assert(s.len() == 0),
        _ => {},
    }
}

/// The message of the reply to an action the connector does not support.
pub open spec fn unsupported_message(a: Seq<char>) -> Seq<char> {
    "unsupported action: "@ + a
}

/// The message a connector answers the action `a` with at once, without
/// sending a request; `None` when it sends one. An action outside the
/// service's list is unsupported; two listed actions are not implemented yet.
pub open spec fn immediate_reply(k: ConnectorKind, a: Seq<char>) -> Option<Seq<char>> {
    if !actions_of(k).contains(a) {
        Some(unsupported_message(a))
    } else if k == ConnectorKind::Slack && a == "add_reaction"@ {
        Some("add_reaction is not yet implemented"@)
    } else if k == ConnectorKind::Calendar && a == "create_event"@ {
        Some("create_event is not yet implemented"@)
    } else {
        None
    }
}

/// A message that differs from "unsupported action" at the place `i` does not start with it.
pub proof fn lemma_not_unsupported(m: Seq<char>, i: int)
    requires
        0 <= i < 18,
        i < m.len() ==> m[i] != "unsupported action"@[i],
    ensures
        !has_prefix(m, "unsupported action"@),
{
    reveal_strlit("unsupported action");
    if has_prefix(m, "unsupported action"@) {
        assert(m.take(18)[i] == m[i]);
    }
}

/// The mutation law: a connector answers "unsupported action" exactly for the
/// actions outside its list of supported actions, and no reply it gives at
/// once to a listed action starts with "unsupported action".
pub proof fn unsupported_exactly_outside(k: ConnectorKind, a: Seq<char>)
    ensures
        immediate_reply(k, a) == Some(unsupported_message(a)) <==> !actions_of(k).contains(a),
        actions_of(k).contains(a) ==> (immediate_reply(k, a) matches Some(m) ==> !has_prefix(
            m,
            "unsupported action"@,
        )),
{
    reveal_strlit("unsupported action: ");
    reveal_strlit("unsupported action");
    reveal_strlit("add_reaction is not yet implemented");
    reveal_strlit("create_event is not yet implemented");
    let u = unsupported_message(a);
    assert(u[0] == 'u');
    assert("add_reaction is not yet implemented"@[0] == 'a');
    assert("create_event is not yet implemented"@[0] == 'c');
    if actions_of(k).contains(a) {
        match immediate_reply(k, a) {
            Some(m) => {
                assert(m[0] != u[0]);
                assert(m.take(18)[0] == m[0]);
                assert("unsupported action"@[0] == 'u');
            },
            None => {},
        }
    }
}

/// The connectors with write access whose credentials are configured, in order:
/// Calendar (key and calendar id), Slack, Linear, Todoist, Chatwork (token and room).
pub open spec fn enabled_mutations(c: Config) -> Seq<ConnectorKind> {
    (if c.google_calendar_api_key is Some && c.google_calendar_id is Some {
        seq![ConnectorKind::Calendar]
    } else {
        Seq::empty()
    }) + (if c.slack_bot_token is Some {
        seq![ConnectorKind::Slack]
    } else {
        Seq::empty()
    }) + (if c.linear_api_key is Some {
        seq![ConnectorKind::Linear]
    } else {
        Seq::empty()
    }) + (if c.todoist_api_key is Some {
        seq![ConnectorKind::Todoist]
    } else {
        Seq::empty()
    }) + (if c.chatwork_api_token is Some && c.chatwork_room_id is Some {
        seq![ConnectorKind::Chatwork]
    } else {
        Seq::empty()
    })
}

/// The connectors with read access: those with write access, then Gmail
/// (when its credentials are configured), which is read and never written.
pub open spec fn enabled_queries(c: Config) -> Seq<ConnectorKind> {
    if c.google_credentials_json is Some {
        enabled_mutations(c).push(ConnectorKind::Gmail)
    } else {
        enabled_mutations(c)
    }
}

/// The connectors to enable: `(queries, mutations)`.
pub fn build_connectors(config: &Config) -> (r: (Vec<ConnectorKind>, Vec<ConnectorKind>))
    ensures
        r.0@ == enabled_queries(*config),
        r.1@ == enabled_mutations(*config),
{
    let mut m: Vec<ConnectorKind> = Vec::new();
    let ghost c = *config;
    if config.google_calendar_api_key.is_some() && config.google_calendar_id.is_some() {
        m.push(ConnectorKind::Calendar);
    }
    let ghost s1 = m@;
    if config.slack_bot_token.is_some() {
        m.push(ConnectorKind::Slack);
    }
    let ghost s2 = m@;
    if config.linear_api_key.is_some() {
        m.push(ConnectorKind::Linear);
    }
    let ghost s3 = m@;
    if config.todoist_api_key.is_some() {
        m.push(ConnectorKind::Todoist);
    }
    let ghost s4 = m@;
    if config.chatwork_api_token.is_some() && config.chatwork_room_id.is_some() {
        m.push(ConnectorKind::Chatwork);
    }
    assert(m@ =~= enabled_mutations(c));
    let mut q: Vec<ConnectorKind> = Vec::new();
    let mut i: usize = 0;
    while i < m.len()
        invariant
            i <= m@.len(),
            q@ == m@.take(i as int),
        decreases m.len() - i,
    {
        q.push(m[i]);
        assert(m@.take(i + 1) == m@.take(i as int).push(m@[i as int]));
        i = i + 1;
    }
    assert(m@.take(m@.len() as int) == m@);
    if config.google_credentials_json.is_some() {
        q.push(ConnectorKind::Gmail);
    }
    (q, m)
}

/// Gmail is read exactly when its credentials are configured, and never written.
pub proof fn gmail_is_query_only(c: Config)
    ensures
        enabled_queries(c).contains(ConnectorKind::Gmail) <==> c.google_credentials_json is Some,
        !enabled_mutations(c).contains(ConnectorKind::Gmail),
{
    let m = enabled_mutations(c);
    assert forall|i: int| 0 <= i < m.len() implies m[i] != ConnectorKind::Gmail by {
        let a = if c.google_calendar_api_key is Some && c.google_calendar_id is Some {
            seq![ConnectorKind::Calendar]
        } else {
            Seq::empty()
        };
        let b = if c.slack_bot_token is Some {
            seq![ConnectorKind::Slack]
        } else {
            Seq::empty()
        };
        let l = if c.linear_api_key is Some {
            seq![ConnectorKind::Linear]
        } else {
            Seq::empty()
        };
        let t = if c.todoist_api_key is Some {
            seq![ConnectorKind::Todoist]
        } else {
            Seq::empty()
        };
        let w = if c.chatwork_api_token is Some && c.chatwork_room_id is Some {
            seq![ConnectorKind::Chatwork]
        } else {
            Seq::empty()
        };
        assert(m == a + b + l + t + w);
    }
    if c.google_credentials_json is Some {
        let q = enabled_queries(c);
        assert(q[q.len() - 1] == ConnectorKind::Gmail);
    }
}

/// Every connector with write access also has read access.
pub proof fn mutations_are_queries(c: Config, k: ConnectorKind)
    requires
        enabled_mutations(c).contains(k),
    ensures
        enabled_queries(c).contains(k),
{
    let i = choose|i: int| 0 <= i < enabled_mutations(c).len() && enabled_mutations(c)[i] == k;
    assert(enabled_queries(c)[i] == k);
}

/// The index of the first mutation connector whose source name is `source`
/// (the connector a skill writes through).
pub fn mutation_for(mutations: &Vec<ConnectorKind>, source: &str) -> (r: Option<usize>)
    ensures
        match r {
            Some(i) => i < mutations@.len() && kind_name(mutations@[i as int]) == source@
                && forall|j: int| 0 <= j < i ==> kind_name(#[trigger] mutations@[j]) != source@,
            None => forall|j: int| 0 <= j < mutations@.len() ==> kind_name(#[trigger] mutations@[j]) != source@,
        },
{
    let mut i: usize = 0;
    while i < mutations.len()
        invariant
            i <= mutations@.len(),
            forall|j: int| 0 <= j < i ==> kind_name(#[trigger] mutations@[j]) != source@,
        decreases mutations.len() - i,
    {
        if str_eq(mutations[i].source_name(), source) {
            return Some(i);
        }
        i = i + 1;
    }
    None
}

} // verus!
