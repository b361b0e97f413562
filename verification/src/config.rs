//! The agent's configuration, read from environment variables.
use vstd::prelude::*;
use crate::error::Error;
use crate::json::str_eq;
use crate::text::{parse_usize, parse_unsigned_spec};
use crate::types::opt_view;

verus! {

/// The agent's configuration.
#[derive(Clone, Debug)]
pub struct Config {
    pub database_url: String,
    pub anthropic_api_key: String,
    pub anthropic_model: String,
    pub embedding_dimensions: usize,
    pub google_calendar_api_key: Option<String>,
    pub google_calendar_id: Option<String>,
    pub google_credentials_json: Option<String>,
    pub slack_bot_token: Option<String>,
    pub linear_api_key: Option<String>,
    pub todoist_api_key: Option<String>,
    pub chatwork_api_token: Option<String>,
    pub chatwork_room_id: Option<String>,
}

/// The value of the environment variable `key` among `(name, value)` pairs.
pub open spec fn env_var(env: Seq<(String, String)>, key: Seq<char>) -> Option<Seq<char>>
    decreases env.len(),
{
    if env.len() == 0 {
        None
    } else if env[0].0@ == key {
        Some(env[0].1@)
    } else {
        env_var(env.drop_first(), key)
    }
}

/// The embedding dimensions: the value of `EMBEDDING_DIMENSIONS` when it
/// parses as a `usize`, 1536 otherwise.
pub open spec fn dimensions_from(v: Option<Seq<char>>) -> usize {
    match v {
        Some(s) => match parse_unsigned_spec(s, usize::MAX as nat) {
            Some(n) => n as usize,
            None => 1536,
        },
        None => 1536,
    }
}

/// The message of the error for a required variable that is missing.
pub open spec fn missing_message(key: Seq<char>) -> Seq<char> {
    key + " is not set"@
}

/// The configuration read from `env` is this one, where `default_model` is the
/// model used when `ANTHROPIC_MODEL` is not set.
pub open spec fn config_matches(c: Config, env: Seq<(String, String)>, default_model: Seq<char>) -> bool {
    &&& env_var(env, "DATABASE_URL"@) == Some(c.database_url@)
    &&& env_var(env, "ANTHROPIC_API_KEY"@) == Some(c.anthropic_api_key@)
    &&& c.anthropic_model@ == match env_var(env, "ANTHROPIC_MODEL"@) {
        Some(m) => m,
        None => default_model,
    }
    &&& c.embedding_dimensions == dimensions_from(env_var(env, "EMBEDDING_DIMENSIONS"@))
    &&& opt_view(c.google_calendar_api_key) == env_var(env, "GOOGLE_CALENDAR_API_KEY"@)
    &&& opt_view(c.google_calendar_id) == env_var(env, "GOOGLE_CALENDAR_ID"@)
    &&& opt_view(c.google_credentials_json) == env_var(env, "GOOGLE_CREDENTIALS_JSON"@)
    &&& opt_view(c.slack_bot_token) == env_var(env, "SLACK_BOT_TOKEN"@)
    &&& opt_view(c.linear_api_key) == env_var(env, "LINEAR_API_KEY"@)
    &&& opt_view(c.todoist_api_key) == env_var(env, "TODOIST_API_KEY"@)
    &&& opt_view(c.chatwork_api_token) == env_var(env, "CHATWORK_API_TOKEN"@)
    &&& opt_view(c.chatwork_room_id) == env_var(env, "CHATWORK_ROOM_ID"@)
}

/// The value of the variable `key`.
pub fn env_lookup(env: &Vec<(String, String)>, key: &str) -> (r: Option<String>)
    ensures
        opt_view(r) == env_var(env@, key@),
{
    let mut i: usize = 0;
    assert(env@.skip(0) == env@);
    while i < env.len()
        invariant
            i <= env@.len(),
            env_var(env@, key@) == env_var(env@.skip(i as int), key@),
        decreases env.len() - i,
    {
        assert(env@.skip(i as int).drop_first() == env@.skip(i + 1));
        if str_eq(env[i].0.as_str(), key) {
            return Some(env[i].1.clone());
        }
        i = i + 1;
    }
    None
}

/// The value of a required variable, or the error that names it.
fn env_required(env: &Vec<(String, String)>, key: &str) -> (r: Result<String, Error>)
    ensures
        match r {
            Ok(v) => env_var(env@, key@) == Some(v@),
            Err(e) => env_var(env@, key@) is None && (e matches Error::Config(m) && m@
                == missing_message(key@)),
        },
{
    match env_lookup(env, key) {
        Some(v) => Ok(v),
        None => {
            let mut m = key.to_owned();
            m.append(" is not set");
            Err(Error::Config(m))
        },
    }
}

impl Config {
    /// The configuration given by the environment `env` (its `(name, value)`
    /// pairs). `DATABASE_URL` and `ANTHROPIC_API_KEY` are required, in that order;
    /// `default_model` is the model used when `ANTHROPIC_MODEL` is not set.
    pub fn from_env(env: &Vec<(String, String)>, default_model: &str) -> (r: Result<Config, Error>)
        ensures
            match r {
                Ok(c) => config_matches(c, env@, default_model@),
                Err(e) => {
                    ||| env_var(env@, "DATABASE_URL"@) is None && (e matches Error::Config(m)
                        && m@ == missing_message("DATABASE_URL"@))
                    ||| env_var(env@, "DATABASE_URL"@) is Some && env_var(
                        env@,
                        "ANTHROPIC_API_KEY"@,
                    ) is None && (e matches Error::Config(m) && m@ == missing_message(
                        "ANTHROPIC_API_KEY"@,
                    ))
                },
            },
    {
        let database_url = env_required(env, "DATABASE_URL")?;
        let anthropic_api_key = env_required(env, "ANTHROPIC_API_KEY")?;
        let anthropic_model = match env_lookup(env, "ANTHROPIC_MODEL") {
            Some(m) => m,
            None => default_model.to_owned(),
        };
        let embedding_dimensions = match env_lookup(env, "EMBEDDING_DIMENSIONS") {
            Some(v) => match parse_usize(v.as_str()) {
                Some(n) => n,
                None => 1536,
            },
            None => 1536,
        };
        Ok(Config {
            database_url,
            anthropic_api_key,
            anthropic_model,
            embedding_dimensions,
            google_calendar_api_key: env_lookup(env, "GOOGLE_CALENDAR_API_KEY"),
            google_calendar_id: env_lookup(env, "GOOGLE_CALENDAR_ID"),
            google_credentials_json: env_lookup(env, "GOOGLE_CREDENTIALS_JSON"),
            slack_bot_token: env_lookup(env, "SLACK_BOT_TOKEN"),
            linear_api_key: env_lookup(env, "LINEAR_API_KEY"),
            todoist_api_key: env_lookup(env, "TODOIST_API_KEY"),
            chatwork_api_token: env_lookup(env, "CHATWORK_API_TOKEN"),
            chatwork_room_id: env_lookup(env, "CHATWORK_ROOM_ID"),
        })
    }
}

} // verus!
