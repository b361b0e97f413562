use anima_flow::config::{env_lookup, Config};
use anima_flow::error::Error;
use anima_flow::id::generate;
use anima_flow::json::{str_eq, JsonValue};
use anima_flow::text::{
    contains, decimal_string, join, parse_i64, parse_usize, strip_prefix, take_chars, trim,
};
use anima_flow::time::{parse_time_or, UtcTime, MAX_UTC_SECS, MIN_UTC_SECS};
use anima_flow::types::{Category, NodeType, NodeUpdate};

const MODEL: &str = "test-model";

fn env(pairs: &[(&str, &str)]) -> Vec<(String, String)> {
    pairs.iter().map(|(k, v)| (k.to_string(), v.to_string())).collect()
}

#[test]
fn node_type_names() {
    assert_eq!(NodeType::Person.as_str(), "person");
    assert_eq!(NodeType::Space.as_str(), "space");
    assert_eq!(NodeType::Episode.as_str(), "episode");
    assert_eq!(NodeType::Decision.as_str(), "decision");
    assert_eq!(NodeType::Daily.as_str(), "daily");
    assert_eq!(NodeType::Procedure.as_str(), "procedure");
    assert_eq!(NodeType::Domain.as_str(), "domain");
    assert_eq!(NodeType::Learning.as_str(), "learning");
    assert_eq!(NodeType::Inbox.as_str(), "inbox");
    assert_eq!(NodeType::Preference.as_str(), "preference");
    assert_eq!(NodeType::Pattern.as_str(), "pattern");
}

#[test]
fn category_names() {
    assert_eq!(Category::Memory.as_str(), "memory");
    assert_eq!(Category::Knowledge.as_str(), "knowledge");
    assert_eq!(Category::Ssot.as_str(), "ssot");
    assert_eq!(Category::Gtd.as_str(), "gtd");
}

#[test]
fn node_type_names_are_distinct() {
    let all = [
        NodeType::Person,
        NodeType::Space,
        NodeType::Episode,
        NodeType::Decision,
        NodeType::Daily,
        NodeType::Procedure,
        NodeType::Domain,
        NodeType::Learning,
        NodeType::Inbox,
        NodeType::Preference,
        NodeType::Pattern,
    ];
    for (i, a) in all.iter().enumerate() {
        for (j, b) in all.iter().enumerate() {
            assert_eq!(i == j, a.as_str() == b.as_str());
        }
    }
}

#[test]
fn node_update_default_changes_nothing() {
    let u = NodeUpdate::default();
    assert!(u.title.is_none());
    assert!(u.content.is_none());
    assert!(u.metadata.is_none());
}

#[test]
fn config_with_required_values_only() {
    let e = env(&[("DATABASE_URL", "postgres://db"), ("ANTHROPIC_API_KEY", "key")]);
    let c = Config::from_env(&e, MODEL).unwrap();
    assert_eq!(c.database_url, "postgres://db");
    assert_eq!(c.anthropic_api_key, "key");
    assert_eq!(c.anthropic_model, MODEL);
    assert_eq!(c.embedding_dimensions, 1536);
    assert!(c.google_calendar_api_key.is_none());
    assert!(c.slack_bot_token.is_none());
    assert!(c.chatwork_room_id.is_none());
}

#[test]
fn config_reads_every_variable() {
    let e = env(&[
        ("DATABASE_URL", "postgres://db"),
        ("ANTHROPIC_API_KEY", "key"),
        ("ANTHROPIC_MODEL", "other-model"),
        ("EMBEDDING_DIMENSIONS", "768"),
        ("GOOGLE_CALENDAR_API_KEY", "gk"),
        ("GOOGLE_CALENDAR_ID", "gid"),
        ("GOOGLE_CREDENTIALS_JSON", "{}"),
        ("SLACK_BOT_TOKEN", "xoxb"),
        ("LINEAR_API_KEY", "lin"),
        ("TODOIST_API_KEY", "tod"),
        ("CHATWORK_API_TOKEN", "cw"),
        ("CHATWORK_ROOM_ID", "42"),
    ]);
    let c = Config::from_env(&e, MODEL).unwrap();
    assert_eq!(c.anthropic_model, "other-model");
    assert_eq!(c.embedding_dimensions, 768);
    assert_eq!(c.google_calendar_api_key.as_deref(), Some("gk"));
    assert_eq!(c.google_calendar_id.as_deref(), Some("gid"));
    assert_eq!(c.google_credentials_json.as_deref(), Some("{}"));
    assert_eq!(c.slack_bot_token.as_deref(), Some("xoxb"));
    assert_eq!(c.linear_api_key.as_deref(), Some("lin"));
    assert_eq!(c.todoist_api_key.as_deref(), Some("tod"));
    assert_eq!(c.chatwork_api_token.as_deref(), Some("cw"));
    assert_eq!(c.chatwork_room_id.as_deref(), Some("42"));
}

#[test]
fn config_bad_dimensions_fall_back() {
    let e = env(&[
        ("DATABASE_URL", "d"),
        ("ANTHROPIC_API_KEY", "k"),
        ("EMBEDDING_DIMENSIONS", "many"),
    ]);
    assert_eq!(Config::from_env(&e, MODEL).unwrap().embedding_dimensions, 1536);
    let e = env(&[
        ("DATABASE_URL", "d"),
        ("ANTHROPIC_API_KEY", "k"),
        ("EMBEDDING_DIMENSIONS", "-3"),
    ]);
    assert_eq!(Config::from_env(&e, MODEL).unwrap().embedding_dimensions, 1536);
}

#[test]
fn config_missing_database_url() {
    let e = env(&[("ANTHROPIC_API_KEY", "k")]);
    match Config::from_env(&e, MODEL) {
        Err(Error::Config(m)) => assert_eq!(m, "DATABASE_URL is not set"),
        _ => panic!("expected a configuration error"),
    }
    // With both missing, the database URL is reported first.
    match Config::from_env(&Vec::new(), MODEL) {
        Err(Error::Config(m)) => assert_eq!(m, "DATABASE_URL is not set"),
        _ => panic!("expected a configuration error"),
    }
}

#[test]
fn config_missing_api_key() {
    let e = env(&[("DATABASE_URL", "d")]);
    match Config::from_env(&e, MODEL) {
        Err(e) => assert_eq!(e.message(), "config: ANTHROPIC_API_KEY is not set"),
        _ => panic!("expected a configuration error"),
    }
}

#[test]
fn env_lookup_takes_first() {
    let e = env(&[("A", "1"), ("B", "2"), ("A", "3")]);
    assert_eq!(env_lookup(&e, "A").as_deref(), Some("1"));
    assert_eq!(env_lookup(&e, "B").as_deref(), Some("2"));
    assert_eq!(env_lookup(&e, "C"), None);
}

#[test]
fn error_messages() {
    assert_eq!(Error::Db("down".into()).message(), "database: down");
    assert_eq!(Error::Anthropic("429".into()).message(), "anthropic api: 429");
    assert_eq!(
        Error::connector("slack", "no token".into()).message(),
        "connector(slack): no token"
    );
    assert_eq!(Error::Context("empty".into()).message(), "context engine: empty");
    assert_eq!(Error::Config("x".into()).message(), "config: x");
    assert_eq!(Error::Other("plain".into()).message(), "plain");
}

#[test]
fn generated_ids_are_ulids() {
    let a = generate();
    let b = generate();
    assert_eq!(a.chars().count(), 26);
    assert!(a
        .chars()
        .all(|c| c.is_ascii_digit() || (c.is_ascii_uppercase() && !"ILOU".contains(c))));
    assert_ne!(a, b);
}

#[test]
fn trim_removes_outer_white_space() {
    assert_eq!(trim("  hello world \n"), "hello world");
    assert_eq!(trim("\t\r\n"), "");
    assert_eq!(trim(""), "");
    assert_eq!(trim("a"), "a");
    assert_eq!(trim("\u{3000}全角\u{3000}"), "全角");
}

#[test]
fn take_chars_counts_characters() {
    assert_eq!(take_chars("hello", 3), "hel");
    assert_eq!(take_chars("hello", 10), "hello");
    assert_eq!(take_chars("日本語テキスト", 3), "日本語");
    assert_eq!(take_chars("", 3), "");
}

#[test]
fn contains_and_strip_prefix() {
    assert!(contains("hello world", "o w"));
    assert!(contains("abc", ""));
    assert!(!contains("abc", "abcd"));
    assert!(!contains("abc", "ac"));
    assert_eq!(strip_prefix("/breakdown task", "/breakdown ").as_deref(), Some("task"));
    assert_eq!(strip_prefix("/break", "/breakdown "), None);
    assert_eq!(strip_prefix("abc", "").as_deref(), Some("abc"));
}

#[test]
fn join_with_separator() {
    let parts = vec!["a".to_string(), "b".to_string(), "c".to_string()];
    assert_eq!(join(&parts, ", "), "a, b, c");
    assert_eq!(join(&Vec::new(), ", "), "");
    assert_eq!(join(&vec!["only".to_string()], "\n"), "only");
}

#[test]
fn decimal_text() {
    assert_eq!(decimal_string(0), "0");
    assert_eq!(decimal_string(7), "7");
    assert_eq!(decimal_string(1234567890), "1234567890");
    assert_eq!(decimal_string(u64::MAX), u64::MAX.to_string());
}

#[test]
fn parse_numbers() {
    assert_eq!(parse_usize("1536"), Some(1536));
    assert_eq!(parse_usize("+7"), Some(7));
    assert_eq!(parse_usize(""), None);
    assert_eq!(parse_usize("12a"), None);
    assert_eq!(parse_usize("-1"), None);
    assert_eq!(parse_usize("99999999999999999999999"), None);
    assert_eq!(parse_i64("1700000000"), Some(1700000000));
    assert_eq!(parse_i64("-42"), Some(-42));
    assert_eq!(parse_i64("-9223372036854775808"), Some(i64::MIN));
    assert_eq!(parse_i64("9223372036854775808"), None);
    assert_eq!(parse_i64("-"), None);
}

#[test]
fn string_equality() {
    assert!(str_eq("abc", "abc"));
    assert!(!str_eq("abc", "abd"));
}

#[test]
fn json_field_access() {
    let v = JsonValue::Object(vec![
        ("status".to_string(), JsonValue::Str("open".to_string())),
        ("ok".to_string(), JsonValue::Bool(true)),
        ("n".to_string(), JsonValue::Number("3".to_string())),
    ]);
    assert_eq!(v.str_field("status").as_deref(), Some("open"));
    assert_eq!(v.str_field("ok"), None);
    assert_eq!(v.str_field_or_empty("missing"), "");
    assert_eq!(v.bool_field("ok"), Some(true));
    assert_eq!(v.bool_field("status"), None);
    assert!(v.get("n").is_some());
    assert!(JsonValue::Null.get("n").is_none());
}

#[test]
fn json_with_field_replaces_or_appends() {
    let v = JsonValue::Object(vec![("a".to_string(), JsonValue::Str("1".to_string()))]);
    let v = v.with_field("a", JsonValue::text("2"));
    let v = v.with_field("b", JsonValue::text("3"));
    assert_eq!(v.str_field("a").as_deref(), Some("2"));
    assert_eq!(v.str_field("b").as_deref(), Some("3"));
    match v {
        JsonValue::Object(fields) => assert_eq!(fields.len(), 2),
        _ => panic!("expected an object"),
    }
}

#[test]
fn times_parse_or_fall_back() {
    let now = UtcTime { secs: 5, nanos: 0 };
    let t = parse_time_or("2024-01-02T03:04:05Z", now);
    assert_eq!(t, UtcTime { secs: 1704164645, nanos: 0 });
    assert_eq!(parse_time_or("not a time", now), now);
    assert_eq!(t.date_text().as_deref(), Some("2024-01-02"));
    assert_eq!(t.rfc3339().as_deref(), Some("2024-01-02T03:04:05+00:00"));
    assert_eq!(UtcTime { secs: i64::MAX, nanos: 0 }.rfc3339(), None);
}

#[test]
fn representable_times() {
    let t = |secs: i64, nanos: u32| UtcTime { secs, nanos }.rfc3339().is_some();
    assert!(t(MIN_UTC_SECS, 0));
    assert!(!t(MIN_UTC_SECS - 1, 0));
    assert!(t(MAX_UTC_SECS, 999_999_999));
    assert!(!t(MAX_UTC_SECS + 1, 0));
    assert!(t(0, 999_999_999));
    // A leap second only in the last second of a minute.
    assert!(t(59, 1_500_000_000));
    assert!(!t(58, 1_500_000_000));
    assert!(t(-1, 1_500_000_000));
    assert!(!t(59, 2_000_000_000));
    assert_eq!(UtcTime { secs: MIN_UTC_SECS, nanos: 0 }.date_text().as_deref(), Some("-262143-01-01"));
    assert_eq!(UtcTime { secs: MAX_UTC_SECS, nanos: 0 }.date_text().as_deref(), Some("+262142-12-31"));
}

#[test]
fn stored_names_read_back() {
    let all = [
        NodeType::Person,
        NodeType::Space,
        NodeType::Episode,
        NodeType::Decision,
        NodeType::Daily,
        NodeType::Procedure,
        NodeType::Domain,
        NodeType::Learning,
        NodeType::Inbox,
        NodeType::Preference,
        NodeType::Pattern,
    ];
    for t in all {
        assert_eq!(NodeType::from_name(t.as_str()), Some(t));
    }
    assert_eq!(NodeType::from_name("Person"), None);
    assert_eq!(NodeType::from_name(""), None);
    for c in [Category::Memory, Category::Knowledge, Category::Ssot, Category::Gtd] {
        assert_eq!(Category::from_name(c.as_str()), Some(c));
    }
    assert_eq!(Category::from_name("ssot "), None);
}
