use anima_flow::context::{
    count_entity_matches, estimate_tokens, estimate_total_tokens, id_before, merge_candidates,
    seed_ids, type_bonus_applies,
};
use anima_flow::json::JsonValue;
use anima_flow::time::UtcTime;
use anima_flow::types::Node;

fn node(id: &str, title: &str, content: Option<&str>) -> Node {
    Node {
        id: id.to_string(),
        user_id: None,
        node_type: "space".to_string(),
        category: "gtd".to_string(),
        title: title.to_string(),
        content: content.map(|c| c.to_string()),
        metadata: JsonValue::Object(Vec::new()),
        access_count: 0,
        created_at: UtcTime { secs: 0, nanos: 0 },
        updated_at: UtcTime { secs: 0, nanos: 0 },
    }
}

#[test]
fn ids_order_as_strings() {
    assert!(id_before("a", "b"));
    assert!(id_before("ab", "abc"));
    assert!(!id_before("abc", "ab"));
    assert!(!id_before("same", "same"));
    assert!(id_before("01HZ", "01J0"));
    assert!(id_before("", "x"));
}

#[test]
fn merge_sorts_and_keeps_first_of_each_id() {
    let candidates = vec![
        node("c", "third", None),
        node("a", "first", None),
        node("c", "third again", None),
        node("b", "second", None),
        node("a", "first again", None),
    ];
    let merged = merge_candidates(candidates);
    let ids: Vec<&str> = merged.iter().map(|n| n.id.as_str()).collect();
    assert_eq!(ids, vec!["a", "b", "c"]);
    let titles: Vec<&str> = merged.iter().map(|n| n.title.as_str()).collect();
    assert_eq!(titles, vec!["first", "second", "third"]);
}

#[test]
fn merge_of_nothing_is_nothing() {
    assert!(merge_candidates(Vec::new()).is_empty());
}

#[test]
fn merge_is_idempotent() {
    let once = merge_candidates(vec![
        node("b", "x", None),
        node("a", "y", None),
        node("b", "z", None),
    ]);
    let ids_once: Vec<String> = once.iter().map(|n| n.id.clone()).collect();
    let twice = merge_candidates(once);
    let ids_twice: Vec<String> = twice.iter().map(|n| n.id.clone()).collect();
    assert_eq!(ids_once, ids_twice);
}

#[test]
fn seeds_are_the_ids_in_order() {
    let c = vec![node("x", "t", None), node("y", "t", None), node("x", "t", None)];
    assert_eq!(seed_ids(&c), vec!["x".to_string(), "y".to_string(), "x".to_string()]);
}

#[test]
fn token_estimates() {
    // 8 bytes of title and 8 of content: 16 / 4.
    assert_eq!(estimate_tokens(&node("1", "abcdefgh", Some("ijklmnop"))), 4);
    // 7 bytes: rounds down.
    assert_eq!(estimate_tokens(&node("1", "abcdefg", None)), 1);
    // Bytes, not characters: "日本" is 6 bytes.
    assert_eq!(estimate_tokens(&node("1", "日本", Some("ab"))), 2);
    let nodes = vec![
        node("1", "abcdefgh", Some("ijklmnop")),
        node("2", "abcdefg", None),
        node("3", "日本", Some("ab")),
    ];
    assert_eq!(estimate_total_tokens(&nodes), 7);
    assert_eq!(estimate_total_tokens(&Vec::new()), 0);
}

#[test]
fn entity_matches_ignore_case() {
    let entities = vec!["Alice".to_string(), "project x".to_string(), "bob".to_string()];
    assert_eq!(count_entity_matches("Meeting with ALICE about Project X", &entities), 2);
    assert_eq!(count_entity_matches("nothing here", &entities), 0);
    assert_eq!(count_entity_matches("anything", &Vec::new()), 0);
}

#[test]
fn type_bonus_by_intent() {
    assert!(type_bonus_applies("task_check", "space"));
    assert!(type_bonus_applies("task_check", "daily"));
    assert!(type_bonus_applies("contact", "person"));
    assert!(type_bonus_applies("contact", "episode"));
    assert!(type_bonus_applies("procedure", "procedure"));
    assert!(type_bonus_applies("review", "episode"));
    assert!(type_bonus_applies("review", "daily"));
    assert!(type_bonus_applies("decision", "decision"));
    assert!(type_bonus_applies("decision", "space"));
    assert!(!type_bonus_applies("decision", "person"));
    assert!(!type_bonus_applies("general", "space"));
}
