use wekan_cli::artifact::{Artifact, AType};
use wekan_cli::store::{
    compare_age, composite_key, freshness_window_minutes, is_fresh_at, judge_lookup,
    store_file_name, unique_identifier, CacheDecision, Entry,
};
use wekan_cli::timeutil::parse_timestamp;

fn payload() -> Vec<Artifact> {
    vec![Artifact {
        _id: String::from("cached-id"),
        title: String::from("cached-title"),
        kind: AType::Card,
    }]
}

fn entry(age: &str) -> Entry<Vec<Artifact>> {
    Entry::new(age.to_string(), String::from("b1_l1"), payload())
}

// One day past the epoch, in seconds.
const DAY: i64 = 86400;

#[test]
fn parse_timestamp_reads_a_known_instant() {
    assert_eq!(parse_timestamp("1970-01-02T00:00:00Z"), Some(DAY));
    assert_eq!(parse_timestamp("not a timestamp"), None);
}

#[test]
fn windows_follow_mutation_frequency() {
    assert_eq!(freshness_window_minutes(&AType::Board), 60);
    assert_eq!(freshness_window_minutes(&AType::List), 15);
    assert_eq!(freshness_window_minutes(&AType::Swimlane), 20);
    assert_eq!(freshness_window_minutes(&AType::Checklist), 15);
    assert_eq!(freshness_window_minutes(&AType::Card), 5);
    assert!(freshness_window_minutes(&AType::Card) < freshness_window_minutes(&AType::List));
    assert!(freshness_window_minutes(&AType::List) < freshness_window_minutes(&AType::Board));
}

#[test]
fn fresh_entry_is_served_unchanged() {
    // A card entry one day past the epoch, asked for just inside its
    // five-minute window.
    match judge_lookup(&AType::Card, Some(entry("1970-01-02T00:00:00Z")), DAY + 299) {
        CacheDecision::UseCached(v) => {
            assert_eq!(v.len(), 1);
            assert_eq!(v[0]._id, "cached-id");
            assert_eq!(v[0].title, "cached-title");
        }
        CacheDecision::Refetch => panic!("a fresh entry was refetched"),
    }
}

#[test]
fn expired_entry_is_refetched() {
    match judge_lookup(&AType::Card, Some(entry("1970-01-02T00:00:00Z")), DAY + 301) {
        CacheDecision::UseCached(_) => panic!("a stale entry was served"),
        CacheDecision::Refetch => {}
    }
}

#[test]
fn window_edge_still_serves() {
    match judge_lookup(&AType::Card, Some(entry("1970-01-02T00:00:00Z")), DAY + 300) {
        CacheDecision::UseCached(_) => {}
        CacheDecision::Refetch => panic!("the edge of the window was refetched"),
    }
}

#[test]
fn unparseable_age_is_a_miss() {
    match judge_lookup(&AType::Card, Some(entry("yesterday-ish")), DAY) {
        CacheDecision::UseCached(_) => panic!("an unparseable age was served"),
        CacheDecision::Refetch => {}
    }
}

#[test]
fn freshly_stamped_entry_is_served_against_the_clock() {
    let age = chrono::Utc::now().to_rfc3339();
    match compare_age(
        &AType::Board,
        Some(Entry::new(age, String::from("k"), payload())),
    ) {
        CacheDecision::UseCached(v) => assert_eq!(v[0]._id, "cached-id"),
        CacheDecision::Refetch => panic!("a just-written entry was judged stale"),
    }
}

#[test]
fn missing_entry_is_a_miss() {
    match judge_lookup(&AType::Card, None, DAY) {
        CacheDecision::UseCached(_) => panic!("a missing entry was served"),
        CacheDecision::Refetch => {}
    }
}

#[test]
fn board_window_outlasts_card_window() {
    let age = parse_timestamp("1970-01-02T00:00:00Z").unwrap();
    let one_hour_on = DAY + 3600;
    assert!(is_fresh_at(&AType::Board, age, one_hour_on));
    assert!(!is_fresh_at(&AType::Card, age, one_hour_on));
}

#[test]
fn composite_key_joins_ancestors() {
    assert_eq!(composite_key(Some("b1"), Some("l2")), "b1_l2");
    assert_eq!(composite_key(Some("b1"), None), "b1");
    assert_eq!(composite_key(None, None), "");
    assert_eq!(composite_key(None, Some("l2")), "");
}

#[test]
fn store_file_names() {
    assert_eq!(store_file_name(&AType::Board, ""), "boards");
    assert_eq!(store_file_name(&AType::List, "b1"), "list_b1");
    assert_eq!(store_file_name(&AType::Card, "b1_l2"), "card_b1_l2");
}

#[test]
fn unique_identifier_joins_kind_and_id() {
    let a = Artifact {
        _id: String::from("x1"),
        title: String::from("t"),
        kind: AType::Swimlane,
    };
    assert_eq!(unique_identifier(&a), "swimlane_x1");
}
