use modsecurity::collection::backend::memory::InMemoryPerProcess;
use modsecurity::collection::Collection;
use modsecurity::variables::exclusion::KeyExclusions;
use modsecurity::variables::value::VariableValue;

fn values(l: &Vec<VariableValue>) -> Vec<String> {
    l.iter().map(|v| v.get_value().to_string()).collect()
}

fn keys(l: &Vec<VariableValue>) -> Vec<String> {
    l.iter().map(|v| v.get_key().to_string()).collect()
}

#[test]
fn store_then_resolve_first_on_new_key() {
    let mut c = InMemoryPerProcess::new("IP");
    c.store("k".to_string(), "v".to_string());
    assert_eq!(c.resolve_first("k"), Some("v".to_string()));
}

#[test]
fn store_on_existing_key_keeps_the_earliest_first() {
    let mut c = InMemoryPerProcess::new("IP");
    c.store("k".to_string(), "v1".to_string());
    c.store("k".to_string(), "v2".to_string());
    assert_eq!(c.resolve_first("k"), Some("v1".to_string()));
}

#[test]
fn resolve_first_of_absent_key_is_none() {
    let c = InMemoryPerProcess::new("IP");
    assert_eq!(c.resolve_first("k"), None);
}

#[test]
fn scenario_ip_collection_store_and_update_first() {
    let mut c = InMemoryPerProcess::new("IP");
    c.store("1.2.3.4".to_string(), "req1".to_string());
    c.store("1.2.3.4".to_string(), "req2".to_string());
    let mut l = Vec::new();
    c.resolve_single_match("1.2.3.4", &mut l);
    assert_eq!(values(&l), vec!["req1", "req2"]);
    assert!(c.update_first("1.2.3.4", "req1-upd"));
    let mut l = Vec::new();
    c.resolve_single_match("1.2.3.4", &mut l);
    assert_eq!(values(&l), vec!["req1-upd", "req2"]);
}

#[test]
fn resolve_single_match_appends_behind_what_is_there() {
    let mut c = InMemoryPerProcess::new("IP");
    c.store("k".to_string(), "a".to_string());
    c.store("k".to_string(), "b".to_string());
    let mut l = vec![VariableValue::new("x", Some("old"))];
    c.resolve_single_match("k", &mut l);
    assert_eq!(values(&l), vec!["old", "a", "b"]);
    assert_eq!(l[1].get_collection(), "IP");
    assert_eq!(l[1].get_key(), "k");
    assert_eq!(l[1].get_key_with_collection(), "IP:k");
    assert!(l[1].get_origin().is_empty());
}

#[test]
fn update_first_of_absent_key_changes_nothing() {
    let mut c = InMemoryPerProcess::new("IP");
    c.store("a".to_string(), "1".to_string());
    assert!(!c.update_first("b", "2"));
    assert_eq!(c.resolve_first("b"), None);
    assert_eq!(c.resolve_first("a"), Some("1".to_string()));
}

#[test]
fn update_first_keeps_the_count_and_the_later_values() {
    let mut c = InMemoryPerProcess::new("IP");
    c.store("k".to_string(), "v1".to_string());
    c.store("k".to_string(), "v2".to_string());
    c.store("k".to_string(), "v3".to_string());
    assert!(c.update_first("k", "new"));
    let mut l = Vec::new();
    c.resolve_single_match("k", &mut l);
    assert_eq!(values(&l), vec!["new", "v2", "v3"]);
}

#[test]
fn store_or_update_first_creates_then_updates_in_place() {
    let mut c = InMemoryPerProcess::new("SESSION");
    assert!(c.store_or_update_first("k", "v1"));
    let mut l = Vec::new();
    c.resolve_single_match("k", &mut l);
    assert_eq!(values(&l), vec!["v1"]);
    assert!(c.store_or_update_first("k", "v2"));
    assert!(c.store_or_update_first("k", "v3"));
    let mut l = Vec::new();
    c.resolve_single_match("k", &mut l);
    assert_eq!(values(&l), vec!["v3"]);
}

#[test]
fn del_removes_every_value_of_the_key() {
    let mut c = InMemoryPerProcess::new("USER");
    c.store("k".to_string(), "v1".to_string());
    c.store("k".to_string(), "v2".to_string());
    c.store("other".to_string(), "x".to_string());
    c.del("k");
    assert_eq!(c.resolve_first("k"), None);
    let mut l = Vec::new();
    c.resolve_multi_matches("", &mut l, &KeyExclusions::new());
    assert_eq!(keys(&l), vec!["other"]);
    let mut l = Vec::new();
    c.resolve_single_match("k", &mut l);
    assert!(l.is_empty());
}

#[test]
fn del_of_absent_key_changes_nothing() {
    let mut c = InMemoryPerProcess::new("USER");
    c.store("a".to_string(), "1".to_string());
    c.del("b");
    assert_eq!(c.resolve_first("a"), Some("1".to_string()));
}

#[test]
fn a_key_stored_again_after_del_comes_last_in_the_scan() {
    let mut c = InMemoryPerProcess::new("USER");
    c.store("a".to_string(), "1".to_string());
    c.store("b".to_string(), "2".to_string());
    c.del("a");
    c.store("a".to_string(), "3".to_string());
    let mut l = Vec::new();
    c.resolve_multi_matches("", &mut l, &KeyExclusions::new());
    assert_eq!(values(&l), vec!["3", "2"]);
}

#[test]
fn resolve_multi_matches_puts_the_last_scanned_first() {
    let mut c = InMemoryPerProcess::new("GLOBAL");
    c.store("a".to_string(), "a1".to_string());
    c.store("b".to_string(), "b1".to_string());
    c.store("a".to_string(), "a2".to_string());
    let mut l = vec![VariableValue::new("x", Some("old"))];
    c.resolve_multi_matches("", &mut l, &KeyExclusions::new());
    assert_eq!(values(&l), vec!["b1", "a2", "a1", "old"]);
}

#[test]
fn resolve_multi_matches_with_a_key_reads_that_key_only() {
    let mut c = InMemoryPerProcess::new("GLOBAL");
    c.store("a".to_string(), "a1".to_string());
    c.store("b".to_string(), "b1".to_string());
    c.store("a".to_string(), "a2".to_string());
    let mut l = Vec::new();
    c.resolve_multi_matches("a", &mut l, &KeyExclusions::new());
    assert_eq!(values(&l), vec!["a2", "a1"]);
    let mut l = Vec::new();
    c.resolve_multi_matches("zzz", &mut l, &KeyExclusions::new());
    assert!(l.is_empty());
}

#[test]
fn resolve_multi_matches_with_an_excluded_key_reads_nothing() {
    let mut c = InMemoryPerProcess::new("GLOBAL");
    c.store("a".to_string(), "a1".to_string());
    let mut ke = KeyExclusions::new();
    ke.push_exact("a");
    let mut l = Vec::new();
    c.resolve_multi_matches("a", &mut l, &ke);
    assert!(l.is_empty());
}

#[test]
fn scenario_exact_exclusion_hides_the_secret_key() {
    let mut c = InMemoryPerProcess::new("TX");
    c.store("a".to_string(), "1".to_string());
    c.store("secret".to_string(), "2".to_string());
    let mut ke = KeyExclusions::new();
    ke.push_exact("secret");
    let mut l = Vec::new();
    c.resolve_multi_matches("", &mut l, &ke);
    assert_eq!(keys(&l), vec!["a"]);
    assert_eq!(values(&l), vec!["1"]);
}

#[test]
fn resolve_regular_expression_filters_by_the_key() {
    let mut c = InMemoryPerProcess::new("TX");
    c.store("arg_one".to_string(), "1".to_string());
    c.store("header".to_string(), "2".to_string());
    c.store("arg_two".to_string(), "3".to_string());
    c.store("ARG_three".to_string(), "4".to_string());
    let mut l = Vec::new();
    c.resolve_regular_expression("^arg_", &mut l, &KeyExclusions::new());
    assert_eq!(values(&l), vec!["3", "1"]);
    let mut ke = KeyExclusions::new();
    ke.push_pattern("two$");
    let mut l = Vec::new();
    c.resolve_regular_expression("^arg_", &mut l, &ke);
    assert_eq!(values(&l), vec!["1"]);
}

#[test]
fn a_held_guard_drops_writes_and_counts_them() {
    let mut c = InMemoryPerProcess::new("IP");
    c.store("k".to_string(), "v".to_string());
    assert!(c.try_lock());
    assert!(!c.try_lock());
    c.store("k".to_string(), "lost".to_string());
    assert!(!c.update_first("k", "lost"));
    c.del("k");
    assert_eq!(c.dropped_writes(), 3);
    assert_eq!(c.resolve_first("k"), Some("v".to_string()));
    let mut l = Vec::new();
    c.resolve_single_match("k", &mut l);
    assert_eq!(values(&l), vec!["v"]);
    assert!(c.store_or_update_first("k", "lost"));
    assert_eq!(c.dropped_writes(), 5);
    c.unlock();
    c.store("k".to_string(), "kept".to_string());
    assert_eq!(c.dropped_writes(), 5);
    let mut l = Vec::new();
    c.resolve_single_match("k", &mut l);
    assert_eq!(values(&l), vec!["v", "kept"]);
}

#[test]
fn new_collection_has_its_name_and_a_free_guard() {
    let mut c = InMemoryPerProcess::new("RESOURCE");
    assert_eq!(c.name(), "RESOURCE");
    assert_eq!(c.dropped_writes(), 0);
    assert!(c.try_lock());
}

#[test]
fn nameless_collection_reports_the_bare_key() {
    let mut c = InMemoryPerProcess::new("");
    c.store("k".to_string(), "v".to_string());
    let mut l = Vec::new();
    c.resolve_single_match("k", &mut l);
    assert_eq!(l[0].get_key_with_collection(), "k");
}

#[test]
fn the_empty_key_is_a_key_like_any_other_for_single_reads() {
    let mut c = InMemoryPerProcess::new("IP");
    c.store("".to_string(), "v".to_string());
    c.store("k".to_string(), "w".to_string());
    assert_eq!(c.resolve_first(""), Some("v".to_string()));
    let mut l = Vec::new();
    c.resolve_single_match("", &mut l);
    assert_eq!(values(&l), vec!["v"]);
    let mut l = Vec::new();
    c.resolve_multi_matches("", &mut l, &KeyExclusions::new());
    assert_eq!(values(&l), vec!["w", "v"]);
}

#[test]
fn keys_are_compared_character_for_character() {
    let mut c = InMemoryPerProcess::new("IP");
    c.store("Key".to_string(), "upper".to_string());
    c.store("key".to_string(), "lower".to_string());
    c.store("kéy".to_string(), "accent".to_string());
    assert_eq!(c.resolve_first("Key"), Some("upper".to_string()));
    assert_eq!(c.resolve_first("key"), Some("lower".to_string()));
    assert_eq!(c.resolve_first("kéy"), Some("accent".to_string()));
    assert_eq!(c.resolve_first("KEY"), None);
}

#[test]
fn equal_values_under_one_key_are_all_kept() {
    let mut c = InMemoryPerProcess::new("IP");
    c.store("k".to_string(), "v".to_string());
    c.store("k".to_string(), "v".to_string());
    let mut l = Vec::new();
    c.resolve_single_match("k", &mut l);
    assert_eq!(values(&l), vec!["v", "v"]);
}
