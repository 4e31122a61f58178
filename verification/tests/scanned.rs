use modsecurity::collection::backend::durable::{append_values, pair_with_key, storable_key};
use modsecurity::collection::model::{append_record, key_is_kept, prepend_record, prepend_scanned};
use modsecurity::variables::exclusion::KeyExclusions;
use modsecurity::variables::pattern::Pattern;
use modsecurity::variables::value::VariableValue;

fn values(l: &Vec<VariableValue>) -> Vec<String> {
    l.iter().map(|v| v.get_value().to_string()).collect()
}

#[test]
fn append_values_puts_them_behind_in_order() {
    let read = vec!["req1".to_string(), "req2".to_string()];
    let mut l = vec![VariableValue::new("x", Some("old"))];
    append_values("IP", "1.2.3.4", &read, &mut l);
    assert_eq!(values(&l), vec!["old", "req1", "req2"]);
    assert_eq!(l[2].get_key(), "1.2.3.4");
    assert_eq!(l[2].get_key_with_collection(), "IP:1.2.3.4");
    append_values("IP", "k", &Vec::new(), &mut l);
    assert_eq!(l.len(), 3);
}

#[test]
fn pair_with_key_keeps_the_order_of_the_values() {
    let pairs = pair_with_key("k", vec!["1".to_string(), "2".to_string()]);
    assert_eq!(
        pairs,
        vec![("k".to_string(), "1".to_string()), ("k".to_string(), "2".to_string())]
    );
    assert!(pair_with_key("k", Vec::new()).is_empty());
}

#[test]
fn values_of_one_key_are_prepended_unless_excluded() {
    let pairs = pair_with_key("k", vec!["1".to_string(), "2".to_string()]);
    let mut l = Vec::new();
    prepend_scanned("IP", &pairs, &KeyExclusions::new(), None, &mut l);
    assert_eq!(values(&l), vec!["2", "1"]);
    let mut ke = KeyExclusions::new();
    ke.push_exact("k");
    prepend_scanned("IP", &pairs, &ke, None, &mut l);
    assert_eq!(values(&l), vec!["2", "1"]);
}

#[test]
fn single_records_go_to_the_front_or_to_the_back() {
    let mut l = vec![VariableValue::new("x", Some("old"))];
    prepend_record("IP", "k", "front", &mut l);
    append_record("IP", "k", "back", &mut l);
    assert_eq!(values(&l), vec!["front", "old", "back"]);
}

#[test]
fn key_is_kept_asks_exclusions_and_pattern() {
    let mut ke = KeyExclusions::new();
    ke.push_exact("secret");
    let p = Pattern::parse("^s");
    assert!(key_is_kept("a", &ke, None));
    assert!(!key_is_kept("secret", &ke, None));
    assert!(!key_is_kept("a", &ke, Some(&p)));
    assert!(key_is_kept("sa", &ke, Some(&p)));
    assert!(!key_is_kept("secret", &ke, Some(&p)));
}

#[test]
fn the_durable_store_takes_every_key_but_the_empty_one() {
    assert!(!storable_key(""));
    assert!(storable_key("k"));
    assert!(storable_key(" "));
    assert!(storable_key("c::k"));
    assert!(storable_key("é"));
}
