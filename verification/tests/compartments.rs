use modsecurity::collection::backend::memory::InMemoryPerProcess;
use modsecurity::collection::{compose_key, Collection};
use modsecurity::variables::exclusion::KeyExclusions;
use modsecurity::variables::value::VariableValue;

fn s(text: &str) -> String {
    text.to_string()
}

fn values_of(l: &Vec<VariableValue>) -> Vec<String> {
    l.iter().map(|v| v.get_value().to_string()).collect()
}

#[test]
fn compose_key_joins_with_two_colons() {
    assert_eq!(compose_key("c", "k"), "c::k");
    assert_eq!(compose_key("", ""), "::");
    assert_eq!(compose_key("a", compose_key("b", "k").as_str()), "a::b::k");
}

#[test]
fn compartment_store_is_seen_only_through_the_compartment() {
    let mut c = InMemoryPerProcess::new("IP");
    c.store_with_compartment(s("k"), s("v"), s("c1"));
    assert_eq!(c.resolve_first("k"), None);
    assert_eq!(c.resolve_first_with_compartment(s("k"), s("c1")), Some(s("v")));
    assert_eq!(c.resolve_first_with_compartment(s("k"), s("c2")), None);
    assert_eq!(c.resolve_first("c1::k"), Some(s("v")));
}

#[test]
fn two_compartments_compose_both_names() {
    let mut c = InMemoryPerProcess::new("IP");
    c.store_with_compartments(s("k"), s("v"), s("a"), s("b"));
    assert_eq!(c.resolve_first("a::b::k"), Some(s("v")));
    assert_eq!(c.resolve_first_with_compartments(s("k"), s("a"), s("b")), Some(s("v")));
    assert_eq!(c.resolve_first_with_compartment(s("k"), s("a")), None);
    assert_eq!(c.resolve_first_with_compartments(s("k"), s("b"), s("a")), None);
}

#[test]
fn compartment_update_and_delete() {
    let mut c = InMemoryPerProcess::new("IP");
    assert!(!c.update_first_with_compartment(s("k"), s("v"), s("c")));
    assert!(c.store_or_update_first_with_compartment(s("k"), s("v1"), s("c")));
    assert!(c.store_or_update_first_with_compartment(s("k"), s("v2"), s("c")));
    assert!(c.update_first_with_compartment(s("k"), s("v3"), s("c")));
    let mut l = Vec::new();
    c.resolve_single_match_with_compartment(s("k"), s("c"), &mut l);
    assert_eq!(values_of(&l), vec!["v3"]);
    assert_eq!(l[0].get_key(), "c::k");
    c.del_with_compartment(s("k"), s("c"));
    assert_eq!(c.resolve_first_with_compartment(s("k"), s("c")), None);

    assert!(c.store_or_update_first_with_compartments(s("k"), s("w1"), s("a"), s("b")));
    assert!(c.update_first_with_compartments(s("k"), s("w2"), s("a"), s("b")));
    let mut l = Vec::new();
    c.resolve_single_match_with_compartments(s("k"), s("a"), s("b"), &mut l);
    assert_eq!(values_of(&l), vec!["w2"]);
    c.del_with_compartments(s("k"), s("a"), s("b"));
    assert_eq!(c.resolve_first("a::b::k"), None);
}

#[test]
fn compartment_multi_matches_and_patterns() {
    let mut c = InMemoryPerProcess::new("IP");
    c.store_with_compartment(s("k"), s("v1"), s("c"));
    c.store_with_compartment(s("k"), s("v2"), s("c"));
    c.store_with_compartments(s("k"), s("w"), s("a"), s("b"));
    c.store(s("k"), s("bare"));
    let none = KeyExclusions::new();
    let mut l = Vec::new();
    c.resolve_multi_matches_with_compartment(s("k"), s("c"), &mut l, &none);
    assert_eq!(values_of(&l), vec!["v2", "v1"]);
    let mut l = Vec::new();
    c.resolve_multi_matches_with_compartments(s("k"), s("a"), s("b"), &mut l, &none);
    assert_eq!(values_of(&l), vec!["w"]);
    let mut l = Vec::new();
    c.resolve_regular_expression_with_compartment(s("k"), s("c"), &mut l, &none);
    assert_eq!(values_of(&l), vec!["v2", "v1"]);
    let mut l = Vec::new();
    c.resolve_regular_expression_with_compartments(s("k"), s("a"), s("b"), &mut l, &none);
    assert_eq!(values_of(&l), vec!["w"]);
}

#[test]
fn separator_inside_a_component_is_not_escaped() {
    let mut c = InMemoryPerProcess::new("IP");
    c.store_with_compartment(s("b::k"), s("v"), s("a"));
    assert_eq!(c.resolve_first_with_compartments(s("k"), s("a"), s("b")), Some(s("v")));
}
