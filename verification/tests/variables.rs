use modsecurity::collection::model::prepend_scanned;
use modsecurity::variables::exclusion::{
    Exclusion, KeyExclusion, KeyExclusionRegex, KeyExclusionString, KeyExclusions,
};
use modsecurity::variables::origin::VariableOrigin;
use modsecurity::variables::pattern::Pattern;
use modsecurity::variables::value::VariableValue;

#[test]
fn origin_to_text_writes_offset_then_length() {
    assert_eq!(VariableOrigin::new_with_props(5, 10).to_text(), "v10,5");
    assert_eq!(VariableOrigin::new().to_text(), "v0,0");
    assert_eq!(VariableOrigin::new_with_props(1234567890, 909).to_text(), "v909,1234567890");
    assert_eq!(
        VariableOrigin::new_with_props(usize::MAX, 7).to_text(),
        format!("v7,{}", usize::MAX)
    );
}

#[test]
fn origin_setters_change_one_field() {
    let mut o = VariableOrigin::new_with_props(3, 4);
    o.set_length(9);
    assert_eq!((o.m_length, o.m_offset), (9, 4));
    o.set_offset(1);
    assert_eq!((o.m_length, o.m_offset), (9, 1));
}

#[test]
fn value_new_without_a_value_is_empty() {
    let v = VariableValue::new("k", None);
    assert_eq!(v.get_key(), "k");
    assert_eq!(v.get_key_with_collection(), "k");
    assert_eq!(v.get_collection(), "");
    assert_eq!(v.get_value(), "");
    assert!(v.get_origin().is_empty());
    assert_eq!(VariableValue::new("k", Some("v")).get_value(), "v");
}

#[test]
fn value_new_with_collection_composes_the_identifier() {
    let v = VariableValue::new_with_collection("IP", "k", "v");
    assert_eq!(v.get_key_with_collection(), "IP:k");
    assert_eq!(v.get_collection(), "IP");
    assert_eq!(v.get_key(), "k");
    assert_eq!(v.get_value(), "v");
    let v = VariableValue::new_with_collection("", "k", "v");
    assert_eq!(v.get_key_with_collection(), "k");
}

#[test]
fn copy_of_a_value_has_its_own_origins() {
    let mut source = VariableValue::new_with_collection("TX", "k", "v");
    source.add_origin(VariableOrigin::new_with_props(1, 2));
    let mut copy = VariableValue::new_from(&source);
    assert_eq!(copy.get_key_with_collection(), "TX:k");
    assert_eq!(copy.get_value(), "v");
    assert_eq!(copy.get_origin().len(), 1);
    assert_eq!(copy.get_origin()[0].to_text(), "v2,1");
    copy.add_origin(VariableOrigin::new_with_props(3, 4));
    copy.set_value("other");
    assert_eq!(source.get_origin().len(), 1);
    assert_eq!(source.get_value(), "v");
    source.add_origin(VariableOrigin::new_with_props(5, 6));
    source.add_origin(VariableOrigin::new_with_props(7, 8));
    assert_eq!(copy.get_origin().len(), 2);
    assert_eq!(copy.get_origin()[1].to_text(), "v4,3");
}

#[test]
fn empty_exclusions_omit_nothing() {
    let ke = KeyExclusions::new();
    assert!(!ke.to_omit("a"));
    assert!(!ke.to_omit(""));
}

#[test]
fn to_omit_holds_when_any_predicate_matches() {
    let mut ke = KeyExclusions::new();
    ke.push_exact("secret");
    ke.push_pattern("^tmp_");
    ke.push(Exclusion::Exact(KeyExclusionString::new("other")));
    assert!(ke.to_omit("secret"));
    assert!(ke.to_omit("tmp_file"));
    assert!(ke.to_omit("other"));
    assert!(!ke.to_omit("Secret"));
    assert!(!ke.to_omit("secret2"));
    assert!(!ke.to_omit("a_tmp_"));
    assert!(!ke.to_omit(""));
}

#[test]
fn single_exclusions_match_alone() {
    assert!(KeyExclusionString::new("k").m_match("k"));
    assert!(!KeyExclusionString::new("k").m_match("kk"));
    assert!(KeyExclusionRegex::new("k").m_match("kk"));
    assert!(!KeyExclusionRegex::new("^k$").m_match("kk"));
    assert!(Exclusion::Pattern(KeyExclusionRegex::new("a.c")).m_match("xabcx"));
}

#[test]
fn pattern_literals_match_anywhere() {
    let p = Pattern::parse("bc");
    assert!(p.is_match("abcd"));
    assert!(p.is_match("bc"));
    assert!(!p.is_match("b"));
    assert!(!p.is_match("cb"));
    assert!(!p.is_match("BC"));
    assert!(Pattern::parse("").is_match(""));
    assert!(Pattern::parse("").is_match("anything"));
}

#[test]
fn pattern_anchors_tie_the_match() {
    assert!(Pattern::parse("^ab").is_match("abc"));
    assert!(!Pattern::parse("^ab").is_match("cab"));
    assert!(Pattern::parse("bc$").is_match("abc"));
    assert!(!Pattern::parse("bc$").is_match("abcd"));
    assert!(Pattern::parse("^abc$").is_match("abc"));
    assert!(!Pattern::parse("^abc$").is_match("abcc"));
    assert!(Pattern::parse("^$").is_match(""));
    assert!(!Pattern::parse("^$").is_match("a"));
    assert!(Pattern::parse("$").is_match("abc"));
    assert!(Pattern::parse("a^").is_match("xa^"));
    assert!(!Pattern::parse("a^").is_match("a"));
    assert!(Pattern::parse("a$b").is_match("a$b"));
}

#[test]
fn pattern_dot_and_star() {
    assert!(Pattern::parse("a.c").is_match("abc"));
    assert!(Pattern::parse("a.c").is_match("a.c"));
    assert!(!Pattern::parse("a.c").is_match("ac"));
    assert!(Pattern::parse("^ab*c$").is_match("ac"));
    assert!(Pattern::parse("^ab*c$").is_match("abbbc"));
    assert!(!Pattern::parse("^ab*c$").is_match("abdc"));
    assert!(Pattern::parse("^a.*z$").is_match("a-anything-z"));
    assert!(Pattern::parse("^a.*z$").is_match("az"));
    assert!(!Pattern::parse("^a.*z$").is_match("a-anything"));
    assert!(Pattern::parse("^a*a$").is_match("aaa"));
    assert!(Pattern::parse("^.*b.*b$").is_match("abab"));
    assert!(!Pattern::parse("^.*b.*b$").is_match("ab"));
    assert!(Pattern::parse("^*a$").is_match("*a"));
    assert!(!Pattern::parse("^*a$").is_match("a"));
}

#[test]
fn pattern_escape_takes_the_next_character_literally() {
    assert!(Pattern::parse("a\\.c").is_match("a.c"));
    assert!(!Pattern::parse("a\\.c").is_match("abc"));
    assert!(Pattern::parse("^a\\*$").is_match("a*"));
    assert!(!Pattern::parse("^a\\*$").is_match("aa"));
    assert!(Pattern::parse("^a\\$").is_match("a$x"));
    assert!(!Pattern::parse("^a\\$").is_match("a"));
    assert!(Pattern::parse("^a\\").is_match("a\\"));
    assert!(Pattern::parse("^\\^").is_match("^"));
    assert!(Pattern::parse("^\\.*$").is_match("..."));
    assert!(!Pattern::parse("^\\.*$").is_match(".a."));
}

#[test]
fn pattern_matches_characters_not_bytes() {
    assert!(Pattern::parse("^R.ga$").is_match("Rīga"));
    assert!(Pattern::parse("ī").is_match("Rīga"));
    let chars: Vec<char> = "Rīga".chars().collect();
    assert!(Pattern::parse("^....$").is_match_chars(&chars));
}

#[test]
fn prepend_scanned_takes_the_pairs_in_their_order() {
    let pairs = vec![
        ("a".to_string(), "1".to_string()),
        ("a".to_string(), "2".to_string()),
        ("secret".to_string(), "3".to_string()),
        ("b".to_string(), "4".to_string()),
    ];
    let mut ke = KeyExclusions::new();
    ke.push_exact("secret");
    let mut l = vec![VariableValue::new("x", Some("old"))];
    prepend_scanned("IP", &pairs, &ke, None, &mut l);
    let got: Vec<String> = l.iter().map(|v| v.get_value().to_string()).collect();
    assert_eq!(got, vec!["4", "2", "1", "old"]);
    assert_eq!(l[0].get_key_with_collection(), "IP:b");
    let p = Pattern::parse("^a$");
    let mut l = Vec::new();
    prepend_scanned("IP", &pairs, &KeyExclusions::new(), Some(&p), &mut l);
    let got: Vec<String> = l.iter().map(|v| v.get_value().to_string()).collect();
    assert_eq!(got, vec!["2", "1"]);
}

#[test]
fn pattern_with_many_stars_is_decided_in_one_pass() {
    let key = "a".repeat(3000);
    assert!(!Pattern::parse("^.*.*.*.*.*.*.*.*.*.*.*.*x$").is_match(&key));
    assert!(Pattern::parse("^a*a*a*a*a*a*a*a*a*a*a*a*$").is_match(&key));
    assert!(!Pattern::parse("a*a*a*a*a*a*a*a*a*a*a*a*b").is_match(&key));
}
