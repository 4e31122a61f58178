use modsecurity::transaction::{
    Transaction, TransactionAnchoredVariables, ARGS_GET_ID, ARGS_ID, ARGS_POST_ID,
};
use modsecurity::variables::anchored::proxy::AnchoredSetVariableTranslationProxy;
use modsecurity::variables::anchored::scalar::AnchoredVariable;
use modsecurity::variables::anchored::set::AnchoredSetVariable;
use modsecurity::variables::exclusion::KeyExclusions;
use modsecurity::variables::value::VariableValue;

fn texts(l: &Vec<VariableValue>) -> Vec<String> {
    l.iter().map(|v| v.get_value().to_string()).collect()
}

fn origins(v: &VariableValue) -> Vec<String> {
    v.get_origin().iter().map(|o| o.to_text()).collect()
}

#[test]
fn append_with_separator_puts_one_space_between() {
    let t = Transaction {};
    let mut v = AnchoredVariable::new(&t, "REQUEST_LINE");
    v.set("foo", 0);
    v.append("bar", 4, true);
    assert_eq!(v.evaluate(), "foo bar");
}

#[test]
fn append_on_empty_value_puts_no_leading_space() {
    let t = Transaction {};
    let mut v = AnchoredVariable::new(&t, "REQUEST_LINE");
    v.append("bar", 4, true);
    assert_eq!(v.evaluate(), "bar");
}

#[test]
fn append_of_empty_text_puts_no_trailing_space() {
    let t = Transaction {};
    let mut v = AnchoredVariable::new(&t, "X");
    v.set("foo", 0);
    v.append("", 3, true);
    assert_eq!(v.evaluate(), "foo");
    v.append("bar", 3, false);
    assert_eq!(v.evaluate(), "foobar");
    v.append_with_length("baz", 9, 100, true);
    assert_eq!(v.resolve_first(), "foobar baz");
}

#[test]
fn never_set_variable_evaluates_to_the_empty_string() {
    let t = Transaction {};
    let v = AnchoredVariable::new(&t, "X");
    assert_eq!(v.evaluate(), "");
    assert_eq!(v.resolve_first(), "");
}

#[test]
fn set_records_one_fresh_origin_and_append_adds_to_it() {
    let t = Transaction {};
    let mut v = AnchoredVariable::new(&t, "X");
    v.set("first", 10);
    v.set("héllo", 20);
    v.append("you", 30, true);
    v.append_with_length("!", 40, 7, false);
    let mut l = Vec::new();
    v.evaluate_variable_values(&mut l);
    assert_eq!(l.len(), 1);
    assert_eq!(l[0].get_value(), "héllo you!");
    assert_eq!(l[0].get_key(), "X");
    assert_eq!(l[0].get_key_with_collection(), "X");
    assert_eq!(l[0].get_collection(), "");
    assert_eq!(origins(&l[0]), vec!["v20,6", "v30,3", "v40,7"]);
}

#[test]
fn set_with_length_records_the_given_length() {
    let t = Transaction {};
    let mut v = AnchoredVariable::new(&t, "X");
    v.set_with_length("abc", 5, 99);
    let mut l = Vec::new();
    v.evaluate_variable_values(&mut l);
    assert_eq!(origins(&l[0]), vec!["v5,99"]);
}

#[test]
fn unset_clears_the_value_and_keeps_the_origins() {
    let t = Transaction {};
    let mut v = AnchoredVariable::new(&t, "X");
    v.set("abc", 5);
    v.unset();
    assert_eq!(v.evaluate(), "");
    let mut l = Vec::new();
    v.evaluate_variable_values(&mut l);
    assert_eq!(l[0].get_value(), "");
    assert_eq!(origins(&l[0]), vec!["v5,3"]);
}

#[test]
fn nameless_variable_hands_out_nothing() {
    let t = Transaction {};
    let mut v = AnchoredVariable::new(&t, "");
    v.set("abc", 5);
    let mut l = vec![VariableValue::new("k", None)];
    v.evaluate_variable_values(&mut l);
    assert_eq!(l.len(), 1);
}

#[test]
fn evaluate_variable_values_appends_a_copy_each_time() {
    let t = Transaction {};
    let mut v = AnchoredVariable::new(&t, "X");
    v.set("a", 0);
    let mut l = Vec::new();
    v.evaluate_variable_values(&mut l);
    v.append("b", 1, false);
    v.evaluate_variable_values(&mut l);
    assert_eq!(texts(&l), vec!["a", "ab"]);
    assert_eq!(l[0].get_origin().len(), 1);
    assert_eq!(l[1].get_origin().len(), 2);
}

#[test]
fn set_twice_under_one_key_keeps_both_in_order() {
    let t = Transaction {};
    let mut v = AnchoredSetVariable::new(&t, "ARGS");
    v.set("a", "1", 0);
    v.set("a", "2", 4);
    let mut l = Vec::new();
    v.resolve_by_key("a", &mut l);
    assert_eq!(texts(&l), vec!["1", "2"]);
    assert_eq!(l[0].get_key_with_collection(), "ARGS:a");
    assert_eq!(l[0].get_collection(), "ARGS");
    assert_eq!(origins(&l[0]), vec!["v0,1"]);
    assert_eq!(origins(&l[1]), vec!["v4,1"]);
    assert_eq!(v.resolve_first("a"), Some("1"));
    assert_eq!(v.resolve_first("b"), None);
}

#[test]
fn set_with_length_on_a_set_records_the_given_length() {
    let t = Transaction {};
    let mut v = AnchoredSetVariable::new(&t, "ARGS");
    v.set_with_length("a", "1", 3, 50);
    let mut l = vec![VariableValue::new("x", Some("old"))];
    v.resolve_by_key("a", &mut l);
    assert_eq!(texts(&l), vec!["old", "1"]);
    assert_eq!(origins(&l[1]), vec!["v3,50"]);
    let mut l = Vec::new();
    v.resolve_by_key("zzz", &mut l);
    assert!(l.is_empty());
}

#[test]
fn resolve_on_a_set_puts_the_last_scanned_first() {
    let t = Transaction {};
    let mut v = AnchoredSetVariable::new(&t, "ARGS");
    v.set("a", "a1", 0);
    v.set("b", "b1", 0);
    v.set("a", "a2", 0);
    v.set("secret", "s", 0);
    let mut l = vec![VariableValue::new("x", Some("old"))];
    v.resolve(&mut l);
    assert_eq!(texts(&l), vec!["s", "b1", "a2", "a1", "old"]);
    let mut ke = KeyExclusions::new();
    ke.push_exact("secret");
    let mut l = Vec::new();
    v.resolve_with_exclusions(&mut l, &ke);
    assert_eq!(texts(&l), vec!["b1", "a2", "a1"]);
    let mut l = Vec::new();
    v.resolve_regular_expression("^.$", &mut l);
    assert_eq!(texts(&l), vec!["b1", "a2", "a1"]);
    ke.push_pattern("^b");
    let mut l = Vec::new();
    v.resolve_regular_expression_with_exlusions("e*", &mut l, &ke);
    assert_eq!(texts(&l), vec!["a2", "a1"]);
}

#[test]
fn unset_on_a_set_removes_every_key() {
    let t = Transaction {};
    let mut v = AnchoredSetVariable::new(&t, "ARGS");
    v.set("a", "1", 0);
    v.unset();
    assert_eq!(v.name(), "ARGS");
    assert!(v.keys().is_empty());
    assert_eq!(v.resolve_first("a"), None);
    let mut l = Vec::new();
    v.resolve(&mut l);
    assert!(l.is_empty());
}

#[test]
fn proxy_reports_each_key_once_with_the_key_as_value() {
    let t = Transaction {};
    let mut args = AnchoredSetVariable::new(&t, "ARGS");
    args.set("a", "1", 0);
    args.set("b", "2", 0);
    args.set("a", "3", 0);
    assert_eq!(args.keys(), vec!["a", "b"]);
    let names = AnchoredSetVariableTranslationProxy::new("ARGS_NAMES", 0);
    assert_eq!(names.fount_id(), 0);
    let mut l = vec![VariableValue::new("x", Some("old"))];
    names.resolve(&args, &mut l);
    assert_eq!(texts(&l), vec!["b", "a", "old"]);
    assert_eq!(l[0].get_key(), "b");
    assert_eq!(l[0].get_collection(), "ARGS_NAMES");
    assert_eq!(l[0].get_key_with_collection(), "ARGS_NAMES:b");
}

#[test]
fn transaction_variables_start_unset_under_their_names() {
    let t = Transaction {};
    let mut v = TransactionAnchoredVariables::new(&t);
    assert_eq!(v.m_variable_offset, 0);
    assert_eq!(v.m_variable_request_uri.evaluate(), "");
    let mut l = Vec::new();
    v.m_variable_request_uri.set("/index", 4);
    v.m_variable_request_uri.evaluate_variable_values(&mut l);
    assert_eq!(l[0].get_key(), "REQUEST_URI");
    v.m_variable_arg_scombined_size.set("1", 0);
    v.m_variable_arg_scombined_size.evaluate_variable_values(&mut l);
    assert_eq!(l[1].get_key(), "ARGS_COMBINED_SIZE");
    v.m_variable_user_id.set("1", 0);
    v.m_variable_user_id.evaluate_variable_values(&mut l);
    assert_eq!(l[2].get_key(), "USERID");
    assert_eq!(v.m_variable_args.name(), "ARGS");
    assert_eq!(v.m_variable_files_tmp_names.name(), "FILES_TMPNAMES");
    assert_eq!(v.m_variable_multipart_part_headers.name(), "MULTIPART_PART_HEADERS");
    assert!(v.m_variable_geo.keys().is_empty());
}

#[test]
fn transaction_proxies_read_their_set_variables() {
    let t = Transaction {};
    let mut v = TransactionAnchoredVariables::new(&t);
    v.m_variable_args_get.set("q", "rust", 0);
    v.m_variable_args_post.set("body", "x", 0);
    assert_eq!(v.m_variable_args_names.fount_id(), ARGS_ID);
    assert_eq!(v.m_variable_args_get_names.fount_id(), ARGS_GET_ID);
    assert_eq!(v.m_variable_args_post_names.fount_id(), ARGS_POST_ID);
    let fount = v.set_variable(v.m_variable_args_get_names.fount_id()).unwrap();
    let mut l = Vec::new();
    v.m_variable_args_get_names.resolve(fount, &mut l);
    assert_eq!(texts(&l), vec!["q"]);
    assert_eq!(l[0].get_key_with_collection(), "ARGS_GET_NAMES:q");
    assert_eq!(v.set_variable(ARGS_POST_ID).unwrap().name(), "ARGS_POST");
    assert_eq!(v.set_variable(ARGS_ID).unwrap().name(), "ARGS");
    assert!(v.set_variable(3).is_none());
}
