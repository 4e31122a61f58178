use modsecurity::actions::action::{Action, BaseAction, Kind};
use modsecurity::actions::audit_log::AuditLog;
use modsecurity::collection::backend::memory::InMemoryPerProcess;
use modsecurity::collection::collections::Collections;
use modsecurity::collection::Collection;
use modsecurity::modsecurity::engine::{
    modsecurity_version, ModSecurity, MODSECURITY_MAJOR, MODSECURITY_MINOR,
    MODSECURITY_PATCHLEVEL, MODSECURITY_TAG, MODSECURITY_TAG_NUM, MODSECURITY_VERSION_NUM,
};
use modsecurity::modsecurity::enums::{LogProperty, Phases};
use modsecurity::rules::rule::{make_reference, Rule, RuleMessage};
use modsecurity::rules::rule_with_actions::RuleWithActions;
use modsecurity::text::{chars_of, push_decimal, push_signed_decimal, same_text, string_of};
use modsecurity::transaction::Transaction;

fn engine() -> ModSecurity<InMemoryPerProcess> {
    ModSecurity::with_collections(
        "linux",
        InMemoryPerProcess::new("GLOBAL"),
        InMemoryPerProcess::new("RESOURCE"),
        InMemoryPerProcess::new("IP"),
        InMemoryPerProcess::new("SESSION"),
        InMemoryPerProcess::new("USER"),
    )
}

#[test]
fn version_is_major_minor_patch() {
    assert_eq!(modsecurity_version(), "3.0.10");
    assert_eq!(MODSECURITY_MAJOR, "3");
    assert_eq!(MODSECURITY_MINOR, "0");
    assert_eq!(MODSECURITY_PATCHLEVEL, "10");
    assert_eq!(MODSECURITY_TAG, "");
    assert_eq!(MODSECURITY_TAG_NUM, 100);
    assert_eq!(MODSECURITY_VERSION_NUM, 30100100);
}

#[test]
fn engine_names_itself_with_version_and_platform() {
    let e = engine();
    assert_eq!(e.who_am_i(), "ModSecurity v3.0.10 (linux)");
    assert_eq!(e.get_connector_information(), "");
    assert_eq!(e.m_ip_collection.name(), "IP");
    assert_eq!(e.m_global_collection.name(), "GLOBAL");
    assert_eq!(e.m_resource_collection.name(), "RESOURCE");
    assert_eq!(e.m_session_collection.name(), "SESSION");
    assert_eq!(e.m_user_collection.name(), "USER");
    assert_eq!(e.m_log_properties, LogProperty::TextLogProperty);
}

#[test]
fn connector_information_is_kept() {
    let mut e = engine();
    e.set_connector_information("ModSecurity-nginx v0.0.1-alpha (Whee)");
    assert_eq!(e.get_connector_information(), "ModSecurity-nginx v0.0.1-alpha (Whee)");
    assert_eq!(e.who_am_i(), "ModSecurity v3.0.10 (linux)");
}

#[test]
fn log_properties_are_chosen() {
    let mut e = engine();
    e.set_server_logcb_with_properties(LogProperty::RuleMessageLogProperty);
    assert_eq!(e.m_log_properties, LogProperty::RuleMessageLogProperty);
    e.set_server_logcb();
    assert_eq!(e.m_log_properties, LogProperty::TextLogProperty);
    e.server_log("entry", &RuleMessage {});
    assert_eq!(
        ModSecurity::<InMemoryPerProcess>::process_content_offset(
            "content",
            7,
            "match",
            String::new(),
            Vec::new()
        ),
        0
    );
}

#[test]
fn enums_have_their_numbers() {
    assert_eq!(Phases::ConnectionPhase.number(), 0);
    assert_eq!(Phases::RequestBodyPhase.number(), 3);
    assert_eq!(Phases::LoggingPhase.number(), 6);
    assert_eq!(Phases::NumberOfPhases.number(), 7);
    assert_eq!(LogProperty::TextLogProperty.bits(), 1);
    assert_eq!(LogProperty::RuleMessageLogProperty.bits(), 2);
    assert_eq!(LogProperty::IncludeFullHighlightLogProperty.bits(), 4);
}

#[test]
fn collections_bind_the_shared_ones_and_make_tx() {
    let mut ip = InMemoryPerProcess::new("IP");
    ip.store("1.2.3.4".to_string(), "seen".to_string());
    let mut c = Collections::new(
        InMemoryPerProcess::new("GLOBAL"),
        ip,
        InMemoryPerProcess::new("SESSION"),
        InMemoryPerProcess::new("USER"),
        InMemoryPerProcess::new("RESOURCE"),
    );
    assert_eq!(c.m_global_collection_key, "");
    assert_eq!(c.m_ip_collection_key, "");
    assert_eq!(c.m_session_collection_key, "");
    assert_eq!(c.m_user_collection_key, "");
    assert_eq!(c.m_resource_collection_key, "");
    assert_eq!(c.m_tx_collection.name(), "TX");
    assert_eq!(c.m_ip_collection.resolve_first("1.2.3.4"), Some("seen".to_string()));
    assert_eq!(c.m_global_collection.name(), "GLOBAL");
    assert_eq!(c.m_session_collection.name(), "SESSION");
    assert_eq!(c.m_user_collection.name(), "USER");
    assert_eq!(c.m_resource_collection.name(), "RESOURCE");
    c.m_tx_collection.store("k".to_string(), "v".to_string());
    assert_eq!(c.m_tx_collection.resolve_first("k"), Some("v".to_string()));
}

#[test]
fn action_text_without_colon_is_all_name() {
    let a = BaseAction::new("deny");
    assert_eq!(a.m_name, "deny");
    assert_eq!(a.m_parser_payload, "");
    let a = BaseAction::new("t:lowercase");
    assert_eq!(a.m_name, "t:lowercase");
    assert_eq!(a.m_parser_payload, "");
    let a = BaseAction::new("");
    assert_eq!(a.m_name, "");
}

#[test]
fn action_text_with_colon_is_cut_at_it() {
    let a = BaseAction::new("msg:hello");
    assert_eq!(a.m_name, "msg");
    assert_eq!(a.m_parser_payload, ":hell");
    let a = BaseAction::new("t:a:b");
    assert_eq!(a.m_name, "t");
    assert_eq!(a.m_parser_payload, ":a:");
    let a = BaseAction::new(":x");
    assert_eq!(a.m_name, "");
    assert_eq!(a.m_parser_payload, ":");
    let a = BaseAction::new("'':ab");
    assert_eq!(a.m_name, "''");
    assert_eq!(a.m_parser_payload, ":a");
}

#[test]
fn set_name_and_payload_keeps_the_payload_without_a_colon() {
    let mut a = BaseAction::new("id:12");
    assert_eq!(a.m_parser_payload, ":1");
    a.set_name_and_payload("block");
    assert_eq!(a.m_name, "block");
    assert_eq!(a.m_parser_payload, ":1");
}

#[test]
fn base_action_defaults() {
    let t = Transaction {};
    let r = RuleWithActions::new("rules.conf", 3);
    let a = BaseAction::new("pass");
    assert!(a.init(""));
    assert!(!BaseAction::is_disruptive());
    assert_eq!(a.evaluate("value", &t), "value");
    assert!(a.evaluate_rule_actions(&r, &t));
    assert!(a.evaluate_rule_actions_with_message(&r, &t, &RuleMessage {}));
    assert_eq!(
        a.evaluate_rule_actions_with_message(&r, &t, &RuleMessage {}),
        a.evaluate_rule_actions(&r, &t)
    );
}

#[test]
fn audit_log_runs_only_if_match_unless_told() {
    let t = Transaction {};
    let r = RuleWithActions::new("rules.conf", 3);
    let a = AuditLog::new("auditlog");
    assert_eq!(a.base.m_name, "auditlog");
    assert_eq!(a.action_kind, Kind::RunTimeOnlyIfMatchKind);
    assert!(!a.m_is_none);
    assert!(!a.temporary_action);
    let b = AuditLog::new_kind("auditlog", Kind::ConfigurationKind);
    assert_eq!(b.action_kind, Kind::ConfigurationKind);
    assert_eq!(b.evaluate("v", &t), "v");
    assert!(b.evaluate_rule_actions(&r, &t));
    assert!(b.evaluate_rule_actions_with_message(&r, &t, &RuleMessage {}));
    assert!(!AuditLog::is_disruptive());
}

#[test]
fn rule_reference_is_file_and_line() {
    let r = RuleWithActions::new("rules.conf", 12);
    assert_eq!(r.get_reference(), "rules.conf:12");
    assert_eq!(r.get_file_name(), "rules.conf");
    assert_eq!(r.get_line_number(), 12);
    assert!(!r.is_marker());
    let t = Transaction {};
    assert!(!r.evaluate(&t));
    assert!(!r.evaluate_rule_message(&t, &RuleMessage {}));
    assert_eq!(RuleWithActions::new("", 0).get_reference(), "<<no file>>:0");
    assert_eq!(make_reference("f", -7), "f:-7");
    assert_eq!(make_reference("f", i32::MIN), "f:-2147483648");
    assert_eq!(make_reference("f", i32::MAX), "f:2147483647");
}

#[test]
fn text_helpers() {
    let mut s = String::from("n=");
    push_decimal(&mut s, 0);
    push_decimal(&mut s, 10);
    push_decimal(&mut s, u64::MAX);
    assert_eq!(s, "n=01018446744073709551615");
    let mut s = String::new();
    push_signed_decimal(&mut s, -1);
    push_signed_decimal(&mut s, 0);
    push_signed_decimal(&mut s, 105);
    assert_eq!(s, "-10105");
    assert!(same_text("a", "a"));
    assert!(!same_text("a", "A"));
    let chars = chars_of("héllo");
    assert_eq!(chars, vec!['h', 'é', 'l', 'l', 'o']);
    assert_eq!(string_of(&chars, 1, 4), "éll");
    assert_eq!(string_of(&chars, 2, 2), "");
}
