use vstd::prelude::*;
use vstd::string::StringExecFns;
use crate::collection::Collection;
use crate::modsecurity::enums::LogProperty;
use crate::rules::rule::RuleMessage;

verus! {

pub const MODSECURITY_MAJOR: &'static str = "3";

pub const MODSECURITY_MINOR: &'static str = "0";

pub const MODSECURITY_PATCHLEVEL: &'static str = "10";

pub const MODSECURITY_TAG: &'static str = "";

pub const MODSECURITY_TAG_NUM: i32 = 100;

pub const MODSECURITY_VERSION_NUM: i32 = 30100100;

/// The version as text: major, minor and patch level with dots between them.
pub open spec fn version_text() -> Seq<char> {
    MODSECURITY_MAJOR@ + seq!['.'] + MODSECURITY_MINOR@ + seq!['.'] + MODSECURITY_PATCHLEVEL@
}

/// How the engine names itself: its version and the platform that it runs on.
pub open spec fn whoami_text(platform: Seq<char>) -> Seq<char> {
    "ModSecurity v"@ + version_text() + " ("@ + platform + seq![')']
}

pub fn modsecurity_version() -> (version: String)
    ensures
        version@ == version_text(),
{
    let mut version = String::from_str(MODSECURITY_MAJOR);
    version.push('.');
    version.append(MODSECURITY_MINOR);
    version.push('.');
    version.append(MODSECURITY_PATCHLEVEL);
    assert(version@ =~= version_text());
    version
}

/// A rule with an operator.
pub struct RuleWithOperator {}

/// The engine: the collections that all transactions share, and what the
/// engine and the connector that uses it say of themselves.
pub struct ModSecurity<C> where C: Collection {
    pub m_global_collection: C,
    pub m_resource_collection: C,
    pub m_ip_collection: C,
    pub m_session_collection: C,
    pub m_user_collection: C,
    pub m_connector: String,
    pub m_whoami: String,
    pub m_log_properties: LogProperty,
}

impl<C> ModSecurity<C> where C: Collection {
    pub open spec fn connector(&self) -> Seq<char> {
        self.m_connector@
    }

    pub open spec fn whoami(&self) -> Seq<char> {
        self.m_whoami@
    }

    pub open spec fn log_properties(&self) -> LogProperty {
        self.m_log_properties
    }

    /// The engine on `platform` over the five shared collections.
    pub fn with_collections(
        platform: &str,
        global: C,
        resource: C,
        ip: C,
        session: C,
        user: C,
    ) -> (engine: Self)
        ensures
            engine.m_global_collection == global,
            engine.m_resource_collection == resource,
            engine.m_ip_collection == ip,
            engine.m_session_collection == session,
            engine.m_user_collection == user,
            engine.connector() == Seq::<char>::empty(),
            engine.whoami() == whoami_text(platform@),
            engine.log_properties() == LogProperty::TextLogProperty,
    {
        let mut m_whoami = String::from_str("ModSecurity v");
        m_whoami.append(modsecurity_version().as_str());
        m_whoami.append(" (");
        m_whoami.append(platform);
        m_whoami.push(')');
        assert(m_whoami@ =~= whoami_text(platform@));
        ModSecurity {
            m_global_collection: global,
            m_resource_collection: resource,
            m_ip_collection: ip,
            m_session_collection: session,
            m_user_collection: user,
            m_connector: String::new(),
            m_whoami,
            m_log_properties: LogProperty::TextLogProperty,
        }
    }

    /// The engine's version and platform, as log parsers read them.
    pub fn who_am_i(&self) -> (text: &str)
        ensures
            text@ == self.whoami(),
    {
        self.m_whoami.as_str()
    }

    /// Records which connector uses the engine.
    pub fn set_connector_information(&mut self, connector: &str)
        ensures
            final(self).connector() == connector@,
            final(self).whoami() == old(self).whoami(),
            final(self).log_properties() == old(self).log_properties(),
            final(self).m_global_collection == old(self).m_global_collection,
            final(self).m_resource_collection == old(self).m_resource_collection,
            final(self).m_ip_collection == old(self).m_ip_collection,
            final(self).m_session_collection == old(self).m_session_collection,
            final(self).m_user_collection == old(self).m_user_collection,
    {
        self.m_connector = String::from_str(connector);
    }

    pub fn get_connector_information(&self) -> (connector: &str)
        ensures
            connector@ == self.connector(),
    {
        self.m_connector.as_str()
    }

    /// Hands a log entry to the server. Nothing is logged yet.
    pub fn server_log(&self, data: &str, rm: &RuleMessage) {
    }

    /// Chooses what the log callback is handed.
    pub fn set_server_logcb_with_properties(&mut self, properties: LogProperty)
        ensures
            final(self).log_properties() == properties,
            final(self).connector() == old(self).connector(),
            final(self).whoami() == old(self).whoami(),
            final(self).m_global_collection == old(self).m_global_collection,
            final(self).m_resource_collection == old(self).m_resource_collection,
            final(self).m_ip_collection == old(self).m_ip_collection,
            final(self).m_session_collection == old(self).m_session_collection,
            final(self).m_user_collection == old(self).m_user_collection,
    {
        self.m_log_properties = properties;
    }

    /// As `set_server_logcb_with_properties`, with the text of the entry.
    pub fn set_server_logcb(&mut self)
        ensures
            final(self).log_properties() == LogProperty::TextLogProperty,
            final(self).connector() == old(self).connector(),
            final(self).whoami() == old(self).whoami(),
            final(self).m_global_collection == old(self).m_global_collection,
            final(self).m_resource_collection == old(self).m_resource_collection,
            final(self).m_ip_collection == old(self).m_ip_collection,
            final(self).m_session_collection == old(self).m_session_collection,
            final(self).m_user_collection == old(self).m_user_collection,
    {
        self.set_server_logcb_with_properties(LogProperty::TextLogProperty);
    }

    /// Finds where `match_string` stands in `content`. No offset is computed yet:
    /// the answer is always 0.
    pub fn process_content_offset(
        content: &str,
        len: usize,
        match_string: &str,
        json: String,
        err: Vec<&str>,
    ) -> (status: i32)
        ensures
            status == 0,
    {
        0
    }
}

} // verus!
