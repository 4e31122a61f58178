use vstd::prelude::*;

verus! {

/// The points of an exchange at which rules are run, in their order.
#[derive(Clone, Copy, Debug, PartialEq, Eq, Structural)]
pub enum Phases {
    /// Right after the connection is made, before the host name is known.
    ConnectionPhase,
    /// When the full request URI is known.
    UriPhase,
    /// When all request headers are known, before the body.
    RequestHeadersPhase,
    /// While the request body comes in.
    RequestBodyPhase,
    /// Just before the response headers go to the client.
    ResponseHeadersPhase,
    /// While the response body goes out.
    ResponseBodyPhase,
    /// After the exchange, when the logs are written.
    LoggingPhase,
    /// Not a phase: it counts the phases.
    NumberOfPhases,
}

impl Phases {
    /// The place of the phase in the order of the phases, counted from 0.
    pub open spec fn ordinal(self) -> nat {
        match self {
            Phases::ConnectionPhase => 0,
            Phases::UriPhase => 1,
            Phases::RequestHeadersPhase => 2,
            Phases::RequestBodyPhase => 3,
            Phases::ResponseHeadersPhase => 4,
            Phases::ResponseBodyPhase => 5,
            Phases::LoggingPhase => 6,
            Phases::NumberOfPhases => 7,
        }
    }

    pub fn number(self) -> (n: u8)
        ensures
            n == self.ordinal(),
    {
        match self {
            Phases::ConnectionPhase => 0,
            Phases::UriPhase => 1,
            Phases::RequestHeadersPhase => 2,
            Phases::RequestBodyPhase => 3,
            Phases::ResponseHeadersPhase => 4,
            Phases::ResponseBodyPhase => 5,
            Phases::LoggingPhase => 6,
            Phases::NumberOfPhases => 7,
        }
    }
}

/// What the log callback is handed.
#[derive(Clone, Copy, Debug, PartialEq, Eq, Structural)]
pub enum LogProperty {
    /// The text of the log entry.
    TextLogProperty,
    /// The rule message itself in place of its text.
    RuleMessageLogProperty,
    /// With the rule message, the full highlight of what matched.
    IncludeFullHighlightLogProperty,
}

impl LogProperty {
    /// The flag that stands for the property: 1, 2 and 4 in the order of the variants.
    pub open spec fn flag(self) -> nat {
        match self {
            LogProperty::TextLogProperty => 1,
            LogProperty::RuleMessageLogProperty => 2,
            LogProperty::IncludeFullHighlightLogProperty => 4,
        }
    }

    pub fn bits(self) -> (n: u8)
        ensures
            n == self.flag(),
    {
        match self {
            LogProperty::TextLogProperty => 1,
            LogProperty::RuleMessageLogProperty => 2,
            LogProperty::IncludeFullHighlightLogProperty => 4,
        }
    }
}

} // verus!
