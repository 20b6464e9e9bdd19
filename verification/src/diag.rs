//! Diagnostics of the declaration grammar: one kind per rule, each bound to
//! the place in the declaration that broke the rule.

use vstd::prelude::*;
use vstd::string::StringExecFns;

verus! {

/// The rule that a declaration broke.
#[derive(Debug, Clone, Copy, PartialEq, Eq, Structural)]
pub enum DiagnosticKind {
    /// The declaration is marked `async`.
    UnsupportedAsync,
    /// One of the parameters is a `self` receiver.
    SelfReceiverUnsupported,
    /// The parameter list is empty, so there is no state parameter.
    MissingStateParameter,
    /// The first parameter is not bound by a plain identifier.
    NonIdentifierStatePattern,
    /// The first parameter's type is not a reference.
    StateMustBeReference,
    /// A later parameter is not bound by a plain identifier.
    NonIdentifierParameterPattern,
    /// A later parameter's identifier starts with the reserved prefix.
    ReservedIdentifier,
}

/// The place in a declaration that a diagnostic points at. Parameters are
/// counted from zero, the state parameter being parameter zero.
#[derive(Debug, Clone, Copy, PartialEq, Eq, Structural)]
pub enum Location {
    /// The `async` keyword.
    AsyncKeyword,
    /// The function's name.
    FunctionName,
    /// The whole of one parameter.
    Parameter(usize),
    /// The binding pattern of one parameter.
    ParameterPattern(usize),
    /// The type of one parameter.
    ParameterType(usize),
    /// The identifier that one parameter binds.
    ParameterName(usize),
}

/// A broken rule together with the place that broke it.
#[derive(Debug, Clone, Copy, PartialEq, Eq, Structural)]
pub struct Diagnostic {
    pub kind: DiagnosticKind,
    pub location: Location,
}

/// The fixed message of each rule.
pub open spec fn message_of(kind: DiagnosticKind) -> Seq<char> {
    match kind {
        DiagnosticKind::UnsupportedAsync => "#[command] does not support async functions"@,
        DiagnosticKind::SelfReceiverUnsupported =>
            "#[command] does not support methods with `self`; use a free function with `state: &T` or `state: &mut T`"@,
        DiagnosticKind::MissingStateParameter =>
            "#[command] requires at least one parameter: `state: &T` or `state: &mut T`"@,
        DiagnosticKind::NonIdentifierStatePattern =>
            "#[command] state parameter must be a simple identifier (e.g., `state: &T`)"@,
        DiagnosticKind::StateMustBeReference =>
            "#[command] first parameter must be a reference: `&T` or `&mut T`"@,
        DiagnosticKind::NonIdentifierParameterPattern =>
            "#[command] parameters must use simple identifiers (no tuple or struct patterns)"@,
        DiagnosticKind::ReservedIdentifier =>
            "#[command] parameter names starting with `__webtau` are reserved for generated code"@,
    }
}

impl DiagnosticKind {
    /// The message of the rule.
    pub fn message(&self) -> (text: String)
        ensures
            text@ == message_of(*self),
    {
        String::from_str(
            match self {
                DiagnosticKind::UnsupportedAsync => "#[command] does not support async functions",
                DiagnosticKind::SelfReceiverUnsupported =>
                    "#[command] does not support methods with `self`; use a free function with `state: &T` or `state: &mut T`",
                DiagnosticKind::MissingStateParameter =>
                    "#[command] requires at least one parameter: `state: &T` or `state: &mut T`",
                DiagnosticKind::NonIdentifierStatePattern =>
                    "#[command] state parameter must be a simple identifier (e.g., `state: &T`)",
                DiagnosticKind::StateMustBeReference =>
                    "#[command] first parameter must be a reference: `&T` or `&mut T`",
                DiagnosticKind::NonIdentifierParameterPattern =>
                    "#[command] parameters must use simple identifiers (no tuple or struct patterns)",
                DiagnosticKind::ReservedIdentifier =>
                    "#[command] parameter names starting with `__webtau` are reserved for generated code",
            },
        )
    }
}

impl Diagnostic {
    /// The message of the broken rule.
    pub fn message(&self) -> (text: String)
        ensures
            text@ == message_of(self.kind),
    {
        self.kind.message()
    }
}

/// Rules and messages stand one to one: two rules never share a message.
pub proof fn lemma_messages_differ(a: DiagnosticKind, b: DiagnosticKind)
    requires
        a != b,
    ensures
        message_of(a) != message_of(b),
{
    reveal_strlit("#[command] does not support async functions");
    reveal_strlit(
        "#[command] does not support methods with `self`; use a free function with `state: &T` or `state: &mut T`",
    );
    reveal_strlit("#[command] requires at least one parameter: `state: &T` or `state: &mut T`");
    reveal_strlit("#[command] state parameter must be a simple identifier (e.g., `state: &T`)");
    reveal_strlit("#[command] first parameter must be a reference: `&T` or `&mut T`");
    reveal_strlit(
        "#[command] parameters must use simple identifiers (no tuple or struct patterns)",
    );
    reveal_strlit(
        "#[command] parameter names starting with `__webtau` are reserved for generated code",
    );
    let missing = message_of(DiagnosticKind::MissingStateParameter);
    let pattern = message_of(DiagnosticKind::NonIdentifierStatePattern);
    assert(missing[11] == 'r');
    assert(pattern[11] == 's');
    assert(message_of(a).len() != message_of(b).len() || message_of(a)[11] != message_of(b)[11]);
}

} // verus!
