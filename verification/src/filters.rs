//! Severity and message-type filter values.
//!
//! Both types are plain records of independent boolean flags. A filter is
//! built from a named preset and widened with [`MessageSeverity::union`] /
//! [`MessageType::union`]; union (per-flag logical or) is the only
//! composition rule offered.

use vstd::prelude::*;

verus! {

/// Severity of a diagnostic message, and at the same time a filter over
/// severities: each flag stands for one native severity bit.
#[derive(Clone, Copy, Debug, PartialEq, Eq, Hash, Structural)]
pub struct MessageSeverity {
    /// An error that may cause undefined results, including an application crash.
    pub error: bool,
    /// An unexpected use.
    pub warning: bool,
    /// An informational message that may be handy when debugging an application.
    pub information: bool,
    /// Diagnostic information from the loader and layers.
    pub verbose: bool,
}

impl MessageSeverity {
    /// Builds a `MessageSeverity` with all fields set to `false` except `error`.
    pub fn errors() -> (r: MessageSeverity)
        ensures
            r == (MessageSeverity { error: true, warning: false, information: false, verbose: false }),
    {
        MessageSeverity { error: true, warning: false, information: false, verbose: false }
    }

    /// Builds a `MessageSeverity` with all fields set to `false` except `warning`.
    pub fn warnings() -> (r: MessageSeverity)
        ensures
            r == (MessageSeverity { error: false, warning: true, information: false, verbose: false }),
    {
        MessageSeverity { error: false, warning: true, information: false, verbose: false }
    }

    /// Builds a `MessageSeverity` with all fields set to `false` except `information`.
    pub fn information() -> (r: MessageSeverity)
        ensures
            r == (MessageSeverity { error: false, warning: false, information: true, verbose: false }),
    {
        MessageSeverity { error: false, warning: false, information: true, verbose: false }
    }

    /// Builds a `MessageSeverity` with all fields set to `false` except `verbose`.
    pub fn verbose() -> (r: MessageSeverity)
        ensures
            r == (MessageSeverity { error: false, warning: false, information: false, verbose: true }),
    {
        MessageSeverity { error: false, warning: false, information: false, verbose: true }
    }

    /// Builds a `MessageSeverity` with `error` and `warning` set to `true`.
    pub fn errors_and_warnings() -> (r: MessageSeverity)
        ensures
            r == (MessageSeverity { error: true, warning: true, information: false, verbose: false }),
    {
        MessageSeverity { error: true, warning: true, information: false, verbose: false }
    }

    /// Builds a `MessageSeverity` with all fields set to `false`.
    pub fn none() -> (r: MessageSeverity)
        ensures
            r == (MessageSeverity { error: false, warning: false, information: false, verbose: false }),
    {
        MessageSeverity { error: false, warning: false, information: false, verbose: false }
    }

    /// Builds a `MessageSeverity` with all fields set to `true`.
    pub fn all() -> (r: MessageSeverity)
        ensures
            r == (MessageSeverity { error: true, warning: true, information: true, verbose: true }),
    {
        MessageSeverity { error: true, warning: true, information: true, verbose: true }
    }

    /// Per-flag logical or: the result admits a severity iff either operand does.
    pub fn union(self, rhs: MessageSeverity) -> (r: MessageSeverity)
        ensures
            r == severity_union(self, rhs),
            r.error == (self.error || rhs.error),
            r.warning == (self.warning || rhs.warning),
            r.information == (self.information || rhs.information),
            r.verbose == (self.verbose || rhs.verbose),
    {
        MessageSeverity {
            error: self.error || rhs.error,
            warning: self.warning || rhs.warning,
            information: self.information || rhs.information,
            verbose: self.verbose || rhs.verbose,
        }
    }
}

/// Kind of event a diagnostic message reports, and at the same time a filter
/// over kinds: each flag stands for one native message-type bit.
#[derive(Clone, Copy, Debug, PartialEq, Eq, Hash, Structural)]
pub struct MessageType {
    /// Specifies that some general event has occurred.
    pub general: bool,
    /// Specifies that something has occurred during validation against the specification.
    pub validation: bool,
    /// Specifies a potentially non-optimal use of the native API.
    pub performance: bool,
}

impl MessageType {
    /// Builds a `MessageType` with only the `general` field set to `true`.
    pub fn general() -> (r: MessageType)
        ensures
            r == (MessageType { general: true, validation: false, performance: false }),
    {
        MessageType { general: true, validation: false, performance: false }
    }

    /// Builds a `MessageType` with only the `validation` field set to `true`.
    pub fn validation() -> (r: MessageType)
        ensures
            r == (MessageType { general: false, validation: true, performance: false }),
    {
        MessageType { general: false, validation: true, performance: false }
    }

    /// Builds a `MessageType` with only the `performance` field set to `true`.
    pub fn performance() -> (r: MessageType)
        ensures
            r == (MessageType { general: false, validation: false, performance: true }),
    {
        MessageType { general: false, validation: false, performance: true }
    }

    /// Builds a `MessageType` with all fields set to `true`.
    pub fn all() -> (r: MessageType)
        ensures
            r == (MessageType { general: true, validation: true, performance: true }),
    {
        MessageType { general: true, validation: true, performance: true }
    }

    /// Builds a `MessageType` with all fields set to `false`.
    pub fn none() -> (r: MessageType)
        ensures
            r == (MessageType { general: false, validation: false, performance: false }),
    {
        MessageType { general: false, validation: false, performance: false }
    }

    /// Per-flag logical or: the result admits a kind iff either operand does.
    pub fn union(self, rhs: MessageType) -> (r: MessageType)
        ensures
            r == type_union(self, rhs),
            r.general == (self.general || rhs.general),
            r.validation == (self.validation || rhs.validation),
            r.performance == (self.performance || rhs.performance),
    {
        MessageType {
            general: self.general || rhs.general,
            validation: self.validation || rhs.validation,
            performance: self.performance || rhs.performance,
        }
    }
}

/// The union of two severity filters, as a mathematical value; what
/// [`MessageSeverity::union`] returns.
pub open spec fn severity_union(a: MessageSeverity, b: MessageSeverity) -> MessageSeverity {
    MessageSeverity {
        error: a.error || b.error,
        warning: a.warning || b.warning,
        information: a.information || b.information,
        verbose: a.verbose || b.verbose,
    }
}

/// The union of two message-type filters, as a mathematical value; what
/// [`MessageType::union`] returns.
pub open spec fn type_union(a: MessageType, b: MessageType) -> MessageType {
    MessageType {
        general: a.general || b.general,
        validation: a.validation || b.validation,
        performance: a.performance || b.performance,
    }
}

/// Law: union of severity filters is commutative.
pub proof fn lemma_severity_union_commutative(a: MessageSeverity, b: MessageSeverity)
    ensures
        severity_union(a, b) == severity_union(b, a),
{
}

/// Law: union of severity filters is associative.
pub proof fn lemma_severity_union_associative(
    a: MessageSeverity,
    b: MessageSeverity,
    c: MessageSeverity,
)
    ensures
        severity_union(severity_union(a, b), c) == severity_union(a, severity_union(b, c)),
{
}

/// Law: the all-false severity filter is the identity of union.
pub proof fn lemma_severity_union_none_identity(x: MessageSeverity)
    ensures
        severity_union(x, MessageSeverity { error: false, warning: false, information: false, verbose: false }) == x,
{
}

/// Law: the all-true severity filter absorbs every operand under union.
pub proof fn lemma_severity_union_all_absorbs(x: MessageSeverity)
    ensures
        severity_union(x, MessageSeverity { error: true, warning: true, information: true, verbose: true })
            == (MessageSeverity { error: true, warning: true, information: true, verbose: true }),
{
}

/// Law: union of message-type filters is commutative.
pub proof fn lemma_type_union_commutative(a: MessageType, b: MessageType)
    ensures
        type_union(a, b) == type_union(b, a),
{
}

/// Law: union of message-type filters is associative.
pub proof fn lemma_type_union_associative(a: MessageType, b: MessageType, c: MessageType)
    ensures
        type_union(type_union(a, b), c) == type_union(a, type_union(b, c)),
{
}

/// Law: the all-false message-type filter is the identity of union.
pub proof fn lemma_type_union_none_identity(x: MessageType)
    ensures
        type_union(x, MessageType { general: false, validation: false, performance: false }) == x,
{
}

/// Law: the all-true message-type filter absorbs every operand under union.
pub proof fn lemma_type_union_all_absorbs(x: MessageType)
    ensures
        type_union(x, MessageType { general: true, validation: true, performance: true })
            == (MessageType { general: true, validation: true, performance: true }),
{
}

} // verus!
