//! Structured view of one native diagnostic event.
//!
//! The native side presents an event as two raw bitmasks and two
//! nul-terminated strings, one of them optional. The unsafe shell that
//! receives the native record turns the strings into owned text and hands the
//! four plain values to [`decode_event`], which performs the verified part of
//! the translation: bitmask decoding and assembly of the [`Message`].

use vstd::prelude::*;

use crate::codec::decode_severity;
use crate::codec::decode_type;
use crate::codec::severity_of_bits;
use crate::codec::type_of_bits;
use crate::filters::MessageSeverity;
use crate::filters::MessageType;

verus! {

/// A message received by the callback: one decoded native event.
///
/// `severity` and `ty` hold the flags observed on this event (which native
/// bits were actually set), not a filter. The text fields are owned by the
/// message, so it remains valid after the native record it was decoded from
/// has been reclaimed.
pub struct Message {
    /// Severity flags observed on this event.
    pub severity: MessageSeverity,
    /// Message-type flags observed on this event.
    pub ty: MessageType,
    /// Prefix of the layer that reported this message, or `None` if unknown.
    pub layer_prefix: Option<String>,
    /// Description of the message.
    pub description: String,
}

/// Decodes one native event into a [`Message`]: the severity and
/// message-type bitmasks are decoded bit by bit, the texts are carried over
/// unchanged. Total: every bitmask decodes, unknown bits are dropped, and an
/// absent layer prefix stays absent.
pub fn decode_event(
    severity_bits: u32,
    type_bits: u32,
    layer_prefix: Option<String>,
    description: String,
) -> (m: Message)
    ensures
        m.severity == severity_of_bits(severity_bits),
        m.ty == type_of_bits(type_bits),
        m.layer_prefix == layer_prefix,
        m.description == description,
{
    Message {
        severity: decode_severity(severity_bits),
        ty: decode_type(type_bits),
        layer_prefix,
        description,
    }
}

/// How one invocation of the user callback ended under the failure guard:
/// either it completed, or it raised a failure that the guard caught and
/// discarded at the native boundary.
#[derive(Clone, Copy, Debug, PartialEq, Eq, Structural)]
pub enum CallbackOutcome {
    /// The user callback returned normally.
    Completed,
    /// The user callback raised a failure; the guard swallowed it.
    Failed,
}

/// Relies on `ash::vk::FALSE`: the native boolean the trampoline returns to
/// signal "not handled / continue", so that no other listener is suppressed.
#[verifier::external_body]
fn native_false() -> (r: u32)
    ensures
        r == 0u32,
{
    ash::vk::FALSE
}

/// The answer the trampoline hands back across the native boundary after
/// one event: the fixed native "not handled / continue" value, the same
/// whether the user callback completed or failed. A contained failure thus
/// changes nothing the native side can observe, and nothing that would stop
/// later events from being delivered.
pub fn trampoline_reply(outcome: CallbackOutcome) -> (r: u32)
    ensures
        r == 0u32,
{
    match outcome {
        CallbackOutcome::Completed => native_false(),
        CallbackOutcome::Failed => native_false(),
    }
}

} // verus!
