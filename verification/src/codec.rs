//! Bitmask codec between filter values and the native flag encoding.
//!
//! Each boolean flag of a filter corresponds to exactly one bit of the native
//! bitmask. Encoding sets exactly the bits of the enabled flags; decoding
//! tests each defined bit and drops unknown or reserved bits. Both directions
//! are total. The bit values themselves come from `ash`'s Vulkan definitions,
//! through trusted accessors that pin them to the named constants below.

use vstd::prelude::*;

use crate::filters::MessageSeverity;
use crate::filters::MessageType;

verus! {

/// Native bit for a verbose-severity event.
pub const SEVERITY_VERBOSE_BIT: u32 = 0x1;

/// Native bit for an informational-severity event.
pub const SEVERITY_INFO_BIT: u32 = 0x10;

/// Native bit for a warning-severity event.
pub const SEVERITY_WARNING_BIT: u32 = 0x100;

/// Native bit for an error-severity event.
pub const SEVERITY_ERROR_BIT: u32 = 0x1000;

/// Native bit for a general-kind event.
pub const TYPE_GENERAL_BIT: u32 = 0x1;

/// Native bit for a validation-kind event.
pub const TYPE_VALIDATION_BIT: u32 = 0x2;

/// Native bit for a performance-kind event.
pub const TYPE_PERFORMANCE_BIT: u32 = 0x4;

/// Relies on `ash::vk::DebugUtilsMessageSeverityFlagsEXT::VERBOSE`: the
/// verbose severity bit of the native encoding.
#[verifier::external_body]
fn native_severity_verbose_bit() -> (r: u32)
    ensures
        r == SEVERITY_VERBOSE_BIT,
{
    ash::vk::DebugUtilsMessageSeverityFlagsEXT::VERBOSE.as_raw()
}

/// Relies on `ash::vk::DebugUtilsMessageSeverityFlagsEXT::INFO`: the
/// informational severity bit of the native encoding.
#[verifier::external_body]
fn native_severity_info_bit() -> (r: u32)
    ensures
        r == SEVERITY_INFO_BIT,
{
    ash::vk::DebugUtilsMessageSeverityFlagsEXT::INFO.as_raw()
}

/// Relies on `ash::vk::DebugUtilsMessageSeverityFlagsEXT::WARNING`: the
/// warning severity bit of the native encoding.
#[verifier::external_body]
fn native_severity_warning_bit() -> (r: u32)
    ensures
        r == SEVERITY_WARNING_BIT,
{
    ash::vk::DebugUtilsMessageSeverityFlagsEXT::WARNING.as_raw()
}

/// Relies on `ash::vk::DebugUtilsMessageSeverityFlagsEXT::ERROR`: the
/// error severity bit of the native encoding.
#[verifier::external_body]
fn native_severity_error_bit() -> (r: u32)
    ensures
        r == SEVERITY_ERROR_BIT,
{
    ash::vk::DebugUtilsMessageSeverityFlagsEXT::ERROR.as_raw()
}

/// Relies on `ash::vk::DebugUtilsMessageTypeFlagsEXT::GENERAL`: the
/// general message-type bit of the native encoding.
#[verifier::external_body]
fn native_type_general_bit() -> (r: u32)
    ensures
        r == TYPE_GENERAL_BIT,
{
    ash::vk::DebugUtilsMessageTypeFlagsEXT::GENERAL.as_raw()
}

/// Relies on `ash::vk::DebugUtilsMessageTypeFlagsEXT::VALIDATION`: the
/// validation message-type bit of the native encoding.
#[verifier::external_body]
fn native_type_validation_bit() -> (r: u32)
    ensures
        r == TYPE_VALIDATION_BIT,
{
    ash::vk::DebugUtilsMessageTypeFlagsEXT::VALIDATION.as_raw()
}

/// Relies on `ash::vk::DebugUtilsMessageTypeFlagsEXT::PERFORMANCE`: the
/// performance message-type bit of the native encoding.
#[verifier::external_body]
fn native_type_performance_bit() -> (r: u32)
    ensures
        r == TYPE_PERFORMANCE_BIT,
{
    ash::vk::DebugUtilsMessageTypeFlagsEXT::PERFORMANCE.as_raw()
}

/// The bitmask with one bit per enabled severity flag, over bare flags.
pub open spec fn severity_mask(verbose: bool, information: bool, warning: bool, error: bool) -> u32 {
    (if verbose { SEVERITY_VERBOSE_BIT } else { 0u32 })
        | (if information { SEVERITY_INFO_BIT } else { 0u32 })
        | (if warning { SEVERITY_WARNING_BIT } else { 0u32 })
        | (if error { SEVERITY_ERROR_BIT } else { 0u32 })
}

/// The bitmask with one bit per enabled message-type flag, over bare flags.
pub open spec fn type_mask(general: bool, validation: bool, performance: bool) -> u32 {
    (if general { TYPE_GENERAL_BIT } else { 0u32 })
        | (if validation { TYPE_VALIDATION_BIT } else { 0u32 })
        | (if performance { TYPE_PERFORMANCE_BIT } else { 0u32 })
}

/// The native bitmask that encodes a severity filter: one bit per enabled flag.
pub open spec fn severity_bits(f: MessageSeverity) -> u32 {
    severity_mask(f.verbose, f.information, f.warning, f.error)
}

/// The native bitmask that encodes a message-type filter: one bit per enabled flag.
pub open spec fn type_bits(f: MessageType) -> u32 {
    type_mask(f.general, f.validation, f.performance)
}

/// The severity flags observed in a native bitmask: each defined bit is
/// tested independently; undefined bits are ignored.
pub open spec fn severity_of_bits(bits: u32) -> MessageSeverity {
    MessageSeverity {
        error: bits & SEVERITY_ERROR_BIT != 0,
        warning: bits & SEVERITY_WARNING_BIT != 0,
        information: bits & SEVERITY_INFO_BIT != 0,
        verbose: bits & SEVERITY_VERBOSE_BIT != 0,
    }
}

/// The message-type flags observed in a native bitmask: each defined bit is
/// tested independently; undefined bits are ignored.
pub open spec fn type_of_bits(bits: u32) -> MessageType {
    MessageType {
        general: bits & TYPE_GENERAL_BIT != 0,
        validation: bits & TYPE_VALIDATION_BIT != 0,
        performance: bits & TYPE_PERFORMANCE_BIT != 0,
    }
}

/// Encodes a severity filter into the native bitmask, setting exactly one
/// native bit per enabled flag; never fails.
pub fn encode_severity(f: MessageSeverity) -> (r: u32)
    ensures
        r == severity_bits(f),
{
    let verbose: u32 = if f.verbose { native_severity_verbose_bit() } else { 0 };
    let information: u32 = if f.information { native_severity_info_bit() } else { 0 };
    let warning: u32 = if f.warning { native_severity_warning_bit() } else { 0 };
    let error: u32 = if f.error { native_severity_error_bit() } else { 0 };
    verbose | information | warning | error
}

/// Encodes a message-type filter into the native bitmask, setting exactly one
/// native bit per enabled flag; never fails.
pub fn encode_type(f: MessageType) -> (r: u32)
    ensures
        r == type_bits(f),
{
    let general: u32 = if f.general { native_type_general_bit() } else { 0 };
    let validation: u32 = if f.validation { native_type_validation_bit() } else { 0 };
    let performance: u32 = if f.performance { native_type_performance_bit() } else { 0 };
    general | validation | performance
}

/// Decodes the severity flags observed in a native bitmask; total, unknown
/// bits are dropped.
pub fn decode_severity(bits: u32) -> (r: MessageSeverity)
    ensures
        r == severity_of_bits(bits),
{
    MessageSeverity {
        error: bits & native_severity_error_bit() != 0,
        warning: bits & native_severity_warning_bit() != 0,
        information: bits & native_severity_info_bit() != 0,
        verbose: bits & native_severity_verbose_bit() != 0,
    }
}

/// Decodes the message-type flags observed in a native bitmask; total,
/// unknown bits are dropped.
pub fn decode_type(bits: u32) -> (r: MessageType)
    ensures
        r == type_of_bits(bits),
{
    MessageType {
        general: bits & native_type_general_bit() != 0,
        validation: bits & native_type_validation_bit() != 0,
        performance: bits & native_type_performance_bit() != 0,
    }
}

proof fn lemma_severity_mask_bits(verbose: bool, information: bool, warning: bool, error: bool)
    by (bit_vector)
    ensures
        (severity_mask(verbose, information, warning, error) & SEVERITY_ERROR_BIT != 0) == error,
        (severity_mask(verbose, information, warning, error) & SEVERITY_WARNING_BIT != 0) == warning,
        (severity_mask(verbose, information, warning, error) & SEVERITY_INFO_BIT != 0) == information,
        (severity_mask(verbose, information, warning, error) & SEVERITY_VERBOSE_BIT != 0) == verbose,
{
}

proof fn lemma_type_mask_bits(general: bool, validation: bool, performance: bool)
    by (bit_vector)
    ensures
        (type_mask(general, validation, performance) & TYPE_GENERAL_BIT != 0) == general,
        (type_mask(general, validation, performance) & TYPE_VALIDATION_BIT != 0) == validation,
        (type_mask(general, validation, performance) & TYPE_PERFORMANCE_BIT != 0) == performance,
{
}

/// Law: decoding the encoding of a severity filter gives the filter back;
/// restricted to the defined bits the codec is a bijection.
pub proof fn lemma_severity_round_trip(f: MessageSeverity)
    ensures
        severity_of_bits(severity_bits(f)) == f,
{
    lemma_severity_mask_bits(f.verbose, f.information, f.warning, f.error);
}

/// Law: decoding the encoding of a message-type filter gives the filter back;
/// restricted to the defined bits the codec is a bijection.
pub proof fn lemma_type_round_trip(f: MessageType)
    ensures
        type_of_bits(type_bits(f)) == f,
{
    lemma_type_mask_bits(f.general, f.validation, f.performance);
}

/// Law: re-encoding a decoded severity bitmask keeps exactly the defined
/// bits; decoding loses nothing the codec can express.
pub proof fn lemma_severity_defined_bits(bits: u32)
    ensures
        severity_bits(severity_of_bits(bits)) == bits & (
        SEVERITY_VERBOSE_BIT | SEVERITY_INFO_BIT | SEVERITY_WARNING_BIT | SEVERITY_ERROR_BIT),
{
    assert(severity_mask(
        bits & SEVERITY_VERBOSE_BIT != 0,
        bits & SEVERITY_INFO_BIT != 0,
        bits & SEVERITY_WARNING_BIT != 0,
        bits & SEVERITY_ERROR_BIT != 0,
    ) == bits & (
    SEVERITY_VERBOSE_BIT | SEVERITY_INFO_BIT | SEVERITY_WARNING_BIT | SEVERITY_ERROR_BIT))
        by (bit_vector);
}

/// Law: re-encoding a decoded message-type bitmask keeps exactly the defined
/// bits; decoding loses nothing the codec can express.
pub proof fn lemma_type_defined_bits(bits: u32)
    ensures
        type_bits(type_of_bits(bits)) == bits & (
        TYPE_GENERAL_BIT | TYPE_VALIDATION_BIT | TYPE_PERFORMANCE_BIT),
{
    assert(type_mask(
        bits & TYPE_GENERAL_BIT != 0,
        bits & TYPE_VALIDATION_BIT != 0,
        bits & TYPE_PERFORMANCE_BIT != 0,
    ) == bits & (TYPE_GENERAL_BIT | TYPE_VALIDATION_BIT | TYPE_PERFORMANCE_BIT)) by (bit_vector);
}

} // verus!
