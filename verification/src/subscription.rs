//! Registration and teardown of a debug callback.
//!
//! The state machine is `Active -> Deregistered`, terminal: a registration is
//! created around one native "create" call and releases its native handle
//! exactly once, through one native "destroy" call. The native calls
//! themselves are made by the unsafe shell around the library; the functions
//! here make every decision around them: the capability gate, the encoding of
//! the registration descriptor, and the exactly-once release.
//!
//! Registration runs in three verified steps:
//! 1. [`DebugCallback::new`] checks the capability and encodes the
//!    descriptor, or refuses with a [`DebugCallbackCreationError`] before any
//!    native call is reachable;
//! 2. the shell issues the native create call with the descriptor's bitmasks
//!    (on a native failure it surfaces the native error and frees what it
//!    allocated, and no state exists yet to clean up here);
//! 3. [`DebugCallback::activate`] wraps the returned native handle in an
//!    `Active` state value, whose [`DebugCallback::teardown`] releases the
//!    handle the first time and refuses every later time.

use vstd::prelude::*;

use crate::codec::encode_severity;
use crate::codec::encode_type;
use crate::codec::severity_bits;
use crate::codec::type_bits;
use crate::filters::MessageSeverity;
use crate::filters::MessageType;

verus! {

/// Error that can happen when creating a debug callback.
#[derive(Clone, Copy, Debug, PartialEq, Eq, Structural)]
pub enum DebugCallbackCreationError {
    /// The `EXT_debug_utils` extension was not enabled on the native context.
    MissingExtension,
}

impl DebugCallbackCreationError {
    /// A human-readable description of the error.
    pub fn description(&self) -> (r: &'static str)
        ensures
            r@ == "the `EXT_debug_utils` extension was not enabled"@,
    {
        "the `EXT_debug_utils` extension was not enabled"
    }
}

/// The native registration descriptor, encoded and ready for the one native
/// create call: which severities and which message kinds the native side is
/// asked to deliver.
#[derive(Clone, Copy, Debug, PartialEq, Eq, Structural)]
pub struct RegistrationRequest {
    /// Native bitmask encoding the requested severities.
    pub severity_bits: u32,
    /// Native bitmask encoding the requested message kinds.
    pub type_bits: u32,
}

/// Registration of a callback with the native subsystem.
///
/// Holds the native registration handle and whether it is still owed a
/// native destroy call. The callback stays reachable through the stored
/// handle's registration for exactly as long as this value is active.
pub struct DebugCallback {
    handle: u64,
    active: bool,
}

impl DebugCallback {
    /// Whether the registration still holds its native handle.
    pub closed spec fn is_active(self) -> bool {
        self.active
    }

    /// The native registration handle this value owns.
    pub closed spec fn handle_id(self) -> u64 {
        self.handle
    }

    /// The capability gate and descriptor encoding of registration.
    ///
    /// Returns the encoded native registration descriptor, or refuses with
    /// [`DebugCallbackCreationError::MissingExtension`] — and hands the shell
    /// nothing it could pass to a native call — exactly when the
    /// `EXT_debug_utils` capability is not enabled on the native context.
    pub fn new(
        ext_debug_utils_enabled: bool,
        severity: MessageSeverity,
        ty: MessageType,
    ) -> (r: Result<RegistrationRequest, DebugCallbackCreationError>)
        ensures
            r is Ok <==> ext_debug_utils_enabled,
            !ext_debug_utils_enabled ==> r == Result::<
                RegistrationRequest,
                DebugCallbackCreationError,
            >::Err(DebugCallbackCreationError::MissingExtension),
            ext_debug_utils_enabled ==> r == Result::<
                RegistrationRequest,
                DebugCallbackCreationError,
            >::Ok(
                RegistrationRequest {
                    severity_bits: severity_bits(severity),
                    type_bits: type_bits(ty),
                },
            ),
    {
        if !ext_debug_utils_enabled {
            return Err(DebugCallbackCreationError::MissingExtension);
        }
        Ok(RegistrationRequest {
            severity_bits: encode_severity(severity),
            type_bits: encode_type(ty),
        })
    }

    /// Shortcut for [`DebugCallback::new`] with the errors-and-warnings
    /// severity preset and the general message-type preset.
    pub fn errors_and_warnings(ext_debug_utils_enabled: bool) -> (r: Result<
        RegistrationRequest,
        DebugCallbackCreationError,
    >)
        ensures
            r is Ok <==> ext_debug_utils_enabled,
            !ext_debug_utils_enabled ==> r == Result::<
                RegistrationRequest,
                DebugCallbackCreationError,
            >::Err(DebugCallbackCreationError::MissingExtension),
            ext_debug_utils_enabled ==> r == Result::<
                RegistrationRequest,
                DebugCallbackCreationError,
            >::Ok(
                RegistrationRequest {
                    severity_bits: severity_bits(
                        MessageSeverity { error: true, warning: true, information: false, verbose: false },
                    ),
                    type_bits: type_bits(
                        MessageType { general: true, validation: false, performance: false },
                    ),
                },
            ),
    {
        DebugCallback::new(
            ext_debug_utils_enabled,
            MessageSeverity::errors_and_warnings(),
            MessageType::general(),
        )
    }

    /// Enters the `Active` state around the handle the native create call
    /// returned. From here on the handle is owed exactly one release.
    pub fn activate(handle: u64) -> (cb: DebugCallback)
        ensures
            cb.is_active(),
            cb.handle_id() == handle,
    {
        DebugCallback { handle, active: true }
    }

    /// Whether the registration still holds its native handle.
    pub fn is_live(&self) -> (r: bool)
        ensures
            r == self.is_active(),
    {
        self.active
    }

    /// The native registration handle this value owns.
    pub fn handle(&self) -> (r: u64)
        ensures
            r == self.handle_id(),
    {
        self.handle
    }

    /// Leaves the `Active` state, surrendering the native handle to be
    /// destroyed: returns `Some(handle)` the first time, on which the shell
    /// must issue the native destroy call and free the callback object, and
    /// `None` — nothing to release — every later time. The shell calls this
    /// from both the explicit close and the drop path, so a handle that was
    /// already surrendered can never be destroyed again.
    pub fn teardown(&mut self) -> (r: Option<u64>)
        ensures
            teardown_step(*old(self), *final(self), r),
    {
        if self.active {
            self.active = false;
            Some(self.handle)
        } else {
            None
        }
    }
}

/// One teardown transition: the registration ends inactive with its handle
/// unchanged, and the native handle is surrendered for destruction iff the
/// registration was still active.
pub open spec fn teardown_step(pre: DebugCallback, post: DebugCallback, released: Option<u64>) -> bool {
    &&& !post.is_active()
    &&& post.handle_id() == pre.handle_id()
    &&& released == (if pre.is_active() {
        Some(pre.handle_id())
    } else {
        None::<u64>
    })
}

/// Law: teardown releases the native handle at most once. However many
/// teardown transitions a registration goes through — the explicit close,
/// then the drop path — every transition after the first surrenders nothing,
/// so the native destroy call and the release of the callback object cannot
/// be repeated.
pub proof fn lemma_teardown_releases_at_most_once(
    s0: DebugCallback,
    s1: DebugCallback,
    s2: DebugCallback,
    r1: Option<u64>,
    r2: Option<u64>,
)
    requires
        teardown_step(s0, s1, r1),
        teardown_step(s1, s2, r2),
    ensures
        r2 is None,
{
}

} // verus!
