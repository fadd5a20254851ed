//! A pure model of the native subsystem's registration table.
//!
//! The real native side keeps, per registration, the trampoline pointer, the
//! opaque user-data slot and the requested filter bitmasks, and stops
//! invoking the trampoline the moment the registration is destroyed. This
//! module models that table over plain values, so that the whole protocol —
//! create, deliver, destroy — can be verified end to end and driven by tests
//! as a stand-in for the native side: handles are indexes, a registration is
//! its stored descriptor plus a liveness flag, and delivery hands back the
//! decoded [`Message`] exactly while the registration is live.
//!
//! Delivery performs no filtering: the stored descriptor is advisory to the
//! native side, and whatever event the table is driven with while a
//! registration is live is decoded and delivered unchanged.

use vstd::prelude::*;

use crate::codec::severity_bits;
use crate::codec::severity_of_bits;
use crate::codec::type_bits;
use crate::codec::type_of_bits;
use crate::filters::MessageSeverity;
use crate::filters::MessageType;
use crate::message::Message;
use crate::message::decode_event;
use crate::subscription::DebugCallback;
use crate::subscription::DebugCallbackCreationError;
use crate::subscription::RegistrationRequest;

verus! {

/// One entry of the registration table: the descriptor the registration was
/// created with, and whether the registration is still live.
#[derive(Clone, Copy, Debug, PartialEq, Eq, Structural)]
pub struct Registration {
    /// The descriptor handed to the native create call.
    pub request: RegistrationRequest,
    /// Whether the registration has not been destroyed yet.
    pub live: bool,
}

/// The registration table of the modelled native subsystem. Every native
/// create call appends an entry; a destroy call marks its entry dead and is
/// accepted only once per handle.
pub struct Registry {
    table: Vec<Registration>,
}

impl Registry {
    /// The table's entries, in order of creation; the handle of an entry is
    /// its index.
    pub closed spec fn entries(self) -> Seq<Registration> {
        self.table@
    }

    /// How many native create calls the table has accepted.
    pub open spec fn create_calls(self) -> nat {
        self.entries().len()
    }

    /// Whether events for `handle` still reach a callback: the handle was
    /// issued by a create call and its registration has not been destroyed.
    pub open spec fn delivers_to(self, handle: u64) -> bool {
        handle < self.entries().len() && self.entries()[handle as int].live
    }

    /// An empty table: no registration was ever created.
    pub fn new() -> (r: Registry)
        ensures
            r.entries() == Seq::<Registration>::empty(),
    {
        Registry { table: Vec::new() }
    }

    /// One native create call: stores the descriptor, issues the next free
    /// handle, and starts delivering events for it.
    pub fn create(&mut self, request: RegistrationRequest) -> (handle: u64)
        ensures
            final(self).entries() == old(self).entries().push(
                Registration { request, live: true },
            ),
            handle == old(self).entries().len(),
            final(self).delivers_to(handle),
            create_step(*old(self), *final(self), request, handle),
    {
        let handle = self.table.len() as u64;
        self.table.push(Registration { request, live: true });
        handle
    }

    /// One native destroy call: accepted exactly for a live handle, after
    /// which no event for that handle is delivered again. The native side
    /// also blocks here until no invocation is in flight, which the model's
    /// sequential steps reflect by ordering every delivery before or after
    /// the destroy.
    pub fn destroy(&mut self, handle: u64)
        requires
            old(self).delivers_to(handle),
        ensures
            final(self).entries() == old(self).entries().update(
                handle as int,
                Registration { request: old(self).entries()[handle as int].request, live: false },
            ),
            !final(self).delivers_to(handle),
            destroy_step(*old(self), *final(self), handle),
    {
        let idx: usize = handle as usize;
        let request = self.table[idx].request;
        self.table.set(idx, Registration { request, live: false });
    }

    /// Whether the table still delivers events for `handle`.
    pub fn is_registered(&self, handle: u64) -> (r: bool)
        ensures
            r == self.delivers_to(handle),
    {
        let len = self.table.len();
        if handle < len as u64 {
            self.table[handle as usize].live
        } else {
            false
        }
    }

    /// How many native create calls the table has accepted.
    pub fn create_count(&self) -> (r: usize)
        ensures
            r == self.create_calls(),
    {
        self.table.len()
    }

    /// Presents one native event for `handle`, exactly as the native side
    /// would: if the registration is live, the event is decoded and the
    /// message to hand to the callback is returned; after a destroy — or for
    /// a handle never issued — nothing is delivered. The stored descriptor
    /// is not consulted: the model, like the core it checks, translates and
    /// never filters.
    pub fn deliver(
        &self,
        handle: u64,
        severity_bits: u32,
        type_bits: u32,
        layer_prefix: Option<String>,
        description: String,
    ) -> (r: Option<Message>)
        ensures
            r is Some <==> self.delivers_to(handle),
            r matches Some(m) ==> {
                &&& m.severity == severity_of_bits(severity_bits)
                &&& m.ty == type_of_bits(type_bits)
                &&& m.layer_prefix == layer_prefix
                &&& m.description == description
            },
    {
        if self.is_registered(handle) {
            Some(decode_event(severity_bits, type_bits, layer_prefix, description))
        } else {
            None
        }
    }
}

/// One full registration attempt against a registration table: the
/// capability gate, then — only if it passes — the one native create call.
///
/// With the capability disabled the attempt refuses with
/// [`DebugCallbackCreationError::MissingExtension`] and the table is left
/// exactly as it was: zero native calls are issued. With the capability
/// enabled, exactly one create call is issued, carrying the encoded filter
/// bitmasks, and the returned registration is active around the new handle.
pub fn register_with(
    registry: &mut Registry,
    ext_debug_utils_enabled: bool,
    severity: MessageSeverity,
    ty: MessageType,
) -> (r: Result<DebugCallback, DebugCallbackCreationError>)
    ensures
        !ext_debug_utils_enabled ==> {
            &&& r == Result::<DebugCallback, DebugCallbackCreationError>::Err(
                DebugCallbackCreationError::MissingExtension,
            )
            &&& *final(registry) == *old(registry)
        },
        ext_debug_utils_enabled ==> (r matches Ok(cb) && {
            &&& final(registry).entries() == old(registry).entries().push(
                Registration {
                    request: RegistrationRequest {
                        severity_bits: severity_bits(severity),
                        type_bits: type_bits(ty),
                    },
                    live: true,
                },
            )
            &&& cb.is_active()
            &&& cb.handle_id() == old(registry).entries().len()
            &&& final(registry).delivers_to(cb.handle_id())
        }),
{
    match DebugCallback::new(ext_debug_utils_enabled, severity, ty) {
        Err(e) => Err(e),
        Ok(request) => {
            let handle = registry.create(request);
            Ok(DebugCallback::activate(handle))
        },
    }
}

/// One create transition of the table: the descriptor is appended live and
/// the next free handle is issued. What [`Registry::create`] does.
pub open spec fn create_step(
    pre: Registry,
    post: Registry,
    request: RegistrationRequest,
    handle: u64,
) -> bool {
    &&& post.entries() == pre.entries().push(Registration { request, live: true })
    &&& handle == pre.entries().len()
}

/// One destroy transition of the table: accepted only for a live handle,
/// whose entry it marks dead. What [`Registry::destroy`] does.
pub open spec fn destroy_step(pre: Registry, post: Registry, handle: u64) -> bool {
    &&& pre.delivers_to(handle)
    &&& post.entries() == pre.entries().update(
        handle as int,
        Registration { request: pre.entries()[handle as int].request, live: false },
    )
}

/// Law: a destroy stops delivery for its handle at once.
pub proof fn lemma_destroy_stops_delivery(pre: Registry, post: Registry, handle: u64)
    requires
        destroy_step(pre, post, handle),
    ensures
        !post.delivers_to(handle),
{
}

/// Law: once an issued handle is dead, every later step of the table — a
/// further create, a destroy of any handle — leaves it dead. The induction
/// over a whole run is [`lemma_no_delivery_in_any_future`].
pub proof fn lemma_dead_handle_stays_dead(
    pre: Registry,
    post: Registry,
    handle: u64,
    request: RegistrationRequest,
    fresh: u64,
    other: u64,
)
    requires
        handle < pre.entries().len(),
        !pre.delivers_to(handle),
        create_step(pre, post, request, fresh) || destroy_step(pre, post, other),
    ensures
        !post.delivers_to(handle),
{
    if create_step(pre, post, request, fresh) {
        assert(post.entries()[handle as int] == pre.entries()[handle as int]);
    } else {
        if other == handle {
            assert(!post.entries()[handle as int].live);
        } else {
            assert(post.entries()[handle as int] == pre.entries()[handle as int]);
        }
    }
}

/// Any one transition of the table: some create or some destroy.
pub open spec fn table_step(pre: Registry, post: Registry) -> bool {
    (exists|request: RegistrationRequest, handle: u64| create_step(pre, post, request, handle))
        || (exists|handle: u64| destroy_step(pre, post, handle))
}

/// A run of the table: every adjacent pair of states is one transition.
pub open spec fn table_run(states: Seq<Registry>) -> bool {
    forall|i: int| 0 <= i && i + 1 < states.len() ==> table_step(#[trigger] states[i], states[i + 1])
}

/// Law: after its registration is destroyed, a handle delivers no event in
/// any future of the table. Whatever run the native side is driven through
/// from a state in which an issued handle is dead — further registrations,
/// further destroys, in any order — no state of that run delivers for the
/// handle again: the stored trampoline/user-data pair of a torn-down
/// registration can never again reach the user callback.
pub proof fn lemma_no_delivery_in_any_future(states: Seq<Registry>, handle: u64)
    requires
        table_run(states),
        states.len() > 0,
        handle < states[0].entries().len(),
        !states[0].delivers_to(handle),
    ensures
        forall|i: int| 0 <= i && i < states.len() ==> !#[trigger] states[i].delivers_to(handle),
    decreases states.len(),
{
    if states.len() > 1 {
        let pre = states[0];
        let post = states[1];
        assert(table_step(pre, post));
        if exists|request: RegistrationRequest, fresh: u64| create_step(pre, post, request, fresh) {
            let (request, fresh) = choose|request: RegistrationRequest, fresh: u64|
                create_step(pre, post, request, fresh);
            lemma_dead_handle_stays_dead(pre, post, handle, request, fresh, 0);
            assert(post.entries().len() == pre.entries().len() + 1);
        } else {
            let other = choose|other: u64| destroy_step(pre, post, other);
            lemma_dead_handle_stays_dead(
                pre,
                post,
                handle,
                RegistrationRequest { severity_bits: 0, type_bits: 0 },
                0,
                other,
            );
            assert(post.entries().len() == pre.entries().len());
        }
        let rest = states.subrange(1, states.len() as int);
        assert forall|j: int| 0 <= j && j + 1 < rest.len() implies table_step(
            #[trigger] rest[j],
            rest[j + 1],
        ) by {
            assert(rest[j] == states[j + 1]);
            assert(rest[j + 1] == states[j + 2]);
            assert(table_step(states[j + 1], states[j + 2]));
        }
        assert(rest[0] == post);
        lemma_no_delivery_in_any_future(rest, handle);
        assert forall|i: int| 0 <= i && i < states.len() implies !#[trigger] states[i].delivers_to(
            handle,
        ) by {
            if i > 0 {
                assert(states[i] == rest[i - 1]);
                assert(!rest[i - 1].delivers_to(handle));
            }
        }
    }
}

} // verus!
