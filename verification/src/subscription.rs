//! Subscription handle: one active key-value observation and its teardown.
//!
//! A subscription binds the observed native object (held weakly: it must not
//! be kept alive, and may be gone by teardown time), the watched property
//! path, the requested notification options, and the encoded callback it
//! owns. Teardown happens exactly once: unregister first — if the target
//! still exists — then destroy the closure transport, so that no in-flight
//! notification can reach a freed callback.

use vstd::prelude::*;
use crate::transport::CallbackState;
use crate::transport::Transport;

verus! {

/// Asks each notification to carry the property's new value.
pub const OPTION_NEW: u64 = 0x01;

/// Asks each notification to carry the property's previous value.
pub const OPTION_OLD: u64 = 0x02;

/// Asks for one notification immediately upon registration.
pub const OPTION_INITIAL: u64 = 0x04;

/// Asks for an extra notification before each change.
pub const OPTION_PRIOR: u64 = 0x08;

/// Property-change notification option flags, as the native side counts
/// them: a word with one bit per option.
#[derive(Debug, Clone, Copy, PartialEq, Eq, Structural)]
pub struct ObserveOptions {
    pub bits: u64,
}

impl ObserveOptions {
    /// Whether the flag word asks for the new value in each notification.
    pub open spec fn spec_has_new(self) -> bool {
        self.bits & OPTION_NEW != 0
    }

    /// The option set that asks for the new value alone.
    pub fn new_value() -> (o: ObserveOptions)
        ensures
            o.bits == OPTION_NEW,
            o.spec_has_new(),
    {
        let o = ObserveOptions { bits: OPTION_NEW };
        proof {
            assert(1u64 & 1u64 != 0u64) by (bit_vector);
        }
        o
    }
}

/// A model of the native notification source as the subscription sees it:
/// whether the object is still there, and how many observer proxies are
/// registered on it for the watched property.
#[derive(Debug, Clone, Copy, PartialEq, Eq, Structural)]
pub struct NativeTarget {
    /// False models both a nil reference and an already-deallocated object:
    /// in either shape there is nothing to register on or unregister from.
    pub exists: bool,
    /// The number of observer proxies currently registered.
    pub observers: u64,
}

/// Why an observation could not be registered.
#[derive(Debug, Clone, Copy, PartialEq, Eq, Structural)]
pub enum ObserveError {
    /// The object to observe does not exist; nothing was registered and no
    /// callback was encoded.
    InvalidTarget,
}

impl ObserveError {
    /// A human-readable description of the error.
    pub fn describe(&self) -> (s: String)
        ensures
            s@ == "cannot observe on a nil object"@,
    {
        "cannot observe on a nil object".to_owned()
    }
}

/// One step of teardown, recorded in the order the steps were performed.
#[derive(Debug, Clone, Copy, PartialEq, Eq, Structural)]
pub enum TeardownEvent {
    /// The observer proxy was unregistered from the still-living target.
    Unregistered,
    /// The closure transport was destroyed, reclaiming the callback.
    TransportDestroyed,
}

/// One active observation. It owns the observer proxy and the encoded
/// callback — exactly one closure transport handle per subscription — and is
/// the single point of teardown.
#[derive(Debug)]
pub struct Subscription {
    handle: usize,
    key_path: String,
    options: ObserveOptions,
}

impl Subscription {
    /// The transport handle this subscription owns.
    pub closed spec fn handle_spec(self) -> usize {
        self.handle
    }

    /// The watched property path.
    pub closed spec fn key_path_spec(self) -> Seq<char> {
        self.key_path@
    }

    /// The option flags the observation was registered with.
    pub closed spec fn options_spec(self) -> ObserveOptions {
        self.options
    }

    /// The transport handle this subscription owns.
    pub fn handle(&self) -> (h: usize)
        ensures
            h == self.handle_spec(),
    {
        self.handle
    }

    /// Registers an observation of `key_path` on the target with the given
    /// option flags: encodes the callback into the transport, registers one
    /// observer proxy, and returns the subscription owning both. A target
    /// that does not exist is rejected up front with `InvalidTarget`: no
    /// proxy is registered and no callback is encoded, so no partial state
    /// remains.
    pub fn observe(
        target: &mut NativeTarget,
        key_path: &str,
        options: ObserveOptions,
        transport: &mut Transport,
        cb: CallbackState,
    ) -> (r: Result<Subscription, ObserveError>)
        requires
            old(target).exists ==> old(target).observers < u64::MAX,
        ensures
            !old(target).exists ==> {
                &&& r matches Err(e) && e == ObserveError::InvalidTarget
                &&& *final(target) == *old(target)
                &&& *final(transport) == *old(transport)
            },
            old(target).exists ==> (r matches Ok(sub) && {
                &&& final(target).exists
                &&& final(target).observers == old(target).observers + 1
                &&& final(transport).live(sub.handle_spec())
                &&& final(transport).decode_spec(sub.handle_spec()) == cb
                &&& !old(transport).live(sub.handle_spec())
                &&& sub.key_path_spec() == key_path@
                &&& sub.options_spec() == options
                &&& forall|g: usize|
                    old(transport).live(g) ==> final(transport).live(g)
                        && final(transport).decode_spec(g) == old(transport).decode_spec(g)
            }),
    {
        if !target.exists {
            return Err(ObserveError::InvalidTarget);
        }
        let handle = transport.encode(cb);
        target.observers = target.observers + 1;
        Ok(Subscription { handle, key_path: key_path.to_owned(), options })
    }

    /// Tears the subscription down, exactly once — it is consumed. The
    /// weakly-held target is loaded first: if it is already gone,
    /// unregistration is skipped (there is nothing left to unregister) but
    /// the closure transport is still destroyed. Otherwise the proxy is
    /// unregistered first and the transport destroyed second, so no
    /// in-flight notification can reach a freed callback. Every step
    /// performed is appended to `trace` in order.
    pub fn teardown(
        self,
        target: &mut NativeTarget,
        transport: &mut Transport,
        trace: &mut Vec<TeardownEvent>,
    )
        requires
            old(transport).live(self.handle_spec()),
            old(target).exists ==> old(target).observers >= 1,
        ensures
            !final(transport).live(self.handle_spec()),
            forall|g: usize|
                g != self.handle_spec() && old(transport).live(g) ==> final(transport).live(g)
                    && final(transport).decode_spec(g) == old(transport).decode_spec(g),
            old(target).exists ==> {
                &&& final(target).exists
                &&& final(target).observers == old(target).observers - 1
                &&& final(trace)@ == old(trace)@ + seq![
                    TeardownEvent::Unregistered,
                    TeardownEvent::TransportDestroyed,
                ]
            },
            !old(target).exists ==> {
                &&& *final(target) == *old(target)
                &&& final(trace)@ == old(trace)@ + seq![TeardownEvent::TransportDestroyed]
            },
    {
        if target.exists {
            target.observers = target.observers - 1;
            trace.push(TeardownEvent::Unregistered);
        }
        transport.destroy(self.handle);
        trace.push(TeardownEvent::TransportDestroyed);
        proof {
            if old(target).exists {
                assert(trace@ =~= old(trace)@ + seq![
                    TeardownEvent::Unregistered,
                    TeardownEvent::TransportDestroyed,
                ]);
            } else {
                assert(trace@ =~= old(trace)@ + seq![TeardownEvent::TransportDestroyed]);
            }
        }
    }
}

/// Law: however the observed target ended, teardown destroys the transport
/// exactly once and records it as the final step of the trace — never before
/// an unregistration.
pub proof fn lemma_teardown_order(
    pre: Seq<TeardownEvent>,
    post: Seq<TeardownEvent>,
    target_existed: bool,
)
    requires
        target_existed ==> post == pre + seq![
            TeardownEvent::Unregistered,
            TeardownEvent::TransportDestroyed,
        ],
        !target_existed ==> post == pre + seq![TeardownEvent::TransportDestroyed],
    ensures
        post.len() > pre.len(),
        post.last() == TeardownEvent::TransportDestroyed,
        forall|i: int|
            pre.len() <= i < post.len() - 1 ==> post[i] == TeardownEvent::Unregistered,
{
}

} // verus!
