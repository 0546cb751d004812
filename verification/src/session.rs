//! Bridge runtime decisions: what one observation run does and when.
//!
//! The blocking native run loop itself lives outside the library; the
//! decisions it acts on are all here. A run moves from idle to subscribed to
//! running: the callback state is drawn from the command-line options, fired
//! once with the current appearance when asked to, then registered as an
//! observation of the effective-appearance property with new-value
//! notifications. Each notification payload is classified and answered with
//! the callback's reaction; a missing payload is ignored. Cancellation is
//! process termination: there is no stopped state reachable from a normal
//! run, and teardown of the subscription is the single exit path otherwise.

use vstd::prelude::*;
use crate::appearance::classify;
use crate::appearance::classify_spec;
use crate::subscription::NativeTarget;
use crate::subscription::ObserveError;
use crate::subscription::ObserveOptions;
use crate::subscription::Subscription;
use crate::subscription::TeardownEvent;
use crate::transport::CallbackState;
use crate::transport::Reaction;
use crate::transport::Transport;
use crate::transport::reaction_matches;

verus! {

/// The command-line surface of the watcher: end after one value, run a shell
/// command instead of printing, report only actual transitions.
#[derive(Debug, Clone, PartialEq, Eq)]
pub struct Options {
    /// Get the current appearance, print it or run the command once, then
    /// end the process.
    pub exit: bool,
    /// Run this command instead of printing.
    pub command: Option<String>,
    /// Do not report the initial value, only actual changes.
    pub only_changes: bool,
}

impl Options {
    /// Whether the callback fires once at startup, before the run loop:
    /// always, unless only changes are wanted — but a run that ends after
    /// one value must fire immediately regardless.
    pub open spec fn trigger_initially_spec(self) -> bool {
        !self.only_changes || self.exit
    }

    /// Decides the startup trigger from the options.
    pub fn trigger_initially(&self) -> (b: bool)
        ensures
            b == self.trigger_initially_spec(),
    {
        !self.only_changes || self.exit
    }

    /// The state the watch callback closes over.
    pub fn callback_state(&self) -> (cb: CallbackState)
        ensures
            cb.command == self.command,
            cb.exit_after == self.exit,
    {
        let command = match &self.command {
            Some(c) => Some(c.clone()),
            None => None,
        };
        CallbackState { command, exit_after: self.exit }
    }
}

/// The startup invocation, before any registration: when the trigger is
/// wanted and the current appearance is actually there, the callback reacts
/// to its classification; a missing payload fires nothing.
pub fn initial_reaction(cb: &CallbackState, trigger_initially: bool, current_token: Option<&str>) -> (r:
    Option<Reaction>)
    ensures
        (r is Some) == (trigger_initially && current_token is Some),
        trigger_initially ==> (current_token matches Some(t) ==> (r matches Some(re)
            && reaction_matches(*cb, classify_spec(Some(t@)), re))),
{
    if !trigger_initially {
        return None;
    }
    match current_token {
        Some(t) => Some(crate::transport::react(cb, classify(Some(t)))),
        None => None,
    }
}

/// One observation run: the subscribed state of the bridge. It owns the
/// subscription — and through it the encoded callback — until the run ends.
#[derive(Debug)]
pub struct Session {
    sub: Subscription,
}

impl Session {
    /// The transport handle of the run's encoded callback.
    pub closed spec fn handle_spec(self) -> usize {
        self.sub.handle_spec()
    }

    /// The watched property path.
    pub closed spec fn key_path_spec(self) -> Seq<char> {
        self.sub.key_path_spec()
    }

    /// The option flags the run's observation was registered with.
    pub closed spec fn options_spec(self) -> ObserveOptions {
        self.sub.options_spec()
    }

    /// Subscribes to the application's effective-appearance property with
    /// new-value notifications, encoding the callback into the transport.
    /// With no target to observe, `InvalidTarget` comes back before anything
    /// is registered or encoded.
    pub fn start(target: &mut NativeTarget, transport: &mut Transport, cb: CallbackState) -> (r:
        Result<Session, ObserveError>)
        requires
            old(target).exists ==> old(target).observers < u64::MAX,
        ensures
            !old(target).exists ==> {
                &&& r matches Err(e) && e == ObserveError::InvalidTarget
                &&& *final(target) == *old(target)
                &&& *final(transport) == *old(transport)
            },
            old(target).exists ==> (r matches Ok(s) && {
                &&& final(target).exists
                &&& final(target).observers == old(target).observers + 1
                &&& final(transport).live(s.handle_spec())
                &&& final(transport).decode_spec(s.handle_spec()) == cb
                &&& !old(transport).live(s.handle_spec())
                &&& s.key_path_spec() == "effectiveAppearance"@
                &&& s.options_spec().spec_has_new()
                &&& forall|g: usize|
                    old(transport).live(g) ==> final(transport).live(g)
                        && final(transport).decode_spec(g) == old(transport).decode_spec(g)
            }),
    {
        let options = ObserveOptions::new_value();
        match Subscription::observe(target, "effectiveAppearance", options, transport, cb) {
            Ok(sub) => Ok(Session { sub }),
            Err(e) => Err(e),
        }
    }

    /// Answers one property-change notification: the payload token, when
    /// there is one, is classified and the transported callback invoked with
    /// the result; a missing payload is ignored and nothing is invoked.
    pub fn on_notification(&self, transport: &Transport, token: Option<&str>) -> (r: Option<
        Reaction>)
        requires
            transport.live(self.handle_spec()),
        ensures
            (r is Some) == (token is Some),
            token matches Some(t) ==> (r matches Some(re) && reaction_matches(
                transport.decode_spec(self.handle_spec()),
                classify_spec(Some(t@)),
                re,
            )),
    {
        match token {
            Some(t) => Some(transport.invoke(self.sub.handle(), classify(Some(t)))),
            None => None,
        }
    }

    /// Ends the run: tears the subscription down exactly once, unregistering
    /// from the target if it still exists and destroying the transported
    /// callback either way.
    pub fn finish(
        self,
        target: &mut NativeTarget,
        transport: &mut Transport,
        trace: &mut Vec<TeardownEvent>,
    )
        requires
            old(transport).live(self.handle_spec()),
            old(target).exists ==> old(target).observers >= 1,
        ensures
            !final(transport).live(self.handle_spec()),
            forall|g: usize|
                g != self.handle_spec() && old(transport).live(g) ==> final(transport).live(g)
                    && final(transport).decode_spec(g) == old(transport).decode_spec(g),
            old(target).exists ==> {
                &&& final(target).exists
                &&& final(target).observers == old(target).observers - 1
                &&& final(trace)@ == old(trace)@ + seq![
                    TeardownEvent::Unregistered,
                    TeardownEvent::TransportDestroyed,
                ]
            },
            !old(target).exists ==> {
                &&& *final(target) == *old(target)
                &&& final(trace)@ == old(trace)@ + seq![TeardownEvent::TransportDestroyed]
            },
    {
        self.sub.teardown(target, transport, trace)
    }
}

/// Law: the startup trigger fires exactly when the options allow it — it is
/// suppressed only when nothing but changes is wanted, and a run that ends
/// after one value always fires once.
pub proof fn lemma_trigger_initially(opts: Options)
    ensures
        opts.trigger_initially_spec() == (!opts.only_changes || opts.exit),
        opts.exit ==> opts.trigger_initially_spec(),
        opts.only_changes && !opts.exit ==> !opts.trigger_initially_spec(),
{
}

} // verus!
