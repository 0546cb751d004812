//! Closure transport: carrying an owned callback across the foreign boundary.
//!
//! A user callback closes over state, so it cannot cross the boundary as a
//! bare code address: it is moved into owned storage and represented by an
//! opaque word-sized handle. The foreign side borrows the handle once per
//! notification to invoke the callback; it never owns it. The origin side
//! destroys the handle exactly once, and the contracts here make a second
//! destruction, or an invocation after destruction, impossible to verify.

use vstd::prelude::*;
use vstd::pervasive::VecAdditionalExecFns;
use vstd::pervasive::unreached;
use crate::appearance::Appearance;
use crate::appearance::render;
use crate::appearance::render_spec;

verus! {

/// The state a user callback closes over: an optional shell command to run
/// instead of printing, and whether the process ends after one invocation.
#[derive(Debug, Clone, PartialEq, Eq)]
pub struct CallbackState {
    pub command: Option<String>,
    pub exit_after: bool,
}

/// What one invocation of the callback does to the world.
#[derive(Debug, Clone, PartialEq, Eq)]
pub enum Action {
    /// Print the rendered appearance on standard output.
    Print(String),
    /// Hand the command line to a shell, with standard output and standard
    /// error inherited. A spawn failure is deliberately swallowed.
    RunShell(String),
}

/// The full outcome of one callback invocation: the action to perform and
/// whether the process ends afterwards.
#[derive(Debug, Clone, PartialEq, Eq)]
pub struct Reaction {
    pub action: Action,
    pub exit: bool,
}

/// The text an action carries: what is printed, or the command line run.
pub open spec fn action_text(a: Action) -> Seq<char> {
    match a {
        Action::Print(s) => s@,
        Action::RunShell(s) => s@,
    }
}

/// Whether an action hands a command line to a shell.
pub open spec fn is_shell(a: Action) -> bool {
    a is RunShell
}

/// The command line handed to the shell: the command, one space, the
/// rendered appearance.
pub open spec fn command_line_spec(command: Seq<char>, a: Appearance) -> Seq<char> {
    command + " "@ + render_spec(a)
}

/// Builds the shell command line for an appearance value.
pub fn command_line(command: &str, a: Appearance) -> (s: String)
    ensures
        s@ == command_line_spec(command@, a),
{
    let mut s = command.to_owned();
    s.append(" ");
    let rendered = render(a);
    s.append(rendered.as_str());
    s
}

/// What reacting to appearance `a` with callback state `cb` must produce:
/// with a command, a shell action carrying the built command line; without
/// one, printing the rendered appearance. The process ends afterwards exactly
/// when the state says so.
pub open spec fn reaction_matches(cb: CallbackState, a: Appearance, r: Reaction) -> bool {
    &&& r.exit == cb.exit_after
    &&& match cb.command {
        Some(c) => r.action matches Action::RunShell(line) && line@ == command_line_spec(c@, a),
        None => r.action matches Action::Print(out) && out@ == render_spec(a),
    }
}

/// Computes the callback's reaction to an appearance value.
pub fn react(cb: &CallbackState, a: Appearance) -> (r: Reaction)
    ensures
        reaction_matches(*cb, a, r),
{
    let action = match &cb.command {
        Some(c) => Action::RunShell(command_line(c.as_str(), a)),
        None => Action::Print(render(a)),
    };
    Reaction { action, exit: cb.exit_after }
}

/// The closure-transport storage. It owns every encoded callback and hands
/// out opaque word-sized handles fit to cross the foreign boundary; only the
/// operations here may interpret a handle's bits.
pub struct Transport {
    slots: Vec<Option<CallbackState>>,
}

/// The relation `encode` establishes between the transport before and after
/// the call, the callback that was moved in and the handle handed back: the
/// handle is fresh and live, it decodes to that callback, and every
/// previously live handle survives and decodes unchanged.
pub open spec fn encoded(pre: Transport, post: Transport, cb: CallbackState, h: usize) -> bool {
    &&& post.live(h)
    &&& post.decode_spec(h) == cb
    &&& !pre.live(h)
    &&& forall|g: usize|
        pre.live(g) ==> post.live(g) && post.decode_spec(g) == pre.decode_spec(g)
}

impl Transport {
    /// A live handle: one that was handed out by `encode` and not yet
    /// destroyed, so it may still be dereferenced.
    pub closed spec fn live(self, h: usize) -> bool {
        h < self.slots@.len() && self.slots@[h as int] is Some
    }

    /// The callback state a live handle decodes to.
    pub closed spec fn decode_spec(self, h: usize) -> CallbackState
        recommends
            self.live(h),
    {
        self.slots@[h as int]->Some_0
    }

    /// A transport with no encoded callback: no handle is live.
    pub fn new() -> (t: Transport)
        ensures
            forall|h: usize| !t.live(h),
    {
        Transport { slots: Vec::new() }
    }

    /// Moves ownership of the callback into owned storage and returns the
    /// opaque handle under which the foreign side may have it invoked.
    pub fn encode(&mut self, cb: CallbackState) -> (h: usize)
        ensures
            encoded(*old(self), *final(self), cb, h),
            forall|g: usize| g != h && !old(self).live(g) ==> !final(self).live(g),
    {
        let h = self.slots.len();
        self.slots.push(Some(cb));
        h
    }

    /// Reconstructs a borrowed callback from a live handle and invokes it
    /// with the given value. The transport is only borrowed, so invocation
    /// may repeat any number of times before the handle is destroyed.
    pub fn invoke(&self, h: usize, a: Appearance) -> (r: Reaction)
        requires
            self.live(h),
        ensures
            reaction_matches(self.decode_spec(h), a, r),
    {
        match &self.slots[h] {
            Some(cb) => react(cb, a),
            None => unreached(),
        }
    }

    /// Reconstructs the owned callback behind a live handle and drops it,
    /// reclaiming its storage. The handle is dead afterwards, so destroying
    /// it twice, or invoking through it later, cannot be verified; every
    /// other live handle survives and decodes unchanged.
    pub fn destroy(&mut self, h: usize)
        requires
            old(self).live(h),
        ensures
            !final(self).live(h),
            forall|g: usize|
                g != h && old(self).live(g) ==> final(self).live(g) && final(self).decode_spec(g)
                    == old(self).decode_spec(g),
            forall|g: usize| !old(self).live(g) ==> !final(self).live(g),
    {
        self.slots.set(h, None);
    }
}

/// Law: the encode/decode round trip preserves the callback. A handle handed
/// out by `encode` decodes to the very callback that was moved in, so any
/// invocation through it — for every appearance value, any number of times —
/// satisfies exactly the reaction description of that callback.
pub proof fn lemma_encode_decode(
    pre: Transport,
    post: Transport,
    cb: CallbackState,
    h: usize,
    a: Appearance,
    r: Reaction,
)
    requires
        encoded(pre, post, cb, h),
        reaction_matches(post.decode_spec(h), a, r),
    ensures
        post.decode_spec(h) == cb,
        reaction_matches(cb, a, r),
{
}

/// Law: a reaction is determined by the decoded callback and the appearance
/// value alone. Two reactions to the same callback state and value carry the
/// same text, the same kind of action and the same exit decision, so repeated
/// invocations through one handle are interchangeable.
pub proof fn lemma_invoke_deterministic(cb: CallbackState, a: Appearance, r1: Reaction, r2: Reaction)
    requires
        reaction_matches(cb, a, r1),
        reaction_matches(cb, a, r2),
    ensures
        r1.exit == r2.exit,
        is_shell(r1.action) == is_shell(r2.action),
        action_text(r1.action) == action_text(r2.action),
{
}

} // verus!
