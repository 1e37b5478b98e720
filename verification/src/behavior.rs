//! Behavior hooks and the ordered chain that runs them.
use vstd::prelude::*;
use crate::address::{route_view, AddressView, PipeAddress};
use crate::envelope::{EnvelopeView, InternalCmd, PipeMessage, TransportParts, TransportView};

verus! {

/// What a hook says of a data message.
#[derive(Clone, Copy, Debug, PartialEq, Eq, Structural)]
pub enum PipeModifier {
    /// No opinion: the message goes on to the next hook.
    Continue,
    /// Veto: the message is discarded and no later hook sees it.
    Drop,
}

/// The failure of a hook, by its code.
#[derive(Clone, Copy, Debug, PartialEq, Eq, Structural)]
pub struct HookError {
    pub code: u32,
}

/// The one thing a hook can do to the world: queue a message of its own for
/// sending. The host of the receiver sends what is queued, in order.
#[derive(Debug)]
pub struct Outbox {
    queued: Vec<TransportParts>,
}

impl View for Outbox {
    type V = Seq<TransportView>;

    closed spec fn view(&self) -> Seq<TransportView> {
        self.queued@.map_values(|m: TransportParts| m@)
    }
}

impl Outbox {
    /// An outbox with nothing queued.
    pub fn new() -> (r: Outbox)
        ensures
            r@ == Seq::<TransportView>::empty(),
    {
        let r = Outbox { queued: Vec::new() };
        assert(r@ =~= Seq::<TransportView>::empty());
        r
    }

    /// Queues `msg` behind what is queued already.
    pub fn send(&mut self, msg: TransportParts)
        ensures
            final(self)@ == old(self)@.push(msg@),
    {
        self.queued.push(msg);
        assert(self@ =~= old(self)@.push(msg@));
    }

    /// The number of queued messages.
    pub fn len(&self) -> (r: usize)
        ensures
            r == self@.len(),
    {
        self.queued.len()
    }

    /// The queued message at position `i`.
    pub fn get(&self, i: usize) -> (r: Option<&TransportParts>)
        ensures
            match r {
                Some(m) => i < self@.len() && m@ == self@[i as int],
                None => i >= self@.len(),
            },
    {
        if i < self.queued.len() {
            Some(&self.queued[i])
        } else {
            None
        }
    }
}

/// A pluggable delivery behavior. A hook sees every data message and every
/// control command of its pipe and may keep state between them.
///
/// The three spec functions of each entry point say what the hook answers
/// in a given state, which state it is in afterwards, and which messages of
/// its own it queues.
pub trait BehaviorHook: Sized {
    /// The answer to a data message.
    spec fn external_verdict(
        &self,
        this: AddressView,
        sender: Seq<AddressView>,
        msg: EnvelopeView,
    ) -> Result<PipeModifier, HookError>;

    /// The hook after it has seen a data message.
    spec fn after_external(
        &self,
        this: AddressView,
        sender: Seq<AddressView>,
        msg: EnvelopeView,
    ) -> Self;

    /// The messages the hook sends on a data message.
    spec fn external_sends(
        &self,
        this: AddressView,
        sender: Seq<AddressView>,
        msg: EnvelopeView,
    ) -> Seq<TransportView>;

    /// The answer to a control command.
    spec fn internal_verdict(
        &self,
        this: AddressView,
        sender: Seq<AddressView>,
        cmd: InternalCmd,
    ) -> Result<(), HookError>;

    /// The hook after it has seen a control command.
    spec fn after_internal(
        &self,
        this: AddressView,
        sender: Seq<AddressView>,
        cmd: InternalCmd,
    ) -> Self;

    /// The messages the hook sends on a control command.
    spec fn internal_sends(
        &self,
        this: AddressView,
        sender: Seq<AddressView>,
        cmd: InternalCmd,
    ) -> Seq<TransportView>;

    /// Handles a data message that arrived at `this` from `sender`.
    fn on_external(
        &mut self,
        this: &PipeAddress,
        sender: &Vec<PipeAddress>,
        outbox: &mut Outbox,
        msg: &PipeMessage,
    ) -> (r: Result<PipeModifier, HookError>)
        ensures
            r == old(self).external_verdict(this@, route_view(sender@), msg@),
            *final(self) == old(self).after_external(this@, route_view(sender@), msg@),
            final(outbox)@ == old(outbox)@ + old(self).external_sends(
                this@,
                route_view(sender@),
                msg@,
            ),
    ;

    /// Handles a control command that arrived at `this` from `sender`.
    fn on_internal(
        &mut self,
        this: &PipeAddress,
        sender: &Vec<PipeAddress>,
        outbox: &mut Outbox,
        cmd: &InternalCmd,
    ) -> (r: Result<(), HookError>)
        ensures
            r == old(self).internal_verdict(this@, route_view(sender@), *cmd),
            *final(self) == old(self).after_internal(this@, route_view(sender@), *cmd),
            final(outbox)@ == old(outbox)@ + old(self).internal_sends(
                this@,
                route_view(sender@),
                *cmd,
            ),
    ;
}

/// The position of the first hook at or after `from` that does not let a
/// data message pass; the length of the chain where every one of them does.
pub open spec fn external_stop<H: BehaviorHook>(
    hooks: Seq<H>,
    this: AddressView,
    sender: Seq<AddressView>,
    msg: EnvelopeView,
    from: int,
) -> int
    decreases hooks.len() - from,
{
    if from < 0 || from >= hooks.len() {
        hooks.len() as int
    } else if hooks[from].external_verdict(this, sender, msg) == Ok::<PipeModifier, HookError>(
        PipeModifier::Continue,
    ) {
        external_stop(hooks, this, sender, msg, from + 1)
    } else {
        from
    }
}

/// What the chain answers to a data message: what its first hook that does
/// not let the message pass answers, and `Continue` where there is none.
pub open spec fn external_outcome<H: BehaviorHook>(
    hooks: Seq<H>,
    this: AddressView,
    sender: Seq<AddressView>,
    msg: EnvelopeView,
) -> Result<PipeModifier, HookError> {
    let k = external_stop(hooks, this, sender, msg, 0);
    if 0 <= k < hooks.len() {
        hooks[k].external_verdict(this, sender, msg)
    } else {
        Ok(PipeModifier::Continue)
    }
}

/// The chain after a data message: the hooks up to and including the one
/// that stopped it have seen the message, the ones behind it have not.
pub open spec fn after_external_all<H: BehaviorHook>(
    hooks: Seq<H>,
    this: AddressView,
    sender: Seq<AddressView>,
    msg: EnvelopeView,
) -> Seq<H> {
    let k = external_stop(hooks, this, sender, msg, 0);
    Seq::new(
        hooks.len(),
        |j: int|
            if j <= k {
                hooks[j].after_external(this, sender, msg)
            } else {
                hooks[j]
            },
    )
}

/// The number of hooks that a data message reaches: those up to and
/// including the one that stops it.
pub open spec fn external_reach<H: BehaviorHook>(
    hooks: Seq<H>,
    this: AddressView,
    sender: Seq<AddressView>,
    msg: EnvelopeView,
) -> int {
    let k = external_stop(hooks, this, sender, msg, 0);
    if k < hooks.len() {
        k + 1
    } else {
        hooks.len() as int
    }
}

/// What the first `n` hooks send on a data message, in the order of the
/// hooks.
pub open spec fn external_sends_of<H: BehaviorHook>(
    hooks: Seq<H>,
    this: AddressView,
    sender: Seq<AddressView>,
    msg: EnvelopeView,
    n: int,
) -> Seq<TransportView>
    decreases n,
{
    if n <= 0 || n > hooks.len() {
        Seq::empty()
    } else {
        external_sends_of(hooks, this, sender, msg, n - 1) + hooks[n - 1].external_sends(
            this,
            sender,
            msg,
        )
    }
}

/// What the chain sends on a data message: what the hooks that the message
/// reaches send, in their order.
pub open spec fn external_sends_all<H: BehaviorHook>(
    hooks: Seq<H>,
    this: AddressView,
    sender: Seq<AddressView>,
    msg: EnvelopeView,
) -> Seq<TransportView> {
    external_sends_of(hooks, this, sender, msg, external_reach(hooks, this, sender, msg))
}

/// The position of the first hook at or after `from` that fails on a
/// control command; the length of the chain where none does.
pub open spec fn internal_stop<H: BehaviorHook>(
    hooks: Seq<H>,
    this: AddressView,
    sender: Seq<AddressView>,
    cmd: InternalCmd,
    from: int,
) -> int
    decreases hooks.len() - from,
{
    if from < 0 || from >= hooks.len() {
        hooks.len() as int
    } else if hooks[from].internal_verdict(this, sender, cmd) is Ok {
        internal_stop(hooks, this, sender, cmd, from + 1)
    } else {
        from
    }
}

/// What the chain answers to a control command: the failure of its first
/// hook that fails, and success where none does.
pub open spec fn internal_outcome<H: BehaviorHook>(
    hooks: Seq<H>,
    this: AddressView,
    sender: Seq<AddressView>,
    cmd: InternalCmd,
) -> Result<(), HookError> {
    let k = internal_stop(hooks, this, sender, cmd, 0);
    if 0 <= k < hooks.len() {
        hooks[k].internal_verdict(this, sender, cmd)
    } else {
        Ok(())
    }
}

/// The chain after a control command: the hooks up to and including the
/// one that failed have seen the command, the ones behind it have not.
pub open spec fn after_internal_all<H: BehaviorHook>(
    hooks: Seq<H>,
    this: AddressView,
    sender: Seq<AddressView>,
    cmd: InternalCmd,
) -> Seq<H> {
    let k = internal_stop(hooks, this, sender, cmd, 0);
    Seq::new(
        hooks.len(),
        |j: int|
            if j <= k {
                hooks[j].after_internal(this, sender, cmd)
            } else {
                hooks[j]
            },
    )
}

/// The number of hooks that a control command reaches: those up to and
/// including the one that fails on it.
pub open spec fn internal_reach<H: BehaviorHook>(
    hooks: Seq<H>,
    this: AddressView,
    sender: Seq<AddressView>,
    cmd: InternalCmd,
) -> int {
    let k = internal_stop(hooks, this, sender, cmd, 0);
    if k < hooks.len() {
        k + 1
    } else {
        hooks.len() as int
    }
}

/// What the first `n` hooks send on a control command, in the order of the
/// hooks.
pub open spec fn internal_sends_of<H: BehaviorHook>(
    hooks: Seq<H>,
    this: AddressView,
    sender: Seq<AddressView>,
    cmd: InternalCmd,
    n: int,
) -> Seq<TransportView>
    decreases n,
{
    if n <= 0 || n > hooks.len() {
        Seq::empty()
    } else {
        internal_sends_of(hooks, this, sender, cmd, n - 1) + hooks[n - 1].internal_sends(
            this,
            sender,
            cmd,
        )
    }
}

/// What the chain sends on a control command: what the hooks that the
/// command reaches send, in their order.
pub open spec fn internal_sends_all<H: BehaviorHook>(
    hooks: Seq<H>,
    this: AddressView,
    sender: Seq<AddressView>,
    cmd: InternalCmd,
) -> Seq<TransportView> {
    internal_sends_of(hooks, this, sender, cmd, internal_reach(hooks, this, sender, cmd))
}

/// An ordered chain of hooks. The order is the one in which the hooks were
/// attached and is never changed.
pub struct PipeBehavior<H: BehaviorHook> {
    hooks: Vec<H>,
}

impl<H: BehaviorHook> View for PipeBehavior<H> {
    type V = Seq<H>;

    closed spec fn view(&self) -> Seq<H> {
        self.hooks@
    }
}

impl<H: BehaviorHook> PipeBehavior<H> {
    /// The empty chain.
    pub fn new() -> (r: PipeBehavior<H>)
        ensures
            r@ == Seq::<H>::empty(),
    {
        PipeBehavior { hooks: Vec::new() }
    }

    /// The chain of one hook.
    pub fn with(hook: H) -> (r: PipeBehavior<H>)
        ensures
            r@ == seq![hook],
    {
        let mut hooks: Vec<H> = Vec::new();
        hooks.push(hook);
        PipeBehavior { hooks }
    }

    /// This chain with `hook` behind its last hook.
    pub fn attach(self, hook: H) -> (r: PipeBehavior<H>)
        ensures
            r@ == self@.push(hook),
    {
        let mut hooks = self.hooks;
        hooks.push(hook);
        PipeBehavior { hooks }
    }

    /// The number of hooks.
    pub fn len(&self) -> (r: usize)
        ensures
            r == self@.len(),
    {
        self.hooks.len()
    }

    /// The hook at position `i`.
    pub fn hook(&self, i: usize) -> (r: Option<&H>)
        ensures
            r == if i < self@.len() {
                Some(&self@[i as int])
            } else {
                None
            },
    {
        if i < self.hooks.len() {
            Some(&self.hooks[i])
        } else {
            None
        }
    }

    /// Runs the hooks on a data message, in order, up to the first that
    /// vetoes or fails.
    pub fn external_all(
        &mut self,
        this: &PipeAddress,
        sender: &Vec<PipeAddress>,
        outbox: &mut Outbox,
        msg: &PipeMessage,
    ) -> (r: Result<PipeModifier, HookError>)
        ensures
            r == external_outcome(old(self)@, this@, route_view(sender@), msg@),
            final(self)@ == after_external_all(old(self)@, this@, route_view(sender@), msg@),
            final(outbox)@ == old(outbox)@ + external_sends_all(
                old(self)@,
                this@,
                route_view(sender@),
                msg@,
            ),
    {
        let ghost before = self.hooks@;
        let ghost queued = outbox@;
        let ghost t = this@;
        let ghost s = route_view(sender@);
        let ghost m = msg@;
        assert(outbox@ =~= queued + external_sends_of(before, t, s, m, 0));
        let n = self.hooks.len();
        let mut i: usize = 0;
        while i < n
            invariant
                before == old(self)@,
                before.len() == n,
                self.hooks@.len() == n,
                i <= n,
                t == this@,
                s == route_view(sender@),
                m == msg@,
                external_stop(before, t, s, m, 0) == external_stop(before, t, s, m, i as int),
                queued == old(outbox)@,
                outbox@ == queued + external_sends_of(before, t, s, m, i as int),
                forall|j: int| 0 <= j < i ==> self.hooks@[j] == before[j].after_external(t, s, m),
                forall|j: int| i <= j < n ==> self.hooks@[j] == before[j],
            decreases n - i,
        {
            let verdict = self.hooks[i].on_external(this, sender, outbox, msg);
            assert(outbox@ =~= queued + external_sends_of(before, t, s, m, i + 1));
            match verdict {
                Ok(PipeModifier::Continue) => {},
                _ => {
                    assert(external_stop(before, t, s, m, 0) == i);
                    assert(self.hooks@ =~= after_external_all(before, t, s, m));
                    return verdict;
                },
            }
            i += 1;
        }
        assert(external_stop(before, t, s, m, 0) == n);
        assert(self.hooks@ =~= after_external_all(before, t, s, m));
        Ok(PipeModifier::Continue)
    }

    /// Runs the hooks on a control command, in order, up to the first that
    /// fails.
    pub fn internal_all(
        &mut self,
        this: &PipeAddress,
        sender: &Vec<PipeAddress>,
        outbox: &mut Outbox,
        cmd: &InternalCmd,
    ) -> (r: Result<(), HookError>)
        ensures
            r == internal_outcome(old(self)@, this@, route_view(sender@), *cmd),
            final(self)@ == after_internal_all(old(self)@, this@, route_view(sender@), *cmd),
            final(outbox)@ == old(outbox)@ + internal_sends_all(
                old(self)@,
                this@,
                route_view(sender@),
                *cmd,
            ),
    {
        let ghost before = self.hooks@;
        let ghost queued = outbox@;
        let ghost t = this@;
        let ghost s = route_view(sender@);
        assert(outbox@ =~= queued + internal_sends_of(before, t, s, *cmd, 0));
        let n = self.hooks.len();
        let mut i: usize = 0;
        while i < n
            invariant
                before == old(self)@,
                before.len() == n,
                self.hooks@.len() == n,
                i <= n,
                t == this@,
                s == route_view(sender@),
                internal_stop(before, t, s, *cmd, 0) == internal_stop(before, t, s, *cmd, i as int),
                queued == old(outbox)@,
                outbox@ == queued + internal_sends_of(before, t, s, *cmd, i as int),
                forall|j: int| 0 <= j < i ==> self.hooks@[j] == before[j].after_internal(t, s, *cmd),
                forall|j: int| i <= j < n ==> self.hooks@[j] == before[j],
            decreases n - i,
        {
            let verdict = self.hooks[i].on_internal(this, sender, outbox, cmd);
            assert(outbox@ =~= queued + internal_sends_of(before, t, s, *cmd, i + 1));
            if verdict.is_err() {
                assert(internal_stop(before, t, s, *cmd, 0) == i);
                assert(self.hooks@ =~= after_internal_all(before, t, s, *cmd));
                return verdict;
            }
            i += 1;
        }
        assert(internal_stop(before, t, s, *cmd, 0) == n);
        assert(self.hooks@ =~= after_internal_all(before, t, s, *cmd));
        Ok(())
    }
}


/// Where a chain stops is the one position that every earlier hook lets the
/// message pass and whose own hook does not; so the hook that stands first
/// among those that would veto or fail is the one that decides, and moving
/// another such hook in front of it changes the answer to that hook's.
pub proof fn lemma_first_stop_decides<H: BehaviorHook>(
    hooks: Seq<H>,
    this: AddressView,
    sender: Seq<AddressView>,
    msg: EnvelopeView,
    k: int,
)
    requires
        0 <= k < hooks.len(),
        forall|j: int|
            0 <= j < k ==> (#[trigger] hooks[j]).external_verdict(this, sender, msg) == Ok::<
                PipeModifier,
                HookError,
            >(PipeModifier::Continue),
        hooks[k].external_verdict(this, sender, msg) != Ok::<PipeModifier, HookError>(
            PipeModifier::Continue,
        ),
    ensures
        external_stop(hooks, this, sender, msg, 0) == k,
        external_outcome(hooks, this, sender, msg) == hooks[k].external_verdict(this, sender, msg),
{
    lemma_external_stop_from(hooks, this, sender, msg, k, 0);
}

/// From any position up to the stopping one, the search for it ends there.
proof fn lemma_external_stop_from<H: BehaviorHook>(
    hooks: Seq<H>,
    this: AddressView,
    sender: Seq<AddressView>,
    msg: EnvelopeView,
    k: int,
    from: int,
)
    requires
        0 <= from <= k <= hooks.len(),
        forall|j: int|
            from <= j < k ==> (#[trigger] hooks[j]).external_verdict(this, sender, msg) == Ok::<
                PipeModifier,
                HookError,
            >(PipeModifier::Continue),
        k < hooks.len() ==> hooks[k].external_verdict(this, sender, msg) != Ok::<
            PipeModifier,
            HookError,
        >(PipeModifier::Continue),
    ensures
        external_stop(hooks, this, sender, msg, from) == k,
    decreases k - from,
{
    if from < k {
        lemma_external_stop_from(hooks, this, sender, msg, k, from + 1);
    }
}

/// The stopping position lies within the chain or at its end, every hook
/// before it lets the message pass, and the hook at it does not.
pub proof fn lemma_external_stop_is_first<H: BehaviorHook>(
    hooks: Seq<H>,
    this: AddressView,
    sender: Seq<AddressView>,
    msg: EnvelopeView,
    from: int,
)
    requires
        0 <= from <= hooks.len(),
    ensures
        from <= external_stop(hooks, this, sender, msg, from) <= hooks.len(),
        forall|j: int|
            from <= j < external_stop(hooks, this, sender, msg, from) ==> (
            #[trigger] hooks[j]).external_verdict(this, sender, msg) == Ok::<
                PipeModifier,
                HookError,
            >(PipeModifier::Continue),
        external_stop(hooks, this, sender, msg, from) < hooks.len() ==> hooks[external_stop(
            hooks,
            this,
            sender,
            msg,
            from,
        )].external_verdict(this, sender, msg) != Ok::<PipeModifier, HookError>(
            PipeModifier::Continue,
        ),
    decreases hooks.len() - from,
{
    if from < hooks.len() && hooks[from].external_verdict(this, sender, msg) == Ok::<
        PipeModifier,
        HookError,
    >(PipeModifier::Continue) {
        lemma_external_stop_is_first(hooks, this, sender, msg, from + 1);
    }
}

/// A veto cuts the chain short: where the hook at `k` vetoes and every hook
/// before it lets the message pass, the chain answers `Drop`, the hooks up
/// to `k` have seen the message, and every hook behind `k` is left as it
/// was.
pub proof fn lemma_veto_short_circuits<H: BehaviorHook>(
    hooks: Seq<H>,
    this: AddressView,
    sender: Seq<AddressView>,
    msg: EnvelopeView,
    k: int,
)
    requires
        0 <= k < hooks.len(),
        forall|j: int|
            0 <= j < k ==> (#[trigger] hooks[j]).external_verdict(this, sender, msg) == Ok::<
                PipeModifier,
                HookError,
            >(PipeModifier::Continue),
        hooks[k].external_verdict(this, sender, msg) == Ok::<PipeModifier, HookError>(
            PipeModifier::Drop,
        ),
    ensures
        external_outcome(hooks, this, sender, msg) == Ok::<PipeModifier, HookError>(
            PipeModifier::Drop,
        ),
        after_external_all(hooks, this, sender, msg).len() == hooks.len(),
        forall|j: int|
            0 <= j <= k ==> after_external_all(hooks, this, sender, msg)[j] == (
            #[trigger] hooks[j]).after_external(this, sender, msg),
        forall|j: int|
            k < j < hooks.len() ==> after_external_all(hooks, this, sender, msg)[j]
                == #[trigger] hooks[j],
        external_sends_all(hooks, this, sender, msg) == external_sends_of(
            hooks,
            this,
            sender,
            msg,
            k + 1,
        ),
{
    lemma_first_stop_decides(hooks, this, sender, msg, k);
}

/// Where every hook lets the message pass, the chain does, and every hook
/// has seen the message.
pub proof fn lemma_all_continue<H: BehaviorHook>(
    hooks: Seq<H>,
    this: AddressView,
    sender: Seq<AddressView>,
    msg: EnvelopeView,
)
    requires
        forall|j: int|
            0 <= j < hooks.len() ==> (#[trigger] hooks[j]).external_verdict(this, sender, msg)
                == Ok::<PipeModifier, HookError>(PipeModifier::Continue),
    ensures
        external_outcome(hooks, this, sender, msg) == Ok::<PipeModifier, HookError>(
            PipeModifier::Continue,
        ),
        after_external_all(hooks, this, sender, msg).len() == hooks.len(),
        forall|j: int|
            0 <= j < hooks.len() ==> after_external_all(hooks, this, sender, msg)[j] == (
            #[trigger] hooks[j]).after_external(this, sender, msg),
        external_sends_all(hooks, this, sender, msg) == external_sends_of(
            hooks,
            this,
            sender,
            msg,
            hooks.len() as int,
        ),
{
    lemma_external_stop_from(hooks, this, sender, msg, hooks.len() as int, 0);
}

/// From any position up to the failing one, the search for it ends there.
proof fn lemma_internal_stop_from<H: BehaviorHook>(
    hooks: Seq<H>,
    this: AddressView,
    sender: Seq<AddressView>,
    cmd: InternalCmd,
    k: int,
    from: int,
)
    requires
        0 <= from <= k <= hooks.len(),
        forall|j: int|
            from <= j < k ==> (#[trigger] hooks[j]).internal_verdict(this, sender, cmd) is Ok,
        k < hooks.len() ==> hooks[k].internal_verdict(this, sender, cmd) is Err,
    ensures
        internal_stop(hooks, this, sender, cmd, from) == k,
    decreases k - from,
{
    if from < k {
        lemma_internal_stop_from(hooks, this, sender, cmd, k, from + 1);
    }
}

/// A command goes through the hooks in their order up to the first that
/// fails on it: that hook's failure is the chain's answer, the hooks up to
/// it have seen the command, and every hook behind it is left as it was.
pub proof fn lemma_first_failure_decides<H: BehaviorHook>(
    hooks: Seq<H>,
    this: AddressView,
    sender: Seq<AddressView>,
    cmd: InternalCmd,
    k: int,
)
    requires
        0 <= k < hooks.len(),
        forall|j: int| 0 <= j < k ==> (#[trigger] hooks[j]).internal_verdict(this, sender, cmd) is Ok,
        hooks[k].internal_verdict(this, sender, cmd) is Err,
    ensures
        internal_outcome(hooks, this, sender, cmd) == hooks[k].internal_verdict(this, sender, cmd),
        after_internal_all(hooks, this, sender, cmd).len() == hooks.len(),
        forall|j: int|
            0 <= j <= k ==> after_internal_all(hooks, this, sender, cmd)[j] == (
            #[trigger] hooks[j]).after_internal(this, sender, cmd),
        forall|j: int|
            k < j < hooks.len() ==> after_internal_all(hooks, this, sender, cmd)[j]
                == #[trigger] hooks[j],
        internal_sends_all(hooks, this, sender, cmd) == internal_sends_of(
            hooks,
            this,
            sender,
            cmd,
            k + 1,
        ),
{
    lemma_internal_stop_from(hooks, this, sender, cmd, k, 0);
}

/// Where no hook fails on a command, the chain accepts it and every hook
/// has seen it.
pub proof fn lemma_all_accept<H: BehaviorHook>(
    hooks: Seq<H>,
    this: AddressView,
    sender: Seq<AddressView>,
    cmd: InternalCmd,
)
    requires
        forall|j: int|
            0 <= j < hooks.len() ==> (#[trigger] hooks[j]).internal_verdict(this, sender, cmd) is Ok,
    ensures
        internal_outcome(hooks, this, sender, cmd) == Ok::<(), HookError>(()),
        after_internal_all(hooks, this, sender, cmd).len() == hooks.len(),
        forall|j: int|
            0 <= j < hooks.len() ==> after_internal_all(hooks, this, sender, cmd)[j] == (
            #[trigger] hooks[j]).after_internal(this, sender, cmd),
        internal_sends_all(hooks, this, sender, cmd) == internal_sends_of(
            hooks,
            this,
            sender,
            cmd,
            hooks.len() as int,
        ),
{
    lemma_internal_stop_from(hooks, this, sender, cmd, hooks.len() as int, 0);
}

} // verus!
