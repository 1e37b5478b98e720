//! The pipe receiver: one worker on two addresses. What arrives at the
//! control address is a command for the hooks; what arrives anywhere else is
//! a data message that the hooks may veto before it is handed on.
use vstd::prelude::*;
use crate::address::{route_view, AddressView, PipeAddress};
use crate::behavior::{
    after_external_all, after_internal_all, external_outcome, external_sends_all,
    external_sends_of, internal_outcome, internal_sends_all, BehaviorHook, HookError, Outbox, PipeBehavior,
    PipeModifier,
};
use crate::envelope::{
    command_of, envelope_of, transport_of, EnvelopeView, InternalCmd, PipeMessage, TransportParts,
    TransportView, WireError,
};

verus! {

/// What an arriving message is.
pub struct InboundView {
    pub msg_addr: AddressView,
    pub return_route: Seq<AddressView>,
    pub payload: Seq<u8>,
}

/// A message as the runtime delivers it: the address it was sent to, the
/// route back to its sender, and its body.
#[derive(Clone, Debug, PartialEq, Eq)]
pub struct Inbound {
    pub msg_addr: PipeAddress,
    pub return_route: Vec<PipeAddress>,
    pub payload: Vec<u8>,
}

impl View for Inbound {
    type V = InboundView;

    open spec fn view(&self) -> InboundView {
        InboundView {
            msg_addr: self.msg_addr@,
            return_route: route_view(self.return_route@),
            payload: self.payload@,
        }
    }
}

/// The two ways a message is handled.
#[derive(Clone, Copy, Debug, PartialEq, Eq, Structural)]
pub enum Path {
    /// Data plane: decode, run the hooks, forward.
    External,
    /// Control plane: decode a command and run the hooks on it.
    Internal,
}

/// Why a data message was discarded.
#[derive(Clone, Copy, Debug, PartialEq, Eq, Structural)]
pub enum DropReason {
    /// Its body is no envelope.
    Malformed,
    /// A hook vetoed it.
    Vetoed,
    /// A hook failed on it.
    HookFailed(HookError),
    /// Every hook let it pass, but its payload is no routable message.
    Unroutable,
}

/// A failure that the receiver does not absorb. Only the control path has
/// any: whatever goes wrong with a data message discards that message.
#[derive(Clone, Copy, Debug, PartialEq, Eq, Structural)]
pub enum PipeError {
    /// A control message did not decode to a command.
    Command(WireError),
    /// A hook failed on a command.
    Hook(HookError),
}

/// What an action is.
pub enum ActionView {
    Forward(TransportView),
    Discard(DropReason),
    Handled,
}

/// What the host of the receiver does after a message was handled.
#[derive(Clone, Debug, PartialEq, Eq)]
pub enum Action {
    /// Send this message on along its onward route.
    Forward(TransportParts),
    /// Nothing is sent: the data message was discarded.
    Discard(DropReason),
    /// Nothing is sent: a command went through the hooks.
    Handled,
}

impl View for Action {
    type V = ActionView;

    open spec fn view(&self) -> ActionView {
        match self {
            Action::Forward(m) => ActionView::Forward(m@),
            Action::Discard(reason) => ActionView::Discard(*reason),
            Action::Handled => ActionView::Handled,
        }
    }
}

/// The outcome of handling a message, by the view of its action.
pub open spec fn outcome_view(r: Result<Action, PipeError>) -> Result<ActionView, PipeError> {
    match r {
        Ok(a) => Ok(a@),
        Err(e) => Err(e),
    }
}

/// What a receiver is: its two addresses and its hooks in order.
pub struct ReceiverView<H> {
    pub addr: AddressView,
    pub int_addr: AddressView,
    pub hooks: Seq<H>,
}

/// The receiving end of a pipe.
pub struct PipeReceiver<H: BehaviorHook> {
    hooks: PipeBehavior<H>,
    addr: PipeAddress,
    int_addr: PipeAddress,
}

impl<H: BehaviorHook> View for PipeReceiver<H> {
    type V = ReceiverView<H>;

    closed spec fn view(&self) -> ReceiverView<H> {
        ReceiverView { addr: self.addr@, int_addr: self.int_addr@, hooks: self.hooks@ }
    }
}

/// One message handled: the receiver afterwards, what its hooks sent, and
/// what it answers.
pub struct StepView<H> {
    pub state: ReceiverView<H>,
    pub sends: Seq<TransportView>,
    pub result: Result<ActionView, PipeError>,
}

/// A receiver together with the addresses it has to be started under.
pub struct Registration<H: BehaviorHook> {
    pub addresses: Vec<PipeAddress>,
    pub worker: PipeReceiver<H>,
}

/// The path a message takes: the control path exactly where it was sent to
/// the control address.
pub open spec fn path_of<H>(state: ReceiverView<H>, msg: InboundView) -> Path {
    if msg.msg_addr == state.int_addr {
        Path::Internal
    } else {
        Path::External
    }
}

/// The data path from the decoded envelope on.
pub open spec fn external_after_decode<H: BehaviorHook>(
    state: ReceiverView<H>,
    return_route: Seq<AddressView>,
    decoded: Option<EnvelopeView>,
) -> StepView<H> {
    match decoded {
        None => StepView {
            state,
            sends: Seq::empty(),
            result: Ok(ActionView::Discard(DropReason::Malformed)),
        },
        Some(env) => StepView {
            state: ReceiverView {
                addr: state.addr,
                int_addr: state.int_addr,
                hooks: after_external_all(state.hooks, state.addr, return_route, env),
            },
            sends: external_sends_all(state.hooks, state.addr, return_route, env),
            result: match external_outcome(state.hooks, state.addr, return_route, env) {
                Err(e) => Ok(ActionView::Discard(DropReason::HookFailed(e))),
                Ok(PipeModifier::Drop) => Ok(ActionView::Discard(DropReason::Vetoed)),
                Ok(PipeModifier::Continue) => match transport_of(env.payload) {
                    Some(m) => Ok(ActionView::Forward(m)),
                    None => Ok(ActionView::Discard(DropReason::Unroutable)),
                },
            },
        },
    }
}

/// The control path from the decoded command on.
pub open spec fn internal_after_decode<H: BehaviorHook>(
    state: ReceiverView<H>,
    return_route: Seq<AddressView>,
    decoded: Result<InternalCmd, WireError>,
) -> StepView<H> {
    match decoded {
        Err(e) => StepView { state, sends: Seq::empty(), result: Err(PipeError::Command(e)) },
        Ok(cmd) => StepView {
            state: ReceiverView {
                addr: state.addr,
                int_addr: state.int_addr,
                hooks: after_internal_all(state.hooks, state.int_addr, return_route, cmd),
            },
            sends: internal_sends_all(state.hooks, state.int_addr, return_route, cmd),
            result: match internal_outcome(state.hooks, state.int_addr, return_route, cmd) {
                Err(e) => Err(PipeError::Hook(e)),
                Ok(_) => Ok(ActionView::Handled),
            },
        },
    }
}

/// The data path on a message.
pub open spec fn external_step<H: BehaviorHook>(
    state: ReceiverView<H>,
    msg: InboundView,
) -> StepView<H> {
    external_after_decode(state, msg.return_route, envelope_of(msg.payload))
}

/// The control path on a message.
pub open spec fn internal_step<H: BehaviorHook>(
    state: ReceiverView<H>,
    msg: InboundView,
) -> StepView<H> {
    internal_after_decode(state, msg.return_route, command_of(msg.payload))
}

/// One message handled.
pub open spec fn step<H: BehaviorHook>(state: ReceiverView<H>, msg: InboundView) -> StepView<H> {
    match path_of(state, msg) {
        Path::Internal => internal_step(state, msg),
        Path::External => external_step(state, msg),
    }
}

/// The envelope behind a decoding attempt.
pub open spec fn decoded_envelope(decoded: Result<PipeMessage, WireError>) -> Option<
    EnvelopeView,
> {
    match decoded {
        Ok(m) => Some(m@),
        Err(_) => None,
    }
}

impl<H: BehaviorHook> PipeReceiver<H> {
    /// A receiver for the data address `addr` and the control address
    /// `int_addr`, with the addresses to start it under: the data address
    /// first, the control address second.
    pub fn create(addr: PipeAddress, int_addr: PipeAddress, hooks: PipeBehavior<H>) -> (r:
        Registration<H>)
        ensures
            r.worker@ == (ReceiverView { addr: addr@, int_addr: int_addr@, hooks: hooks@ }),
            route_view(r.addresses@) == seq![addr@, int_addr@],
    {
        let mut addresses: Vec<PipeAddress> = Vec::new();
        addresses.push(addr.duplicate());
        addresses.push(int_addr.duplicate());
        assert(route_view(addresses@) =~= seq![addr@, int_addr@]);
        Registration { addresses, worker: PipeReceiver { hooks, addr, int_addr } }
    }

    /// The control address.
    pub fn int_addr(&self) -> (r: &PipeAddress)
        ensures
            r@ == self@.int_addr,
    {
        &self.int_addr
    }

    /// The data address.
    pub fn addr(&self) -> (r: &PipeAddress)
        ensures
            r@ == self@.addr,
    {
        &self.addr
    }

    /// The hooks.
    pub fn hooks(&self) -> (r: &PipeBehavior<H>)
        ensures
            r@ == self@.hooks,
    {
        &self.hooks
    }

    /// The path that a message to `msg_addr` takes.
    pub fn route(&self, msg_addr: &PipeAddress) -> (r: Path)
        ensures
            r == if msg_addr@ == self@.int_addr {
                Path::Internal
            } else {
                Path::External
            },
    {
        if msg_addr.same(&self.int_addr) {
            Path::Internal
        } else {
            Path::External
        }
    }

    /// Handles one message: a command where it was sent to the control
    /// address, a data message otherwise.
    ///
    /// What the hooks send while the message is handled is queued in
    /// `outbox`, whatever the answer is. A message to any address but the
    /// control address never fails. A body of no bytes is malformed on
    /// either path, and no hook sees it.
    pub fn handle_message(&mut self, outbox: &mut Outbox, msg: &Inbound) -> (r: Result<
        Action,
        PipeError,
    >)
        ensures
            final(self)@ == step(old(self)@, msg@).state,
            outcome_view(r) == step(old(self)@, msg@).result,
            final(outbox)@ == old(outbox)@ + step(old(self)@, msg@).sends,
            msg@.msg_addr != old(self)@.int_addr ==> r is Ok,
            msg@.payload.len() == 0 ==> final(self)@ == old(self)@ && final(outbox)@ == old(
                outbox,
            )@ && outcome_view(r) == (if msg@.msg_addr == old(self)@.int_addr {
                Err::<ActionView, PipeError>(PipeError::Command(WireError::Malformed))
            } else {
                Ok::<ActionView, PipeError>(ActionView::Discard(DropReason::Malformed))
            }),
    {
        match self.route(&msg.msg_addr) {
            Path::Internal => self.handle_internal(outbox, msg),
            Path::External => self.handle_external(outbox, msg),
        }
    }

    /// Handles a data message, and never fails: a body that is no envelope,
    /// a veto, a failing hook and a payload that does not unwrap each
    /// discard the message. A body of no bytes is no envelope.
    pub fn handle_external(&mut self, outbox: &mut Outbox, msg: &Inbound) -> (r: Result<
        Action,
        PipeError,
    >)
        ensures
            final(self)@ == external_step(old(self)@, msg@).state,
            outcome_view(r) == external_step(old(self)@, msg@).result,
            final(outbox)@ == old(outbox)@ + external_step(old(self)@, msg@).sends,
            r is Ok,
            msg@.payload.len() == 0 ==> final(self)@ == old(self)@ && final(outbox)@ == old(
                outbox,
            )@ && outcome_view(r) == Ok::<ActionView, PipeError>(
                ActionView::Discard(DropReason::Malformed),
            ),
    {
        let decoded = PipeMessage::decode(msg.payload.as_slice());
        self.deliver(&msg.return_route, outbox, decoded)
    }

    /// The data path from the decoded envelope on: runs the hooks and, where
    /// all of them let the message pass, unwraps its payload for forwarding.
    pub fn deliver(
        &mut self,
        return_route: &Vec<PipeAddress>,
        outbox: &mut Outbox,
        decoded: Result<PipeMessage, WireError>,
    ) -> (r: Result<Action, PipeError>)
        ensures
            final(self)@ == external_after_decode(
                old(self)@,
                route_view(return_route@),
                decoded_envelope(decoded),
            ).state,
            outcome_view(r) == external_after_decode(
                old(self)@,
                route_view(return_route@),
                decoded_envelope(decoded),
            ).result,
            final(outbox)@ == old(outbox)@ + external_after_decode(
                old(self)@,
                route_view(return_route@),
                decoded_envelope(decoded),
            ).sends,
    {
        let pipe_msg = match decoded {
            Ok(m) => m,
            Err(_) => {
                assert(outbox@ + Seq::<TransportView>::empty() =~= outbox@);
                return Ok(Action::Discard(DropReason::Malformed));
            },
        };
        match self.hooks.external_all(&self.addr, return_route, outbox, &pipe_msg) {
            Ok(PipeModifier::Drop) => Ok(Action::Discard(DropReason::Vetoed)),
            Err(e) => Ok(Action::Discard(DropReason::HookFailed(e))),
            Ok(PipeModifier::Continue) => match TransportParts::decode(
                pipe_msg.payload.as_slice(),
            ) {
                Ok(m) => Ok(Action::Forward(m)),
                Err(_) => Ok(Action::Discard(DropReason::Unroutable)),
            },
        }
    }

    /// Handles a control message. A body that is no command and a failing
    /// hook are both errors. A body of no bytes is no command.
    pub fn handle_internal(&mut self, outbox: &mut Outbox, msg: &Inbound) -> (r: Result<
        Action,
        PipeError,
    >)
        ensures
            final(self)@ == internal_step(old(self)@, msg@).state,
            outcome_view(r) == internal_step(old(self)@, msg@).result,
            final(outbox)@ == old(outbox)@ + internal_step(old(self)@, msg@).sends,
            msg@.payload.len() == 0 ==> final(self)@ == old(self)@ && final(outbox)@ == old(
                outbox,
            )@ && outcome_view(r) == Err::<ActionView, PipeError>(
                PipeError::Command(WireError::Malformed),
            ),
    {
        let decoded = InternalCmd::decode(msg.payload.as_slice());
        self.command(&msg.return_route, outbox, decoded)
    }

    /// The control path from the decoded command on: runs the hooks on it.
    pub fn command(
        &mut self,
        return_route: &Vec<PipeAddress>,
        outbox: &mut Outbox,
        decoded: Result<InternalCmd, WireError>,
    ) -> (r: Result<Action, PipeError>)
        ensures
            final(self)@ == internal_after_decode(
                old(self)@,
                route_view(return_route@),
                decoded,
            ).state,
            outcome_view(r) == internal_after_decode(
                old(self)@,
                route_view(return_route@),
                decoded,
            ).result,
            final(outbox)@ == old(outbox)@ + internal_after_decode(
                old(self)@,
                route_view(return_route@),
                decoded,
            ).sends,
    {
        let cmd = match decoded {
            Ok(cmd) => cmd,
            Err(e) => {
                assert(outbox@ + Seq::<TransportView>::empty() =~= outbox@);
                return Err(PipeError::Command(e));
            },
        };
        match self.hooks.internal_all(&self.int_addr, return_route, outbox, &cmd) {
            Ok(_) => Ok(Action::Handled),
            Err(e) => Err(PipeError::Hook(e)),
        }
    }
}

/// A data message whose body is no envelope is discarded, nothing is
/// forwarded, and the receiver is afterwards as it was before: it serves
/// the next message as if the bad one had never come.
pub proof fn lemma_malformed_data_is_dropped<H: BehaviorHook>(
    state: ReceiverView<H>,
    msg: InboundView,
    next: InboundView,
)
    requires
        msg.msg_addr != state.int_addr,
        envelope_of(msg.payload) is None,
    ensures
        step(state, msg) == (StepView {
            state,
            sends: Seq::empty(),
            result: Ok(ActionView::Discard(DropReason::Malformed)),
        }),
        step(step(state, msg).state, next) == step(state, next),
{
}

/// Where a hook vetoes a data message that every hook before it let pass,
/// the message is discarded without error, nothing is forwarded, and no
/// hook behind the vetoing one has seen it.
pub proof fn lemma_veto_forwards_nothing<H: BehaviorHook>(
    state: ReceiverView<H>,
    msg: InboundView,
    env: EnvelopeView,
    k: int,
)
    requires
        msg.msg_addr != state.int_addr,
        envelope_of(msg.payload) == Some(env),
        0 <= k < state.hooks.len(),
        forall|j: int|
            0 <= j < k ==> (#[trigger] state.hooks[j]).external_verdict(
                state.addr,
                msg.return_route,
                env,
            ) == Ok::<PipeModifier, HookError>(PipeModifier::Continue),
        state.hooks[k].external_verdict(state.addr, msg.return_route, env) == Ok::<
            PipeModifier,
            HookError,
        >(PipeModifier::Drop),
    ensures
        step(state, msg).result == Ok::<ActionView, PipeError>(ActionView::Discard(DropReason::Vetoed)),
        step(state, msg).state.hooks.len() == state.hooks.len(),
        forall|j: int|
            k < j < state.hooks.len() ==> step(state, msg).state.hooks[j]
                == #[trigger] state.hooks[j],
        step(state, msg).sends == external_sends_of(
            state.hooks,
            state.addr,
            msg.return_route,
            env,
            k + 1,
        ),
{
    crate::behavior::lemma_veto_short_circuits(state.hooks, state.addr, msg.return_route, env, k);
}

/// Where every hook lets a data message pass, what is forwarded is the
/// message that the envelope's payload encodes: its body and its onward
/// route are those that the sender wrapped.
pub proof fn lemma_pass_through_forwards_payload<H: BehaviorHook>(
    state: ReceiverView<H>,
    msg: InboundView,
    env: EnvelopeView,
    wrapped: TransportView,
)
    requires
        msg.msg_addr != state.int_addr,
        envelope_of(msg.payload) == Some(env),
        transport_of(env.payload) == Some(wrapped),
        forall|j: int|
            0 <= j < state.hooks.len() ==> (#[trigger] state.hooks[j]).external_verdict(
                state.addr,
                msg.return_route,
                env,
            ) == Ok::<PipeModifier, HookError>(PipeModifier::Continue),
    ensures
        step(state, msg).result == Ok::<ActionView, PipeError>(ActionView::Forward(wrapped)),
{
    crate::behavior::lemma_all_continue(state.hooks, state.addr, msg.return_route, env);
}

/// A message is forwarded only on the data path, only where its body is an
/// envelope that the whole chain let pass, and then as what the envelope's
/// payload encodes.
pub proof fn lemma_forward_needs_every_hook<H: BehaviorHook>(
    state: ReceiverView<H>,
    msg: InboundView,
    forwarded: TransportView,
)
    requires
        step(state, msg).result == Ok::<ActionView, PipeError>(ActionView::Forward(forwarded)),
    ensures
        msg.msg_addr != state.int_addr,
        envelope_of(msg.payload) is Some,
        transport_of(envelope_of(msg.payload).unwrap().payload) == Some(forwarded),
        forall|j: int|
            0 <= j < state.hooks.len() ==> (#[trigger] state.hooks[j]).external_verdict(
                state.addr,
                msg.return_route,
                envelope_of(msg.payload).unwrap(),
            ) == Ok::<PipeModifier, HookError>(PipeModifier::Continue),
{
    let env = envelope_of(msg.payload).unwrap();
    crate::behavior::lemma_external_stop_is_first(
        state.hooks,
        state.addr,
        msg.return_route,
        env,
        0,
    );
}

/// The address alone picks the path, whatever the body holds. A message to
/// the control address is handled as a command: it is never forwarded nor
/// discarded as data, and the hooks are touched through their command entry
/// only. A message to any other address is handled as data: it never
/// answers as a command does, and the hooks are touched through their data
/// entry only.
pub proof fn lemma_address_picks_the_path<H: BehaviorHook>(state: ReceiverView<H>, msg: InboundView)
    ensures
        msg.msg_addr == state.int_addr ==> {
            &&& step(state, msg) == internal_step(state, msg)
            &&& !(step(state, msg).result matches Ok(ActionView::Forward(_)))
            &&& !(step(state, msg).result matches Ok(ActionView::Discard(_)))
            &&& match command_of(msg.payload) {
                Ok(cmd) => {
                    &&& step(state, msg).state.hooks == after_internal_all(
                        state.hooks,
                        state.int_addr,
                        msg.return_route,
                        cmd,
                    )
                    &&& step(state, msg).sends == internal_sends_all(
                        state.hooks,
                        state.int_addr,
                        msg.return_route,
                        cmd,
                    )
                },
                Err(_) => step(state, msg).state == state && step(state, msg).sends.len() == 0,
            }
        },
        msg.msg_addr != state.int_addr ==> {
            &&& step(state, msg) == external_step(state, msg)
            &&& !(step(state, msg).result matches Ok(ActionView::Handled))
            &&& step(state, msg).result is Ok
            &&& match envelope_of(msg.payload) {
                Some(env) => {
                    &&& step(state, msg).state.hooks == after_external_all(
                        state.hooks,
                        state.addr,
                        msg.return_route,
                        env,
                    )
                    &&& step(state, msg).sends == external_sends_all(
                        state.hooks,
                        state.addr,
                        msg.return_route,
                        env,
                    )
                },
                None => step(state, msg).state == state && step(state, msg).sends.len() == 0,
            }
        },
        step(state, msg).state.addr == state.addr,
        step(state, msg).state.int_addr == state.int_addr,
        step(state, msg).state.hooks.len() == state.hooks.len(),
{
}

/// A control message whose body is no command is an error of the handler,
/// with the reason, and no hook sees it.
pub proof fn lemma_malformed_command_surfaces<H: BehaviorHook>(
    state: ReceiverView<H>,
    msg: InboundView,
    e: WireError,
)
    requires
        msg.msg_addr == state.int_addr,
        command_of(msg.payload) == Err::<InternalCmd, WireError>(e),
    ensures
        step(state, msg) == (StepView {
            state,
            sends: Seq::empty(),
            result: Err(PipeError::Command(e)),
        }),
{
}

/// Nothing that goes wrong with a data message becomes an error of the
/// handler: a failing hook, a veto and a payload that is no routable
/// message each discard the message with the reason, and nothing is
/// forwarded.
pub proof fn lemma_data_path_absorbs_failures<H: BehaviorHook>(
    state: ReceiverView<H>,
    msg: InboundView,
    env: EnvelopeView,
)
    requires
        msg.msg_addr != state.int_addr,
        envelope_of(msg.payload) == Some(env),
    ensures
        step(state, msg).result is Ok,
        match external_outcome(state.hooks, state.addr, msg.return_route, env) {
            Err(e) => step(state, msg).result == Ok::<ActionView, PipeError>(
                ActionView::Discard(DropReason::HookFailed(e)),
            ),
            Ok(PipeModifier::Drop) => step(state, msg).result == Ok::<ActionView, PipeError>(
                ActionView::Discard(DropReason::Vetoed),
            ),
            Ok(PipeModifier::Continue) => step(state, msg).result == match transport_of(
                env.payload,
            ) {
                Some(m) => Ok::<ActionView, PipeError>(ActionView::Forward(m)),
                None => Ok::<ActionView, PipeError>(ActionView::Discard(DropReason::Unroutable)),
            },
        },
{
}

} // verus!
