//! A hook with a fixed stance that counts what it sees and can echo data
//! messages to their sender: the simplest behavior to put in a chain, and a
//! way to watch one.
use vstd::prelude::*;
use crate::address::{copy_bytes, copy_route, route_view, AddressView, PipeAddress};
use crate::behavior::{BehaviorHook, HookError, Outbox, PipeModifier};
use crate::envelope::{EnvelopeView, InternalCmd, PipeMessage, TransportParts, TransportView};

verus! {

/// What a probe answers.
#[derive(Clone, Copy, Debug, PartialEq, Eq, Structural)]
pub enum Stance {
    /// Lets every message and every command pass.
    Pass,
    /// Vetoes every data message; lets every command pass.
    Veto,
    /// Fails on every data message and on every command.
    Fail(HookError),
}

/// A hook that answers every message by its stance and keeps count of the
/// data messages and commands it was run on.
#[derive(Clone, Copy, Debug, PartialEq, Eq)]
pub struct Probe {
    pub stance: Stance,
    /// Whether each data message is sent back to where it came from.
    pub echo: bool,
    /// Data messages seen, stopping at `u64::MAX`.
    pub messages: u64,
    /// Commands seen, stopping at `u64::MAX`.
    pub commands: u64,
    /// The index of the last data message seen.
    pub last_index: Option<u64>,
}

/// The echo of a data message that came to `this` from `sender`: the same
/// payload, bound for the sender, with `this` as the way back.
pub open spec fn echo_of(this: AddressView, sender: Seq<AddressView>, msg: EnvelopeView) -> TransportView {
    TransportView { version: 1, onward_route: sender, return_route: seq![this], payload: msg.payload }
}

/// `n + 1`, stopping at `u64::MAX`.
pub open spec fn bump(n: u64) -> u64 {
    if n < u64::MAX {
        (n + 1) as u64
    } else {
        n
    }
}

impl Probe {
    /// A probe that has seen nothing yet and echoes nothing.
    pub fn new(stance: Stance) -> (r: Probe)
        ensures
            r == (Probe { stance, echo: false, messages: 0, commands: 0, last_index: None }),
    {
        Probe { stance, echo: false, messages: 0, commands: 0, last_index: None }
    }

    /// A probe that has seen nothing yet and echoes every data message.
    pub fn echoing(stance: Stance) -> (r: Probe)
        ensures
            r == (Probe { stance, echo: true, messages: 0, commands: 0, last_index: None }),
    {
        Probe { stance, echo: true, messages: 0, commands: 0, last_index: None }
    }
}

impl BehaviorHook for Probe {
    open spec fn external_verdict(
        &self,
        this: AddressView,
        sender: Seq<AddressView>,
        msg: EnvelopeView,
    ) -> Result<PipeModifier, HookError> {
        match self.stance {
            Stance::Pass => Ok(PipeModifier::Continue),
            Stance::Veto => Ok(PipeModifier::Drop),
            Stance::Fail(e) => Err(e),
        }
    }

    open spec fn after_external(
        &self,
        this: AddressView,
        sender: Seq<AddressView>,
        msg: EnvelopeView,
    ) -> Probe {
        Probe {
            stance: self.stance,
            echo: self.echo,
            messages: bump(self.messages),
            commands: self.commands,
            last_index: Some(msg.index),
        }
    }

    open spec fn external_sends(
        &self,
        this: AddressView,
        sender: Seq<AddressView>,
        msg: EnvelopeView,
    ) -> Seq<TransportView> {
        if self.echo {
            seq![echo_of(this, sender, msg)]
        } else {
            Seq::empty()
        }
    }

    open spec fn internal_verdict(
        &self,
        this: AddressView,
        sender: Seq<AddressView>,
        cmd: InternalCmd,
    ) -> Result<(), HookError> {
        match self.stance {
            Stance::Fail(e) => Err(e),
            _ => Ok(()),
        }
    }

    open spec fn after_internal(
        &self,
        this: AddressView,
        sender: Seq<AddressView>,
        cmd: InternalCmd,
    ) -> Probe {
        Probe {
            stance: self.stance,
            echo: self.echo,
            messages: self.messages,
            commands: bump(self.commands),
            last_index: self.last_index,
        }
    }

    open spec fn internal_sends(
        &self,
        this: AddressView,
        sender: Seq<AddressView>,
        cmd: InternalCmd,
    ) -> Seq<TransportView> {
        Seq::empty()
    }

    fn on_external(
        &mut self,
        this: &PipeAddress,
        sender: &Vec<PipeAddress>,
        outbox: &mut Outbox,
        msg: &PipeMessage,
    ) -> (r: Result<PipeModifier, HookError>) {
        if self.echo {
            let mut back: Vec<PipeAddress> = Vec::new();
            back.push(this.duplicate());
            assert(route_view(back@) =~= seq![this@]);
            let reply = TransportParts {
                version: 1,
                onward_route: copy_route(sender),
                return_route: back,
                payload: copy_bytes(&msg.payload),
            };
            outbox.send(reply);
            assert(outbox@ =~= old(outbox)@ + seq![echo_of(this@, route_view(sender@), msg@)]);
        } else {
            assert(outbox@ + Seq::<TransportView>::empty() =~= outbox@);
        }
        if self.messages < u64::MAX {
            self.messages = self.messages + 1;
        }
        self.last_index = Some(msg.index);
        match self.stance {
            Stance::Pass => Ok(PipeModifier::Continue),
            Stance::Veto => Ok(PipeModifier::Drop),
            Stance::Fail(e) => Err(e),
        }
    }

    fn on_internal(
        &mut self,
        this: &PipeAddress,
        sender: &Vec<PipeAddress>,
        outbox: &mut Outbox,
        cmd: &InternalCmd,
    ) -> (r: Result<(), HookError>) {
        assert(outbox@ + Seq::<TransportView>::empty() =~= outbox@);
        if self.commands < u64::MAX {
            self.commands = self.commands + 1;
        }
        match self.stance {
            Stance::Fail(e) => Err(e),
            _ => Ok(()),
        }
    }
}

} // verus!
