//! The messages a pipe receiver decodes: the data-plane envelope, the
//! control-plane command, and the routable message an envelope carries.
use vstd::prelude::*;
use crate::address::{route_view, AddressView, PipeAddress};
use crate::wire::{
    decode_command_tag_bytes, decode_envelope_bytes, decode_transport_bytes, route_hops,
    route_step, wire_command_tag, wire_envelope, wire_transport, RawTransportView,
};

verus! {

/// Why bytes were not accepted as a message.
#[derive(Clone, Copy, Debug, PartialEq, Eq, Structural)]
pub enum WireError {
    /// The bytes do not decode.
    Malformed,
    /// The bytes decode to a command tag that names no command.
    UnknownCommand { tag: u64 },
}

/// What an envelope is: a sequence index and the payload bytes.
pub struct EnvelopeView {
    pub index: u64,
    pub payload: Seq<u8>,
}

/// The unit that travels between the two ends of a pipe: the sender's
/// sequence index and the wrapped application message.
#[derive(Clone, Debug, PartialEq, Eq)]
pub struct PipeMessage {
    pub index: u64,
    pub payload: Vec<u8>,
}

impl View for PipeMessage {
    type V = EnvelopeView;

    open spec fn view(&self) -> EnvelopeView {
        EnvelopeView { index: self.index, payload: self.payload@ }
    }
}

/// The envelope that `bytes` encode, if any.
pub open spec fn envelope_of(bytes: Seq<u8>) -> Option<EnvelopeView> {
    match wire_envelope(bytes) {
        Some((index, payload)) => Some(EnvelopeView { index, payload }),
        None => None,
    }
}

impl PipeMessage {
    /// An envelope from its two parts.
    pub fn new(index: u64, payload: Vec<u8>) -> (r: PipeMessage)
        ensures
            r@ == (EnvelopeView { index, payload: payload@ }),
    {
        PipeMessage { index, payload }
    }

    /// Decodes an envelope. Succeeds exactly on the bytes that encode one.
    pub fn decode(bytes: &[u8]) -> (r: Result<PipeMessage, WireError>)
        ensures
            match r {
                Ok(m) => envelope_of(bytes@) == Some(m@),
                Err(e) => envelope_of(bytes@) is None && e == WireError::Malformed,
            },
            bytes@.len() == 0 ==> r is Err,
    {
        match decode_envelope_bytes(bytes) {
            Ok((index, payload)) => Ok(PipeMessage { index, payload }),
            Err(_) => Err(WireError::Malformed),
        }
    }
}

/// A control message between the two ends of a pipe.
#[derive(Clone, Copy, Debug, PartialEq, Eq, Structural)]
pub enum InternalCmd {
    /// The sender has completed its handshake.
    HandshakeComplete,
}

/// The command that a tag names, if any.
pub open spec fn command_of_tag(tag: u64) -> Option<InternalCmd> {
    if tag == 0 {
        Some(InternalCmd::HandshakeComplete)
    } else {
        None
    }
}

/// What decoding `bytes` as a command gives.
pub open spec fn command_of(bytes: Seq<u8>) -> Result<InternalCmd, WireError> {
    match wire_command_tag(bytes) {
        None => Err(WireError::Malformed),
        Some(tag) => match command_of_tag(tag) {
            Some(cmd) => Ok(cmd),
            None => Err(WireError::UnknownCommand { tag }),
        },
    }
}

impl InternalCmd {
    /// The tag that leads this command on the wire.
    pub fn tag(&self) -> (r: u64)
        ensures
            command_of_tag(r) == Some(*self),
    {
        match self {
            InternalCmd::HandshakeComplete => 0,
        }
    }

    /// The command that `tag` names.
    pub fn from_tag(tag: u64) -> (r: Result<InternalCmd, WireError>)
        ensures
            r == match command_of_tag(tag) {
                Some(cmd) => Ok::<InternalCmd, WireError>(cmd),
                None => Err(WireError::UnknownCommand { tag }),
            },
    {
        if tag == 0 {
            Ok(InternalCmd::HandshakeComplete)
        } else {
            Err(WireError::UnknownCommand { tag })
        }
    }

    /// Decodes a command from the payload of a control message.
    pub fn decode(bytes: &[u8]) -> (r: Result<InternalCmd, WireError>)
        ensures
            r == command_of(bytes@),
            bytes@.len() == 0 ==> r == Err::<InternalCmd, WireError>(WireError::Malformed),
    {
        match decode_command_tag_bytes(bytes) {
            Ok(tag) => InternalCmd::from_tag(tag),
            Err(_) => Err(WireError::Malformed),
        }
    }
}

/// What a routable message is.
pub struct TransportView {
    pub version: u8,
    pub onward_route: Seq<AddressView>,
    pub return_route: Seq<AddressView>,
    pub payload: Seq<u8>,
}

/// A message with its routes: what an envelope's payload unwraps to and
/// what is handed on to the next hop.
#[derive(Clone, Debug, PartialEq, Eq)]
pub struct TransportParts {
    pub version: u8,
    pub onward_route: Vec<PipeAddress>,
    pub return_route: Vec<PipeAddress>,
    pub payload: Vec<u8>,
}

impl View for TransportParts {
    type V = TransportView;

    open spec fn view(&self) -> TransportView {
        TransportView {
            version: self.version,
            onward_route: route_view(self.onward_route@),
            return_route: route_view(self.return_route@),
            payload: self.payload@,
        }
    }
}

/// The addresses of a decoded route.
pub open spec fn route_of_raw(raw: Seq<(u8, Seq<u8>)>) -> Seq<AddressView> {
    raw.map_values(|a: (u8, Seq<u8>)| AddressView { tt: a.0, inner: a.1 })
}

/// The routable message made of decoded fields.
pub open spec fn transport_of_raw(raw: RawTransportView) -> TransportView {
    TransportView {
        version: raw.0,
        onward_route: route_of_raw(raw.1),
        return_route: route_of_raw(raw.2),
        payload: raw.3,
    }
}

/// The routable message that `bytes` encode, if any.
pub open spec fn transport_of(bytes: Seq<u8>) -> Option<TransportView> {
    match wire_transport(bytes) {
        Some(raw) => Some(transport_of_raw(raw)),
        None => None,
    }
}

/// Takes the addresses off a route, next hop first.
pub fn route_addresses(route: ockam_core::Route) -> (r: Vec<PipeAddress>)
    ensures
        route_view(r@) == route_of_raw(route_hops(route)),
{
    let ghost hops = route_hops(route);
    let mut rest = route;
    let mut out: Vec<PipeAddress> = Vec::new();
    let mut done = false;
    while !done
        invariant
            out.len() + route_hops(rest).len() == hops.len(),
            route_hops(rest) == hops.skip(out.len() as int),
            done ==> route_hops(rest).len() == 0,
            forall|j: int|
                0 <= j < out.len() ==> (#[trigger] out@[j])@ == (AddressView {
                    tt: hops[j].0,
                    inner: hops[j].1,
                }),
        decreases route_hops(rest).len() + (if done { 0int } else { 1int }),
    {
        let ghost before = route_hops(rest);
        match route_step(&mut rest) {
            Some(hop) => {
                assert(before[0] == hops[out.len() as int]);
                assert(route_hops(rest) =~= hops.skip(out.len() + 1));
                out.push(PipeAddress::new(hop.0, hop.1));
            },
            None => {
                done = true;
            },
        }
    }
    assert(route_view(out@) =~= route_of_raw(hops));
    out
}

impl TransportParts {
    /// Unwraps the payload of an envelope into the message it carries.
    /// Succeeds exactly on the bytes that encode a routable message.
    pub fn decode(bytes: &[u8]) -> (r: Result<TransportParts, WireError>)
        ensures
            match r {
                Ok(m) => transport_of(bytes@) == Some(m@),
                Err(e) => transport_of(bytes@) is None && e == WireError::Malformed,
            },
            bytes@.len() == 0 ==> r is Err,
    {
        match decode_transport_bytes(bytes) {
            Ok((version, onward, back, payload)) => Ok(
                TransportParts {
                    version,
                    onward_route: route_addresses(onward),
                    return_route: route_addresses(back),
                    payload,
                },
            ),
            Err(_) => Err(WireError::Malformed),
        }
    }
}

} // verus!
