//! The byte encodings the receiver reads, all of them decoded by
//! `ockam_core`. What each decoding yields is given a name here; the rest of
//! the library reasons over those names.
use vstd::prelude::*;

verus! {

/// The error type of `ockam_core`, carried through unopened.
#[verifier::external_type_specification]
#[verifier::external_body]
pub struct ExOckamError(ockam_core::Error);

/// The route type of `ockam_core`: a queue of addresses, next hop first.
#[verifier::external_type_specification]
#[verifier::external_body]
pub struct ExOckamRoute(ockam_core::Route);

/// A transport message as plain values: protocol version, onward route,
/// return route and payload. An address is its transport type and its bytes.
pub type RawTransportView = (u8, Seq<(u8, Seq<u8>)>, Seq<(u8, Seq<u8>)>, Seq<u8>);

/// The sequence index and the payload that `bytes` decode to as a pipe
/// envelope, or `None` where they do not decode.
pub uninterp spec fn wire_envelope(bytes: Seq<u8>) -> Option<(u64, Seq<u8>)>;

/// The number that `bytes` decode to as the tag of an internal command, or
/// `None` where they do not decode.
pub uninterp spec fn wire_command_tag(bytes: Seq<u8>) -> Option<u64>;

/// The transport message that `bytes` decode to, or `None` where they do
/// not decode.
pub uninterp spec fn wire_transport(bytes: Seq<u8>) -> Option<RawTransportView>;

/// The addresses that a route holds, next hop first, each as its transport
/// type and its bytes.
pub uninterp spec fn route_hops(route: ockam_core::Route) -> Seq<(u8, Seq<u8>)>;

/// Calls `ockam_core::Decodable::decode` for a variable-length unsigned
/// integer followed by a byte string, the layout of a pipe envelope.
/// Claims that success and the decoded values depend on the bytes alone,
/// and that no bytes at all do not decode.
#[verifier::external_body]
pub(crate) fn decode_envelope_bytes(bytes: &[u8]) -> (r: Result<(u64, Vec<u8>), ockam_core::Error>)
    ensures
        r.is_ok() == wire_envelope(bytes@).is_some(),
        bytes@.len() == 0 ==> r.is_err(),
        r.is_ok() ==> wire_envelope(bytes@) == Some((r.unwrap().0, r.unwrap().1@)),
{
    let decoded = <(ockam_core::Uint, Vec<u8>) as ockam_core::Decodable>::decode(bytes);
    decoded.map(|(index, payload)| (index.u64(), payload))
}

/// Calls `ockam_core::Decodable::decode` for a variable-length unsigned
/// integer, the tag that leads an internal command.
/// Claims that success and the decoded number depend on the bytes alone,
/// and that no bytes at all do not decode.
#[verifier::external_body]
pub(crate) fn decode_command_tag_bytes(bytes: &[u8]) -> (r: Result<u64, ockam_core::Error>)
    ensures
        r.is_ok() == wire_command_tag(bytes@).is_some(),
        bytes@.len() == 0 ==> r.is_err(),
        r.is_ok() ==> wire_command_tag(bytes@) == Some(r.unwrap()),
{
    let decoded = <ockam_core::Uint as ockam_core::Decodable>::decode(bytes);
    decoded.map(|tag| tag.u64())
}

/// Calls `ockam_core::Decodable::decode` for `ockam_core::TransportMessage`
/// and hands out its four fields.
/// Claims that success and the decoded fields depend on the bytes alone,
/// and that no bytes at all do not decode.
#[verifier::external_body]
pub(crate) fn decode_transport_bytes(bytes: &[u8]) -> (r: Result<
    (u8, ockam_core::Route, ockam_core::Route, Vec<u8>),
    ockam_core::Error,
>)
    ensures
        r.is_ok() == wire_transport(bytes@).is_some(),
        bytes@.len() == 0 ==> r.is_err(),
        r.is_ok() ==> wire_transport(bytes@) == Some(
            (
                r.unwrap().0,
                route_hops(r.unwrap().1),
                route_hops(r.unwrap().2),
                r.unwrap().3@,
            ),
        ),
{
    let decoded = <ockam_core::TransportMessage as ockam_core::Decodable>::decode(bytes);
    decoded.map(|m| (m.version, m.onward_route, m.return_route, m.payload))
}

/// Calls `ockam_core::Route::step`, which takes the next hop off the front
/// of the route and fails on a route that holds none.
/// Claims that `Some` is the first address and leaves the others in their
/// order, and that `None` comes exactly for the empty route, which stays
/// empty.
#[verifier::external_body]
pub(crate) fn route_step(route: &mut ockam_core::Route) -> (r: Option<(u8, Vec<u8>)>)
    ensures
        match r {
            Some(hop) => route_hops(*old(route)).len() > 0 && (hop.0, hop.1@) == route_hops(
                *old(route),
            )[0] && route_hops(*final(route)) == route_hops(*old(route)).skip(1),
            None => route_hops(*old(route)).len() == 0 && route_hops(*final(route)).len() == 0,
        },
{
    route.step().ok().map(|hop| (hop.tt, hop.to_vec()))
}

} // verus!
