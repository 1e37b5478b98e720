//! Worker addresses and routes, as the plain values the receiver reads.
use vstd::prelude::*;

verus! {

/// What an address is: a transport type and the bytes that name the worker.
pub struct AddressView {
    pub tt: u8,
    pub inner: Seq<u8>,
}

/// The address of a worker.
#[derive(Clone, Debug, PartialEq, Eq)]
pub struct PipeAddress {
    pub tt: u8,
    pub inner: Vec<u8>,
}

impl View for PipeAddress {
    type V = AddressView;

    open spec fn view(&self) -> AddressView {
        AddressView { tt: self.tt, inner: self.inner@ }
    }
}

/// The addresses of a route, first hop first.
pub open spec fn route_view(route: Seq<PipeAddress>) -> Seq<AddressView> {
    route.map_values(|a: PipeAddress| a@)
}

/// Whether two byte strings hold the same bytes.
pub fn same_bytes(a: &Vec<u8>, b: &Vec<u8>) -> (r: bool)
    ensures
        r == (a@ == b@),
{
    if a.len() != b.len() {
        return false;
    }
    let mut i: usize = 0;
    while i < a.len()
        invariant
            a.len() == b.len(),
            i <= a.len(),
            forall|j: int| 0 <= j < i ==> a@[j] == b@[j],
        decreases a.len() - i,
    {
        if a[i] != b[i] {
            return false;
        }
        i += 1;
    }
    assert(a@ =~= b@);
    true
}

/// A copy of a byte string.
pub fn copy_bytes(a: &Vec<u8>) -> (r: Vec<u8>)
    ensures
        r@ == a@,
{
    let mut out: Vec<u8> = Vec::new();
    let mut i: usize = 0;
    while i < a.len()
        invariant
            i <= a.len(),
            out@ == a@.take(i as int),
        decreases a.len() - i,
    {
        out.push(a[i]);
        assert(a@.take(i + 1) =~= a@.take(i as int).push(a@[i as int]));
        i += 1;
    }
    assert(a@.take(a.len() as int) =~= a@);
    out
}

/// A copy of a route.
pub fn copy_route(route: &Vec<PipeAddress>) -> (r: Vec<PipeAddress>)
    ensures
        route_view(r@) == route_view(route@),
{
    let mut out: Vec<PipeAddress> = Vec::new();
    let mut i: usize = 0;
    while i < route.len()
        invariant
            i <= route.len(),
            out.len() == i,
            forall|j: int| 0 <= j < i ==> (#[trigger] out@[j])@ == route@[j]@,
        decreases route.len() - i,
    {
        out.push(route[i].duplicate());
        i += 1;
    }
    assert(route_view(out@) =~= route_view(route@));
    out
}

impl PipeAddress {
    /// An address from its transport type and its bytes.
    pub fn new(tt: u8, inner: Vec<u8>) -> (r: PipeAddress)
        ensures
            r@ == (AddressView { tt, inner: inner@ }),
    {
        PipeAddress { tt, inner }
    }

    /// Whether `self` and `other` are the same address: the same transport
    /// type and the same bytes.
    pub fn same(&self, other: &PipeAddress) -> (r: bool)
        ensures
            r == (self@ == other@),
    {
        self.tt == other.tt && same_bytes(&self.inner, &other.inner)
    }

    /// A copy of this address.
    pub fn duplicate(&self) -> (r: PipeAddress)
        ensures
            r@ == self@,
    {
        PipeAddress { tt: self.tt, inner: copy_bytes(&self.inner) }
    }
}

} // verus!
