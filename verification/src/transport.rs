//! The transport capability contract: endpoint addresses, message
//! envelopes, and the three-verb interface (connect, send, drain) that
//! any point-to-point, address-keyed delivery mechanism must satisfy.

use vstd::prelude::*;

verus! {

/// An opaque, comparable identifier naming a transport endpoint.
/// Two addresses are equal iff their underlying strings are equal.
#[derive(Debug, Hash, Eq)]
pub struct NetAddr(pub String);

impl View for NetAddr {
    type V = Seq<char>;

    open spec fn view(&self) -> Seq<char> {
        self.0@
    }
}

impl Clone for NetAddr {
    fn clone(&self) -> (r: Self)
        ensures
            r == *self,
    {
        NetAddr(self.0.clone())
    }
}

impl PartialEq for NetAddr {
    fn eq(&self, other: &NetAddr) -> bool {
        self.0 == other.0
    }
}

impl vstd::std_specs::cmp::PartialEqSpecImpl for NetAddr {
    open spec fn obeys_eq_spec() -> bool {
        true
    }

    open spec fn eq_spec(&self, other: &NetAddr) -> bool {
        self.0@ == other.0@
    }
}

/// The unit of transport delivery: a payload stamped with the address
/// of its sender.
pub struct RPC {
    pub from: NetAddr,
    pub payload: Vec<char>,
}

/// The mathematical shape of an `RPC`: the sender's address and the
/// payload, each as a sequence of characters.
pub ghost struct Envelope {
    pub from: Seq<char>,
    pub payload: Seq<char>,
}

impl View for RPC {
    type V = Envelope;

    open spec fn view(&self) -> Envelope {
        Envelope { from: self.from@, payload: self.payload@ }
    }
}

/// A transport-level failure, reported to the caller rather than
/// raised as a fatal fault.
#[derive(Clone, Copy, Debug, PartialEq, Eq, Structural)]
pub enum TransportError {
    /// The destination address was never registered via `connect`.
    UnknownPeer,
}

/// The capability contract for addressed, queued message delivery.
///
/// Registration is directional: registering peer P on transport A lets
/// A send to P, but not P to A. Each transport owns an inbound FIFO
/// queue; `send_message` appends to the destination's queue and
/// `consume` drains the receiver's own queue, oldest envelope first.
pub trait Transport: Sized {
    /// The transport's own address; stable for its lifetime.
    spec fn addr_view(&self) -> Seq<char>;

    /// The set of addresses registered as reachable peers.
    spec fn peers_view(&self) -> Set<Seq<char>>;

    /// The inbound queue, oldest envelope first.
    spec fn inbox_view(&self) -> Seq<Envelope>;

    /// The transport's own identity.
    fn get_addr(&self) -> (r: &NetAddr)
        ensures
            r@ == self.addr_view(),
    ;

    /// Registers `peer` as reachable for sending. Never fails.
    fn connect(&mut self, peer: &Self) -> (r: Result<(), TransportError>)
        ensures
            r == Ok::<(), TransportError>(()),
            final(self).addr_view() == old(self).addr_view(),
            final(self).peers_view() == old(self).peers_view().insert(peer.addr_view()),
            final(self).inbox_view() == old(self).inbox_view(),
    ;

    /// Enqueues an envelope stamped with the sender's own address onto
    /// the destination's inbound queue, or reports `UnknownPeer` if the
    /// destination's address was never registered via `connect`.
    fn send_message(&self, dest: &mut Self, payload: Vec<char>) -> (r: Result<
        (),
        TransportError,
    >)
        ensures
            final(dest).addr_view() == old(dest).addr_view(),
            final(dest).peers_view() == old(dest).peers_view(),
            self.peers_view().contains(old(dest).addr_view()) ==> {
                &&& r == Ok::<(), TransportError>(())
                &&& final(dest).inbox_view() == old(dest).inbox_view().push(
                    (Envelope { from: self.addr_view(), payload: payload@ }),
                )
            },
            !self.peers_view().contains(old(dest).addr_view()) ==> {
                &&& r == Err::<(), TransportError>(TransportError::UnknownPeer)
                &&& final(dest).inbox_view() == old(dest).inbox_view()
            },
    ;

    /// Polls the transport's own inbound queue: removes and returns the
    /// oldest envelope, or returns `None` when the queue is empty.
    fn consume(&mut self) -> (r: Option<RPC>)
        ensures
            final(self).addr_view() == old(self).addr_view(),
            final(self).peers_view() == old(self).peers_view(),
            old(self).inbox_view().len() == 0 ==> {
                &&& r is None
                &&& final(self).inbox_view() == old(self).inbox_view()
            },
            old(self).inbox_view().len() > 0 ==> {
                &&& r matches Some(rpc) && rpc@ == old(self).inbox_view()[0]
                &&& final(self).inbox_view() == old(self).inbox_view().drop_first()
            },
    ;
}

} // verus!
