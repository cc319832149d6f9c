//! The in-process reference implementation of the transport contract:
//! peers held in the same process, each owning an unbounded FIFO queue
//! for inbound delivery.

use vstd::prelude::*;

use crate::transport::{Envelope, NetAddr, Transport, TransportError, RPC};

verus! {

/// An in-process transport endpoint. It owns its inbound queue and a
/// table of the peer addresses registered as reachable; delivery
/// pushes directly onto the destination transport's queue.
pub struct LocalTransport {
    addr: NetAddr,
    peers: Vec<NetAddr>,
    inbox: Vec<RPC>,
}

impl LocalTransport {
    /// Creates an endpoint with the given address, no registered
    /// peers, and an empty inbound queue.
    pub fn new(addr: NetAddr) -> (t: LocalTransport)
        ensures
            t.addr_view() == addr@,
            t.peers_view() == Set::<Seq<char>>::empty(),
            t.inbox_view() == Seq::<Envelope>::empty(),
    {
        let t = LocalTransport { addr, peers: Vec::new(), inbox: Vec::new() };
        proof {
            assert(t.peers_view() =~= Set::<Seq<char>>::empty());
            assert(t.inbox_view() =~= Seq::<Envelope>::empty());
        }
        t
    }

    /// Looks up a registered peer by address: the stored address of
    /// the peer if `to` was registered via `connect`, `None` otherwise.
    pub fn get_peer(&self, to: &NetAddr) -> (r: Option<&NetAddr>)
        ensures
            r is Some <==> self.peers_view().contains(to@),
            r matches Some(a) ==> a@ == to@,
    {
        let n = self.peers.len();
        let mut i: usize = 0;
        while i < n
            invariant
                n == self.peers.len(),
                i <= n,
                forall|j: int| 0 <= j < i ==> self.peers@[j]@ != to@,
            decreases n - i,
        {
            if &self.peers[i] == to {
                proof {
                    assert(self.peers@.map_values(|p: NetAddr| p@)[i as int] == to@);
                    assert(self.peers@.map_values(|p: NetAddr| p@).contains(to@));
                }
                return Some(&self.peers[i]);
            }
            i += 1;
        }
        proof {
            let mapped = self.peers@.map_values(|p: NetAddr| p@);
            if mapped.contains(to@) {
                let j = choose|j: int| 0 <= j < mapped.len() && mapped[j] == to@;
                assert(self.peers@[j]@ != to@);
                assert(false);
            }
        }
        None
    }
}

impl Transport for LocalTransport {
    closed spec fn addr_view(&self) -> Seq<char> {
        self.addr@
    }

    closed spec fn peers_view(&self) -> Set<Seq<char>> {
        self.peers@.map_values(|p: NetAddr| p@).to_set()
    }

    closed spec fn inbox_view(&self) -> Seq<Envelope> {
        self.inbox@.map_values(|r: RPC| r@)
    }

    fn get_addr(&self) -> (r: &NetAddr) {
        &self.addr
    }

    fn connect(&mut self, peer: &Self) -> (r: Result<(), TransportError>) {
        self.peers.push(peer.addr.clone());
        proof {
            old(self).peers@.lemma_push_map_commute(|p: NetAddr| p@, peer.addr);
            old(self).peers@.map_values(|p: NetAddr| p@).lemma_push_to_set_commute(peer.addr@);
            assert(self.peers_view() =~= old(self).peers_view().insert(peer.addr_view()));
            assert(self.inbox_view() =~= old(self).inbox_view());
        }
        Ok(())
    }

    fn send_message(&self, dest: &mut Self, payload: Vec<char>) -> (r: Result<
        (),
        TransportError,
    >) {
        let registered = self.get_peer(&dest.addr).is_some();
        if registered {
            let envelope = RPC { from: self.addr.clone(), payload };
            dest.inbox.push(envelope);
            proof {
                assert(dest.inbox_view() =~= old(dest).inbox_view().push(
                    (Envelope { from: self.addr_view(), payload: payload@ }),
                ));
            }
            Ok(())
        } else {
            Err(TransportError::UnknownPeer)
        }
    }

    fn consume(&mut self) -> (r: Option<RPC>) {
        if self.inbox.len() == 0 {
            None
        } else {
            let rpc = self.inbox.remove(0);
            proof {
                assert(self.inbox_view() =~= old(self).inbox_view().drop_first());
            }
            Some(rpc)
        }
    }
}

} // verus!
