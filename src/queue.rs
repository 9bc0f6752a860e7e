//! Messages that the server pushes to connected peers, queued per peer and
//! sent after the responses that the dispatcher produced.
use vstd::prelude::*;
use std::collections::{HashMap, VecDeque};

verus! {

broadcast use vstd::std_specs::hash::group_hash_axioms;

/// The views of queued messages.
pub open spec fn texts(q: Seq<String>) -> Seq<Seq<char>> {
    q.map_values(|m: String| m@)
}

/// The pending pushes of every peer, keyed by the peer's number.
pub struct MessageQueue {
    queues: HashMap<u64, VecDeque<String>>,
}

impl MessageQueue {
    /// The messages waiting for `peer`, oldest first.
    pub closed spec fn pending(&self, peer: u64) -> Seq<Seq<char>> {
        if self.queues@.contains_key(peer) {
            texts(self.queues@[peer]@)
        } else {
            Seq::empty()
        }
    }

    pub fn new() -> (r: MessageQueue)
        ensures
            forall|p: u64| #[trigger] r.pending(p) == Seq::<Seq<char>>::empty(),
    {
        MessageQueue { queues: HashMap::new() }
    }

    /// Queues a message for `peer`.
    pub fn push(&mut self, peer: u64, message: String)
        ensures
            final(self).pending(peer) == old(self).pending(peer).push(message@),
            forall|p: u64| p != peer ==> #[trigger] final(self).pending(p) == old(self).pending(p),
    {
        let mut q = match self.queues.remove(&peer) {
            Some(q) => q,
            None => VecDeque::new(),
        };
        let ghost before = q@;
        let ghost m = message;
        q.push_back(message);
        assert(texts(q@) =~= texts(before).push(m@));
        self.queues.insert(peer, q);
        assert(forall|p: u64| p != peer ==> #[trigger] self.queues@.contains_key(p) == old(self).queues@.contains_key(p));
    }

    /// The next message to send to `peer`: a response that the dispatcher
    /// produced comes first; otherwise the oldest queued push, which leaves
    /// the queue.
    pub fn poll(&mut self, peer: u64, response: Option<String>) -> (r: Option<String>)
        ensures
            response is Some ==> r == response,
            response is Some ==> final(self).pending(peer) == old(self).pending(peer),
            response is None && old(self).pending(peer).len() == 0 ==> r is None,
            response is None && old(self).pending(peer).len() == 0 ==> final(self).pending(peer)
                == old(self).pending(peer),
            response is None && old(self).pending(peer).len() > 0 ==> (r matches Some(m) && m@
                == old(self).pending(peer)[0]),
            response is None && old(self).pending(peer).len() > 0 ==> final(self).pending(peer)
                == old(self).pending(peer).drop_first(),
            forall|p: u64| p != peer ==> #[trigger] final(self).pending(p) == old(self).pending(p),
    {
        if response.is_some() {
            return response;
        }
        match self.queues.remove(&peer) {
            None => None,
            Some(q) => {
                let mut q = q;
                let ghost before = q@;
                let m = q.pop_front();
                assert(before.len() > 0 ==> texts(q@) =~= texts(before).drop_first());
                self.queues.insert(peer, q);
                m
            },
        }
    }
}

} // verus!
