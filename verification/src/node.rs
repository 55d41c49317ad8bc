//! The live routing context and its dispatch logic.
//!
//! A `NodeInstance` owns the set of addresses it answers to, a registry of
//! protocol executors keyed by protocol, and a process-local next-hop cache.
//! `mark` appends this node's hop to a message's path; `send` hands a message
//! to the executor registered for the destination's protocol.

use vstd::prelude::*;

use crate::address::Address;
use crate::address::AddressView;
use crate::address::Protocol;
use crate::executor::DynProtocolExecutor;
use crate::executor::ErasedError;
use crate::message::Message;
use crate::message::MessageView;
use crate::message::PathNode;
use crate::message::PathNodeView;

verus! {

/// Why a dispatch failed.
pub enum SendError {
    /// The executor registered for the destination's protocol attempted
    /// delivery and failed; the payload preserves the description of the
    /// transport's error, its concrete type having been erased.
    ExecutorError(ErasedError),
    /// No executor is registered for the destination's protocol. `supported`
    /// is a snapshot of all protocols that are registered, so the caller can
    /// pick a different address for the same logical peer.
    ProtocolNotSupport { supported: Vec<Protocol> },
}

/// The live, mutable routing context.
///
/// The registry maps each protocol to at most one executor; registering a
/// protocol twice replaces the earlier executor (last registration wins).
pub struct NodeInstance<X> {
    anon: bool,
    name: Option<String>,
    address_set: Vec<Address>,
    next_cache: Vec<(Address, Address)>,
    protocol_executor: Vec<(Protocol, X)>,
}

impl<X> NodeInstance<X> {
    /// Whether this node marks hops anonymously.
    pub closed spec fn is_anon(&self) -> bool {
        self.anon
    }

    /// This node's own optional label.
    pub closed spec fn node_name(&self) -> Option<Seq<char>> {
        self.name.deep_view()
    }

    /// The addresses this node answers to.
    pub closed spec fn addresses(&self) -> Seq<AddressView> {
        self.address_set@.map_values(|a: Address| a@)
    }

    /// The executor registry, in registration order.
    pub closed spec fn registry(&self) -> Seq<(Protocol, X)> {
        self.protocol_executor@
    }

    /// The registered protocols, in registration order.
    pub open spec fn protocols(&self) -> Seq<Seq<u8>> {
        Seq::new(self.registry().len(), |i: int| self.registry()[i].0@)
    }

    /// Whether some executor is registered for protocol `p`.
    pub open spec fn registered(&self, p: Seq<u8>) -> bool {
        exists|i: int| 0 <= i < self.registry().len() && self.registry()[i].0@ == p
    }

    /// The registry index of the executor for protocol `p`.
    pub open spec fn executor_index(&self, p: Seq<u8>) -> int {
        choose|i: int| 0 <= i < self.registry().len() && self.registry()[i].0@ == p
    }

    /// The executor registered for protocol `p`.
    pub open spec fn executor_for(&self, p: Seq<u8>) -> X {
        self.registry()[self.executor_index(p)].1
    }

    /// Well-formedness: at most one executor per protocol.
    pub open spec fn wf(&self) -> bool {
        forall|i: int, j: int|
            0 <= i < j < self.registry().len() ==> self.registry()[i].0@ != self.registry()[j].0@
    }

    /// The hop record `mark` appends for a message accepted at `accept_at`:
    /// an empty hop when the node is anonymous, otherwise a hop carrying the
    /// node's own name (if set) and the accepting address.
    pub open spec fn marked_node(&self, accept_at: AddressView) -> PathNodeView {
        if self.is_anon() {
            PathNodeView { name: None, address: None, ts: 0 }
        } else {
            PathNodeView { name: self.node_name(), address: Some(accept_at), ts: 0 }
        }
    }

    /// In a well-formed registry, an entry whose protocol is `p` is the one
    /// entry `executor_index` and `executor_for` designate.
    proof fn lemma_executor_at(&self, p: Seq<u8>, i: int)
        requires
            self.wf(),
            0 <= i < self.registry().len(),
            self.registry()[i].0@ == p,
        ensures
            self.registered(p),
            self.executor_index(p) == i,
            self.executor_for(p) == self.registry()[i].1,
    {
        assert(self.registered(p));
        let j = self.executor_index(p);
        assert(0 <= j < self.registry().len() && self.registry()[j].0@ == p);
        if i < j {
            assert(self.registry()[i].0@ != self.registry()[j].0@);
        } else if j < i {
            assert(self.registry()[j].0@ != self.registry()[i].0@);
        }
    }

    /// Constructs a node with the given anonymity flag, optional self-label
    /// and address set, an empty executor registry and an empty next-hop
    /// cache.
    pub fn new(anon: bool, name: Option<String>, address_set: Vec<Address>) -> (r: Self)
        ensures
            r.wf(),
            r.is_anon() == anon,
            r.node_name() == name.deep_view(),
            r.addresses() == address_set@.map_values(|a: Address| a@),
            r.registry().len() == 0,
    {
        NodeInstance {
            anon,
            name,
            address_set,
            next_cache: Vec::new(),
            protocol_executor: Vec::new(),
        }
    }

    /// The registry index holding `protocol`, if any.
    fn find_executor_index(&self, protocol: &Protocol) -> (r: Option<usize>)
        ensures
            match r {
                Some(i) => 0 <= i < self.registry().len() && self.registry()[i as int].0@
                    == protocol@,
                None => !self.registered(protocol@),
            },
    {
        let mut j: usize = 0;
        while j < self.protocol_executor.len()
            invariant
                j <= self.protocol_executor@.len(),
                forall|k: int| 0 <= k < j ==> self.protocol_executor@[k].0@ != protocol@,
            decreases self.protocol_executor@.len() - j,
        {
            if self.protocol_executor[j].0 == *protocol {
                return Some(j);
            }
            j += 1;
        }
        None
    }

    /// Registers `executor` for `protocol`. At most one executor is held per
    /// protocol: registering a protocol twice replaces the earlier executor
    /// (last registration wins). No other registration is touched.
    pub fn register(&mut self, protocol: Protocol, executor: X)
        requires
            old(self).wf(),
        ensures
            final(self).wf(),
            final(self).registered(protocol@),
            final(self).executor_for(protocol@) == executor,
            forall|q: Seq<u8>|
                q != protocol@ ==> (final(self).registered(q) <==> old(self).registered(q)),
            forall|q: Seq<u8>|
                q != protocol@ && old(self).registered(q) ==> final(self).executor_for(q) == old(
                    self,
                ).executor_for(q),
            final(self).is_anon() == old(self).is_anon(),
            final(self).node_name() == old(self).node_name(),
            final(self).addresses() == old(self).addresses(),
    {
        let ghost old_reg = self.registry();
        let ghost p = protocol@;
        match self.find_executor_index(&protocol) {
            Some(i) => {
                self.protocol_executor[i] = (protocol, executor);
                proof {
                    let new_reg = self.registry();
                    assert(new_reg =~= old_reg.update(i as int, (protocol, executor)));
                    assert forall|k: int|
                        0 <= k < new_reg.len() implies new_reg[k].0@ == old_reg[k].0@ by {
                        if k == i as int {
                            assert(new_reg[k].0@ == p);
                        }
                    }
                    self.lemma_executor_at(p, i as int);
                    self.lemma_frame(*old(self), p, i as int);
                }
            },
            None => {
                self.protocol_executor.push((protocol, executor));
                proof {
                    let new_reg = self.registry();
                    assert(new_reg =~= old_reg.push((protocol, executor)));
                    assert(forall|k: int|
                        0 <= k < old_reg.len() ==> new_reg[k].0@ == old_reg[k].0@);
                    assert forall|a: int, b: int|
                        0 <= a < b < new_reg.len() implies new_reg[a].0@ != new_reg[b].0@ by {
                        if b == old_reg.len() as int {
                            assert(!old(self).registered(p));
                            assert(old_reg[a].0@ != p);
                        }
                    }
                    self.lemma_executor_at(p, old_reg.len() as int);
                    self.lemma_frame(*old(self), p, old_reg.len() as int);
                }
            },
        }
    }

    /// Helper for `register`: when the new registry agrees with the old one
    /// on every entry except the one at `i`, whose protocol is `p`, every
    /// other protocol keeps its registration and its executor.
    proof fn lemma_frame(&self, prior: Self, p: Seq<u8>, i: int)
        requires
            self.wf(),
            prior.wf(),
            0 <= i < self.registry().len(),
            self.registry()[i].0@ == p,
            self.registry().len() == prior.registry().len() || (self.registry().len()
                == prior.registry().len() + 1 && i == prior.registry().len()),
            forall|k: int|
                0 <= k < prior.registry().len() ==> self.registry()[k].0@
                    == prior.registry()[k].0@,
            forall|k: int|
                0 <= k < prior.registry().len() && k != i ==> self.registry()[k].1
                    == prior.registry()[k].1,
        ensures
            forall|q: Seq<u8>| q != p ==> (self.registered(q) <==> prior.registered(q)),
            forall|q: Seq<u8>|
                q != p && prior.registered(q) ==> self.executor_for(q) == prior.executor_for(q),
    {
        assert forall|q: Seq<u8>| q != p implies (self.registered(q) <==> prior.registered(
            q,
        )) by {
            if self.registered(q) {
                let k = choose|k: int|
                    0 <= k < self.registry().len() && self.registry()[k].0@ == q;
                assert(k != i);
                assert(k < prior.registry().len());
                assert(prior.registry()[k].0@ == q);
            }
            if prior.registered(q) {
                let k = choose|k: int|
                    0 <= k < prior.registry().len() && prior.registry()[k].0@ == q;
                assert(self.registry()[k].0@ == q);
            }
        }
        assert forall|q: Seq<u8>|
            q != p && prior.registered(q) implies self.executor_for(q) == prior.executor_for(
            q,
        ) by {
            let k = choose|k: int| 0 <= k < prior.registry().len() && prior.registry()[k].0@ == q;
            prior.lemma_executor_at(q, k);
            self.lemma_executor_at(q, k);
        }
    }

    /// Appends this node's hop record to the message's path; no other field
    /// of the message is touched, and no prior hop changes. When the node is
    /// anonymous the hop carries no name and no address, whatever `accept_at`
    /// is; otherwise it carries the node's own name (if set) and `accept_at`,
    /// the address at which this node accepted the message.
    pub fn mark(&self, accept_at: Address, message: &mut Message)
        ensures
            final(message)@ == (MessageView {
                path: old(message)@.path.push(self.marked_node(accept_at@)),
                ..old(message)@
            }),
    {
        let ghost accepted = accept_at@;
        let this_node = if self.anon {
            PathNode::new()
        } else {
            let mut pn = PathNode::new().with_address(accept_at);
            if let Some(name) = &self.name {
                pn = pn.with_name(name.clone());
            }
            pn
        };
        proof {
            assert(this_node@ =~= self.marked_node(accepted));
        }
        message.path.push(this_node);
        proof {
            assert(message@.path =~= old(message)@.path.push(this_node@));
            assert(message@ =~= (MessageView {
                path: old(message)@.path.push(self.marked_node(accepted)),
                ..old(message)@
            }));
        }
    }
}

impl<X: DynProtocolExecutor> NodeInstance<X> {
    /// Dispatches `message`, consuming it, to the executor registered for
    /// `to.protocol`.
    ///
    /// When an executor is registered for that protocol, exactly that
    /// executor attempts delivery to `to.identity`, and its failure, if any,
    /// is reported as `ExecutorError` carrying the erased transport error.
    /// When none is registered, no delivery is attempted and the error lists
    /// a snapshot of every registered protocol. `to` is trusted as already
    /// resolved: no next-hop lookup, retry or fallback happens here.
    pub fn send(&self, message: Message, to: Address) -> (r: Result<(), SendError>)
        requires
            self.wf(),
        ensures
            match r {
                Ok(_) => self.registered(to.protocol@) && self.executor_for(
                    to.protocol@,
                ).dyn_send_admits(to.identity@, message@, None),
                Err(SendError::ExecutorError(ref e)) => self.registered(to.protocol@)
                    && self.executor_for(to.protocol@).dyn_send_admits(
                    to.identity@,
                    message@,
                    Some(e@),
                ),
                Err(SendError::ProtocolNotSupport { ref supported }) => !self.registered(
                    to.protocol@,
                ) && supported@.len() == self.registry().len() && supported@.map_values(
                    |q: Protocol| q@,
                ) == self.protocols(),
            },
    {
        match self.find_executor_index(&to.protocol) {
            Some(i) => {
                proof {
                    self.lemma_executor_at(to.protocol@, i as int);
                }
                let executor = &self.protocol_executor[i].1;
                match executor.send(&to.identity, message) {
                    Ok(()) => Ok(()),
                    Err(e) => Err(SendError::ExecutorError(e)),
                }
            },
            None => {
                let mut supported: Vec<Protocol> = Vec::new();
                let mut j: usize = 0;
                while j < self.protocol_executor.len()
                    invariant
                        j <= self.protocol_executor@.len(),
                        supported@.len() == j,
                        forall|k: int|
                            0 <= k < j ==> supported@[k]@ == self.protocol_executor@[k].0@,
                    decreases self.protocol_executor@.len() - j,
                {
                    supported.push(self.protocol_executor[j].0.clone());
                    j += 1;
                }
                proof {
                    assert(supported@.map_values(|q: Protocol| q@) =~= self.protocols());
                }
                Err(SendError::ProtocolNotSupport { supported })
            },
        }
    }
}

/// Law: an anonymous node marks every message with an empty hop — no name and
/// no address — whatever address it accepted the message at.
pub proof fn lemma_anonymous_mark<X>(node: NodeInstance<X>, accept_at: AddressView)
    requires
        node.is_anon(),
    ensures
        node.marked_node(accept_at) == (PathNodeView { name: None, address: None, ts: 0 }),
{
}

/// Law: a non-anonymous node with a name marks every message with a hop
/// carrying exactly that name and the address it accepted the message at.
pub proof fn lemma_named_mark<X>(node: NodeInstance<X>, accept_at: AddressView, n: Seq<char>)
    requires
        !node.is_anon(),
        node.node_name() == Some(n),
    ensures
        node.marked_node(accept_at) == (PathNodeView {
            name: Some(n),
            address: Some(accept_at),
            ts: 0,
        }),
{
}

} // verus!
