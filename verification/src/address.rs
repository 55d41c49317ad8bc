//! The address model: `Protocol`, `Identity`, `Address`, `Node`.
//!
//! A `Protocol` identifies a transport kind, an `Identity` identifies an
//! endpoint within one protocol's namespace, and an `Address` pairs the two.
//! The `Address` is the sole unit of routing granularity: routing and caching
//! state is always keyed by the whole pair, never by the identity alone.

use vstd::prelude::*;

verus! {

/// Opaque byte-sequence identifier of a transport kind.
///
/// Two `Protocol` values are equal exactly when their byte sequences are
/// equal.
#[derive(Debug, Eq, Hash)]
pub struct Protocol {
    expr: Vec<u8>,
}

/// Opaque byte-sequence identifier of an endpoint, meaningful only in the
/// context of its associated `Protocol`.
#[derive(Debug, Eq, Hash)]
pub struct Identity {
    expr: Vec<u8>,
}

/// The routing key: a `(Protocol, Identity)` pair.
///
/// There is no notion of "reachable via protocol P" without a concrete
/// identity, so this pair is the only key used to look up routing state.
#[derive(Debug, Eq, Hash)]
pub struct Address {
    pub protocol: Protocol,
    pub identity: Identity,
}

/// A named set of addresses describing all the ways one logical peer can be
/// reached.
pub struct Node {
    pub address_set: Vec<Address>,
}

/// Mathematical model of an `Address`: the two byte sequences.
#[verifier::ext_equal]
pub ghost struct AddressView {
    pub protocol: Seq<u8>,
    pub identity: Seq<u8>,
}

impl View for Protocol {
    type V = Seq<u8>;

    closed spec fn view(&self) -> Seq<u8> {
        self.expr@
    }
}

impl View for Identity {
    type V = Seq<u8>;

    closed spec fn view(&self) -> Seq<u8> {
        self.expr@
    }
}

impl View for Address {
    type V = AddressView;

    open spec fn view(&self) -> AddressView {
        AddressView { protocol: self.protocol@, identity: self.identity@ }
    }
}

impl Protocol {
    /// Wraps the given bytes as a protocol tag.
    pub fn new(expr: Vec<u8>) -> (r: Self)
        ensures
            r@ == expr@,
    {
        Protocol { expr }
    }
}

impl Identity {
    /// Wraps the given bytes as an endpoint identifier.
    pub fn new(expr: Vec<u8>) -> (r: Self)
        ensures
            r@ == expr@,
    {
        Identity { expr }
    }
}

impl Clone for Protocol {
    fn clone(&self) -> (r: Self)
        ensures
            r@ == self@,
    {
        Protocol { expr: self.expr.clone() }
    }
}

impl Clone for Identity {
    fn clone(&self) -> (r: Self)
        ensures
            r@ == self@,
    {
        Identity { expr: self.expr.clone() }
    }
}

impl Clone for Address {
    fn clone(&self) -> (r: Self)
        ensures
            r@ == self@,
    {
        Address { protocol: self.protocol.clone(), identity: self.identity.clone() }
    }
}

impl PartialEq for Protocol {
    fn eq(&self, other: &Protocol) -> (r: bool) {
        let r = self.expr == other.expr;
        proof {
            if r {
                assert(self.expr@ =~= other.expr@);
            }
        }
        r
    }
}

impl vstd::std_specs::cmp::PartialEqSpecImpl for Protocol {
    open spec fn obeys_eq_spec() -> bool {
        true
    }

    open spec fn eq_spec(&self, other: &Protocol) -> bool {
        self@ == other@
    }
}

impl PartialEq for Identity {
    fn eq(&self, other: &Identity) -> (r: bool) {
        let r = self.expr == other.expr;
        proof {
            if r {
                assert(self.expr@ =~= other.expr@);
            }
        }
        r
    }
}

impl vstd::std_specs::cmp::PartialEqSpecImpl for Identity {
    open spec fn obeys_eq_spec() -> bool {
        true
    }

    open spec fn eq_spec(&self, other: &Identity) -> bool {
        self@ == other@
    }
}

impl PartialEq for Address {
    fn eq(&self, other: &Address) -> (r: bool) {
        self.protocol == other.protocol && self.identity == other.identity
    }
}

impl vstd::std_specs::cmp::PartialEqSpecImpl for Address {
    open spec fn obeys_eq_spec() -> bool {
        true
    }

    open spec fn eq_spec(&self, other: &Address) -> bool {
        self@ == other@
    }
}

/// Law: two addresses are equal exactly when both their protocols and their
/// identities are equal.
pub proof fn lemma_address_eq(a: Address, b: Address)
    ensures
        a@ == b@ <==> (a.protocol@ == b.protocol@ && a.identity@ == b.identity@),
{
    if a.protocol@ == b.protocol@ && a.identity@ == b.identity@ {
        assert(a@ =~= b@);
    }
}

} // verus!
