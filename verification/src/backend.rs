//! The contract for a pluggable next-hop resolution store.
//!
//! A backend is the authoritative mapping from an address to the address a
//! message for it should next be forwarded to. The contract is
//! backend-agnostic: any store whose observable behavior is the map
//! `next_map` satisfies it. Coherency between a node's process-local cache
//! and a backend is a policy layered above this contract.

use vstd::prelude::*;

use crate::address::Address;
use crate::address::AddressView;

verus! {

/// The authoritative next-hop resolution store.
pub trait DataBackend {
    /// The mapping this backend currently holds, as a mathematical map.
    /// An implementation that wants its lookups relied on overrides this; by
    /// default it is left unspecified.
    open spec fn next_map(&self) -> Map<AddressView, AddressView> {
        arbitrary()
    }

    /// Returns the currently known next hop for `addr`, or `None` if `addr`
    /// is unresolved.
    fn get_next(&self, addr: &Address) -> (r: Option<Address>)
        ensures
            match r {
                Some(ref next) => self.next_map().contains_key(addr@) && self.next_map()[addr@]
                    == next@,
                None => !self.next_map().contains_key(addr@),
            },
    ;

    /// Stores (or clears, when `next` is absent) the next-hop mapping for
    /// `addr` and returns the value that was in place immediately before the
    /// call.
    fn set_next(&mut self, addr: &Address, next: Option<&Address>) -> (r: Option<Address>)
        ensures
            (match r {
                Some(ref previous) => old(self).next_map().contains_key(addr@) && old(
                    self,
                ).next_map()[addr@] == previous@,
                None => !old(self).next_map().contains_key(addr@),
            }),
            final(self).next_map() == (match next {
                Some(n) => old(self).next_map().insert(addr@, n@),
                None => old(self).next_map().remove(addr@),
            }),
    ;
}

/// Law: on any backend satisfying the contract, storing a next hop and then
/// reading the same address back yields exactly that hop; clearing it and
/// reading back yields nothing; and entries under other addresses are
/// untouched by either operation.
pub proof fn lemma_backend_set_then_get(
    m: Map<AddressView, AddressView>,
    a: AddressView,
    b: AddressView,
)
    ensures
        m.insert(a, b).contains_key(a),
        m.insert(a, b)[a] == b,
        !m.remove(a).contains_key(a),
        forall|q: AddressView|
            q != a ==> (m.insert(a, b).contains_key(q) <==> m.contains_key(q)) && (m.remove(
                a,
            ).contains_key(q) <==> m.contains_key(q)),
        forall|q: AddressView|
            q != a && m.contains_key(q) ==> m.insert(a, b)[q] == m[q] && m.remove(a)[q] == m[q],
{
}

} // verus!
