//! The message envelope and its append-only hop path.
//!
//! A `Message` carries an opaque payload and signature toward a destination
//! address, together with the ordered record of hops it has passed through.
//! A `PathNode` is one hop record; once appended to a message's path it is
//! never modified or removed.

use vstd::prelude::*;

use crate::address::Address;
use crate::address::AddressView;

verus! {

/// Marker for the originating side of a transfer; it carries no state.
pub struct Sender {}

/// The unit of transfer.
///
/// The payload and signature are opaque byte sequences; this core neither
/// encodes nor verifies them. `unique_id` is a caller-scoped correlation
/// identifier; uniqueness is not enforced here.
pub struct Message {
    pub destination: Address,
    pub path: Vec<PathNode>,
    pub payload: Vec<u8>,
    pub signature: Vec<u8>,
    pub unique_id: u64,
}

/// One hop record of a message's path.
///
/// `name` is an optional human-readable label and `address` the address at
/// which the hop handled the message; both are absent when the hop was made
/// anonymously. `ts` is a caller-defined timestamp where `0` means "unset".
pub struct PathNode {
    pub name: Option<String>,
    pub address: Option<Address>,
    pub ts: u64,
}

/// Mathematical model of a `PathNode`.
#[verifier::ext_equal]
pub ghost struct PathNodeView {
    pub name: Option<Seq<char>>,
    pub address: Option<AddressView>,
    pub ts: u64,
}

/// Mathematical model of a `Message`.
#[verifier::ext_equal]
pub ghost struct MessageView {
    pub destination: AddressView,
    pub path: Seq<PathNodeView>,
    pub payload: Seq<u8>,
    pub signature: Seq<u8>,
    pub unique_id: u64,
}

impl View for PathNode {
    type V = PathNodeView;

    open spec fn view(&self) -> PathNodeView {
        PathNodeView {
            name: match self.name {
                Some(ref n) => Some(n@),
                None => None,
            },
            address: match self.address {
                Some(ref a) => Some(a@),
                None => None,
            },
            ts: self.ts,
        }
    }
}

impl View for Message {
    type V = MessageView;

    open spec fn view(&self) -> MessageView {
        MessageView {
            destination: self.destination@,
            path: self.path@.map_values(|n: PathNode| n@),
            payload: self.payload@,
            signature: self.signature@,
            unique_id: self.unique_id,
        }
    }
}

impl PathNode {
    /// The empty hop record: no name, no address, timestamp unset.
    pub fn new() -> (r: Self)
        ensures
            r@ == (PathNodeView { name: None, address: None, ts: 0 }),
    {
        PathNode { name: None, address: None, ts: 0 }
    }

    /// Attaches a label to the hop record, leaving the other fields as they
    /// are.
    pub fn with_name(self, name: String) -> (r: Self)
        ensures
            r@ == (PathNodeView { name: Some(name@), ..self@ }),
    {
        PathNode { name: Some(name), ..self }
    }

    /// Attaches an address to the hop record, leaving the other fields as
    /// they are.
    pub fn with_address(self, address: Address) -> (r: Self)
        ensures
            r@ == (PathNodeView { address: Some(address@), ..self@ }),
    {
        PathNode { address: Some(address), ..self }
    }
}

impl Default for PathNode {
    fn default() -> (r: Self)
        ensures
            r@ == (PathNodeView { name: None, address: None, ts: 0 }),
    {
        PathNode::new()
    }
}

/// Law: appending one hop grows the path by exactly one entry and leaves
/// every prior entry unchanged.
pub proof fn lemma_path_append_preserves_entries(path: Seq<PathNodeView>, node: PathNodeView)
    ensures
        path.push(node).len() == path.len() + 1,
        forall|i: int| 0 <= i < path.len() ==> path.push(node)[i] == path[i],
        path.push(node)[path.len() as int] == node,
{
}

} // verus!
