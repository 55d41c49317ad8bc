use std::collections::hash_map::DefaultHasher;
use std::hash::Hash;
use std::hash::Hasher;

use anytape::Address;
use anytape::Identity;
use anytape::Message;
use anytape::NodeInstance;
use anytape::PathNode;
use anytape::Protocol;

fn addr(protocol: &[u8], identity: &[u8]) -> Address {
    Address {
        protocol: Protocol::new(protocol.to_vec()),
        identity: Identity::new(identity.to_vec()),
    }
}

fn message_to(destination: Address) -> Message {
    Message {
        destination,
        path: Vec::new(),
        payload: vec![0xAA, 0xBB],
        signature: vec![0x01],
        unique_id: 42,
    }
}

fn hash_of<T: Hash>(value: &T) -> u64 {
    let mut hasher = DefaultHasher::new();
    value.hash(&mut hasher);
    hasher.finish()
}

// A node never dispatches in this file; any executor type will do.
struct NoExecutor {}

impl anytape::DynProtocolExecutor for NoExecutor {
    fn send(&self, _remote: &Identity, _message: Message) -> Result<(), anytape::ErasedError> {
        Ok(())
    }
}

#[test]
fn address_equality_is_structural() {
    let a = addr(b"udp", b"peer-1");
    let same = addr(b"udp", b"peer-1");
    let other_protocol = addr(b"ble", b"peer-1");
    let other_identity = addr(b"udp", b"peer-2");

    assert_eq!(a, same);
    assert_ne!(a, other_protocol);
    assert_ne!(a, other_identity);
    assert_ne!(other_protocol, other_identity);
}

#[test]
fn same_identity_under_different_protocols_does_not_collide() {
    let a = addr(b"udp", b"shared-identity");
    let b = addr(b"ble", b"shared-identity");
    assert_ne!(a, b);
}

#[test]
fn address_hash_agrees_with_equality() {
    let a = addr(b"udp", b"peer-1");
    let same = addr(b"udp", b"peer-1");
    assert_eq!(a, same);
    assert_eq!(hash_of(&a), hash_of(&same));

    assert_eq!(hash_of(&a.protocol), hash_of(&same.protocol));
    assert_eq!(hash_of(&a.identity), hash_of(&same.identity));
}

#[test]
fn path_node_starts_empty() {
    let node = PathNode::new();
    assert!(node.name.is_none());
    assert!(node.address.is_none());
    assert_eq!(node.ts, 0);

    let by_default = PathNode::default();
    assert!(by_default.name.is_none());
    assert!(by_default.address.is_none());
    assert_eq!(by_default.ts, 0);
}

#[test]
fn path_node_builders_accumulate() {
    let node = PathNode::new()
        .with_name(String::from("relay"))
        .with_address(addr(b"udp", b"peer-1"));
    assert_eq!(node.name.as_deref(), Some("relay"));
    assert_eq!(node.address.as_ref().unwrap(), &addr(b"udp", b"peer-1"));
    assert_eq!(node.ts, 0);
}

#[test]
fn mark_appends_exactly_one_hop_per_call() {
    let node: NodeInstance<NoExecutor> =
        NodeInstance::new(false, Some(String::from("relay")), Vec::new());
    let mut message = message_to(addr(b"udp", b"peer-9"));

    assert_eq!(message.path.len(), 0);
    node.mark(addr(b"udp", b"self-1"), &mut message);
    assert_eq!(message.path.len(), 1);
    node.mark(addr(b"ble", b"self-2"), &mut message);
    assert_eq!(message.path.len(), 2);
    node.mark(addr(b"udp", b"self-3"), &mut message);
    assert_eq!(message.path.len(), 3);

    // Prior entries are untouched: each still carries the address given to
    // the call that appended it.
    assert_eq!(
        message.path[0].address.as_ref().unwrap(),
        &addr(b"udp", b"self-1")
    );
    assert_eq!(
        message.path[1].address.as_ref().unwrap(),
        &addr(b"ble", b"self-2")
    );
    assert_eq!(
        message.path[2].address.as_ref().unwrap(),
        &addr(b"udp", b"self-3")
    );

    // No other message field moved.
    assert_eq!(message.destination, addr(b"udp", b"peer-9"));
    assert_eq!(message.payload, vec![0xAA, 0xBB]);
    assert_eq!(message.signature, vec![0x01]);
    assert_eq!(message.unique_id, 42);
}

#[test]
fn anonymous_marking_reveals_nothing() {
    let node: NodeInstance<NoExecutor> =
        NodeInstance::new(true, Some(String::from("relay")), Vec::new());
    let mut message = message_to(addr(b"udp", b"peer-9"));

    node.mark(addr(b"udp", b"self-1"), &mut message);
    node.mark(addr(b"ble", b"self-2"), &mut message);

    assert_eq!(message.path.len(), 2);
    for hop in &message.path {
        assert!(hop.name.is_none());
        assert!(hop.address.is_none());
        assert_eq!(hop.ts, 0);
    }
}

#[test]
fn named_marking_carries_name_and_accepting_address() {
    let node: NodeInstance<NoExecutor> =
        NodeInstance::new(false, Some(String::from("relay")), Vec::new());
    let mut message = message_to(addr(b"udp", b"peer-9"));

    node.mark(addr(b"udp", b"self-1"), &mut message);

    assert_eq!(message.path.len(), 1);
    assert_eq!(message.path[0].name.as_deref(), Some("relay"));
    assert_eq!(
        message.path[0].address.as_ref().unwrap(),
        &addr(b"udp", b"self-1")
    );
    assert_eq!(message.path[0].ts, 0);
}

#[test]
fn nameless_marking_still_carries_accepting_address() {
    let node: NodeInstance<NoExecutor> = NodeInstance::new(false, None, Vec::new());
    let mut message = message_to(addr(b"udp", b"peer-9"));

    node.mark(addr(b"ble", b"self-2"), &mut message);

    assert_eq!(message.path.len(), 1);
    assert!(message.path[0].name.is_none());
    assert_eq!(
        message.path[0].address.as_ref().unwrap(),
        &addr(b"ble", b"self-2")
    );
}
