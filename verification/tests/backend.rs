use anytape::Address;
use anytape::DataBackend;
use anytape::Identity;
use anytape::Protocol;

fn addr(protocol: &[u8], identity: &[u8]) -> Address {
    Address {
        protocol: Protocol::new(protocol.to_vec()),
        identity: Identity::new(identity.to_vec()),
    }
}

/// An in-memory next-hop store exercising the `DataBackend` contract.
struct MemoryBackend {
    entries: Vec<(Address, Address)>,
}

impl MemoryBackend {
    fn new() -> Self {
        MemoryBackend { entries: Vec::new() }
    }

    fn position(&self, addr: &Address) -> Option<usize> {
        self.entries.iter().position(|(key, _)| key == addr)
    }
}

impl DataBackend for MemoryBackend {
    fn get_next(&self, addr: &Address) -> Option<Address> {
        self.position(addr).map(|i| self.entries[i].1.clone())
    }

    fn set_next(&mut self, addr: &Address, next: Option<&Address>) -> Option<Address> {
        let previous = match self.position(addr) {
            Some(i) => Some(self.entries.remove(i).1),
            None => None,
        };
        if let Some(next) = next {
            self.entries.push((addr.clone(), next.clone()));
        }
        previous
    }
}

#[test]
fn set_then_get_returns_the_stored_hop() {
    let mut backend = MemoryBackend::new();
    let a = addr(b"udp", b"peer-1");
    let b = addr(b"ble", b"relay-7");

    assert_eq!(backend.set_next(&a, Some(&b)), None);
    assert_eq!(backend.get_next(&a), Some(b.clone()));
}

#[test]
fn clearing_makes_the_address_unresolved() {
    let mut backend = MemoryBackend::new();
    let a = addr(b"udp", b"peer-1");
    let b = addr(b"ble", b"relay-7");

    backend.set_next(&a, Some(&b));
    assert_eq!(backend.set_next(&a, None), Some(b));
    assert_eq!(backend.get_next(&a), None);
}

#[test]
fn set_next_returns_the_immediately_prior_value() {
    let mut backend = MemoryBackend::new();
    let a = addr(b"udp", b"peer-1");
    let first = addr(b"ble", b"relay-7");
    let second = addr(b"udp", b"relay-8");

    assert_eq!(backend.set_next(&a, Some(&first)), None);
    assert_eq!(backend.set_next(&a, Some(&second)), Some(first));
    assert_eq!(backend.get_next(&a), Some(second.clone()));
    assert_eq!(backend.set_next(&a, None), Some(second));
    assert_eq!(backend.set_next(&a, None), None);
}

#[test]
fn other_addresses_are_untouched() {
    let mut backend = MemoryBackend::new();
    let a = addr(b"udp", b"peer-1");
    let other = addr(b"udp", b"peer-2");
    let b = addr(b"ble", b"relay-7");
    let c = addr(b"ble", b"relay-9");

    backend.set_next(&a, Some(&b));
    backend.set_next(&other, Some(&c));
    backend.set_next(&a, None);

    assert_eq!(backend.get_next(&other), Some(c));
    assert_eq!(backend.get_next(&a), None);
}
