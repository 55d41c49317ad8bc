//! Routing core of a multi-protocol message-forwarding node.
//!
//! The crate defines the address/identity/protocol data model, the message
//! envelope with its append-only hop path, the pluggable protocol-executor
//! abstraction with its error-erasure layer, the contract for a next-hop
//! resolution backend, and the node's dispatch logic.

mod address;
mod backend;
mod executor;
mod message;
mod node;

pub use address::Address;
pub use address::AddressView;
pub use address::Identity;
pub use address::Node;
pub use address::Protocol;
pub use address::lemma_address_eq;
pub use backend::DataBackend;
pub use backend::lemma_backend_set_then_get;
pub use executor::DynProtocolExecutor;
pub use executor::ErasedError;
pub use executor::ErrorDescription;
pub use executor::MessageStatus;
pub use executor::ProtocolExecutor;
pub use message::Message;
pub use message::MessageView;
pub use message::PathNode;
pub use message::PathNodeView;
pub use message::Sender;
pub use message::lemma_path_append_preserves_entries;
pub use node::NodeInstance;
pub use node::SendError;
pub use node::lemma_anonymous_mark;
pub use node::lemma_named_mark;
