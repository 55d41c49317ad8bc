//! The protocol-executor abstraction and its error-erasure layer.
//!
//! A transport plugin implements [`ProtocolExecutor`] with its own error
//! type. The node stores executors behind the uniform [`DynProtocolExecutor`]
//! interface, whose error is the erased [`ErasedError`]; every concrete
//! executor is adapted to that interface automatically, and the adaptation
//! preserves the textual description of the transport's error.

use vstd::prelude::*;

use crate::address::Identity;
use crate::message::Message;
use crate::message::MessageView;

verus! {

/// Delivery state of a message as reported by a status query. A snapshot
/// value, not an internally tracked state machine.
#[derive(Clone, Copy, Debug, PartialEq, Eq)]
pub enum MessageStatus {
    Sended,
    Received,
    Unreachable,
    SendError,
}

/// The contract a transport plugin must honor: its error values carry a
/// human-readable description, and handing one out does not change it.
pub trait ErrorDescription {
    /// The description as a mathematical value. An implementation that wants
    /// its description relied on overrides this; by default it is left
    /// unspecified.
    open spec fn spec_description(&self) -> Seq<char> {
        arbitrary()
    }

    /// The human-readable description of this error.
    fn description(&self) -> (r: String)
        ensures
            r@ == self.spec_description(),
    ;
}

/// A transport error with its concrete type erased: only the textual
/// description of the original error is kept, so heterogeneously-typed
/// executors can report failures uniformly.
pub struct ErasedError {
    description: String,
}

impl View for ErasedError {
    type V = Seq<char>;

    closed spec fn view(&self) -> Seq<char> {
        self.description@
    }
}

impl ErasedError {
    /// Wraps a description as an erased error.
    pub fn new(description: String) -> (r: Self)
        ensures
            r@ == description@,
    {
        ErasedError { description }
    }

    /// Erases a concrete transport error, keeping exactly its description.
    pub fn erase<E: ErrorDescription>(error: E) -> (r: Self)
        ensures
            r@ == error.spec_description(),
    {
        ErasedError { description: error.description() }
    }

    /// The description of the erased error.
    pub fn description(&self) -> (r: &String)
        ensures
            r@ == self@,
    {
        &self.description
    }
}

/// The statically typed contract a transport plugin implements for exactly
/// one protocol.
///
/// Delivery is inherently nondeterministic (it crosses a transport boundary),
/// so the contract does not promise success: each implementation fixes, with
/// `send_admits` and `status_admits`, the set of outcomes one of its calls
/// may have, and the methods promise to stay inside that set. The erasure
/// layer and the node's dispatch then propagate those outcome sets to their
/// callers.
pub trait ProtocolExecutor {
    /// The transport-specific error kind.
    type Error: ErrorDescription;

    /// Which outcomes delivering `message` to `remote` may have: `None` for
    /// success, `Some(d)` for failure with description `d`.
    /// A transport that does not say more admits every outcome.
    open spec fn send_admits(&self, remote: Seq<u8>, message: MessageView, outcome: Option<
        Seq<char>,
    >) -> bool {
        true
    }

    /// Which outcomes a status query for `message` at `remote` may have.
    /// A transport that does not say more admits every outcome.
    open spec fn status_admits(&self, remote: Seq<u8>, message: MessageView, outcome: Result<
        MessageStatus,
        Seq<char>,
    >) -> bool {
        true
    }

    /// Delivers `message`, consuming it, to `remote` under this executor's
    /// protocol.
    fn send(&self, remote: &Identity, message: Message) -> (r: Result<(), Self::Error>)
        ensures
            self.send_admits(
                remote@,
                message@,
                match r {
                    Ok(_) => None,
                    Err(ref e) => Some(e.spec_description()),
                },
            ),
    ;

    /// Queries the delivery status of a previously sent message. How the
    /// message is correlated (for instance by `unique_id`) is left to the
    /// transport.
    fn get_status(&self, remote: &Identity, message: Message) -> (r: Result<
        MessageStatus,
        Self::Error,
    >)
        ensures
            self.status_admits(
                remote@,
                message@,
                match r {
                    Ok(s) => Ok(s),
                    Err(ref e) => Err(e.spec_description()),
                },
            ),
    ;
}

/// The type-erased counterpart of [`ProtocolExecutor`]: the same `send`
/// operation, but with a uniform error type, so that differently-typed
/// executors can be stored behind one key and invoked uniformly.
///
/// Status queries are intentionally not part of the erased interface; they
/// are assumed to go through transport-specific paths.
pub trait DynProtocolExecutor {
    /// Which outcomes delivering `message` to `remote` may have: `None` for
    /// success, `Some(d)` for failure with description `d`.
    /// An executor that does not say more admits every outcome.
    open spec fn dyn_send_admits(&self, remote: Seq<u8>, message: MessageView, outcome: Option<
        Seq<char>,
    >) -> bool {
        true
    }

    /// Delivers `message`, consuming it, to `remote`, reporting failure as an
    /// erased error.
    fn send(&self, remote: &Identity, message: Message) -> (r: Result<(), ErasedError>)
        ensures
            self.dyn_send_admits(
                remote@,
                message@,
                match r {
                    Ok(_) => None,
                    Err(ref e) => Some(e@),
                },
            ),
    ;
}

/// Every typed executor is usable through the erased interface: the adapter
/// erases the error, preserving its description, and admits exactly the
/// outcomes the typed executor admits.
impl<T: ProtocolExecutor> DynProtocolExecutor for T {
    open spec fn dyn_send_admits(&self, remote: Seq<u8>, message: MessageView, outcome: Option<
        Seq<char>,
    >) -> bool {
        self.send_admits(remote, message, outcome)
    }

    fn send(&self, remote: &Identity, message: Message) -> (r: Result<(), ErasedError>) {
        match ProtocolExecutor::send(self, remote, message) {
            Ok(()) => Ok(()),
            Err(e) => Err(ErasedError::erase(e)),
        }
    }
}

} // verus!
