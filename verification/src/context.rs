//! The context in which a transaction executes, and the interface that
//! transactions implement.
use vstd::prelude::*;

use crate::error::ExecutionResult;

verus! {

/// A 32-byte hash, such as that of a transaction message.
pub type Hash = [u8; 32];

/// A 32-byte public key, such as that of a transaction's author.
pub type PublicKey = [u8; 32];

/// Wrapper around a fork of the blockchain state (of storage type `F`) and
/// the identity of the transaction being executed: the service that owns it,
/// its message hash and its author.
pub struct TransactionContext<'a, F> {
    fork: &'a mut F,
    service_id: u16,
    tx_hash: Hash,
    author: PublicKey,
}

impl<'a, F> TransactionContext<'a, F> {
    /// The current state of the fork.
    pub closed spec fn fork_state(&self) -> F {
        *self.fork
    }

    /// The id of the service that owns the transaction.
    pub closed spec fn spec_service_id(&self) -> u16 {
        self.service_id
    }

    /// The hash of the transaction message.
    pub closed spec fn spec_tx_hash(&self) -> Hash {
        self.tx_hash
    }

    /// The public key of the transaction's author.
    pub closed spec fn spec_author(&self) -> PublicKey {
        self.author
    }

    /// Creates the context of a transaction, from a fork of the blockchain
    /// state and the service id, hash and author of the transaction message.
    pub fn new(fork: &'a mut F, service_id: u16, tx_hash: Hash, author: PublicKey) -> (c: Self)
        ensures
            c.fork_state() == *old(fork),
            c.spec_service_id() == service_id,
            c.spec_tx_hash() == tx_hash,
            c.spec_author() == author,
    {
        TransactionContext { fork, service_id, tx_hash, author }
    }

    /// Returns fork of current blockchain state.
    pub fn fork(&mut self) -> (f: &mut F)
        ensures
            *f == old(self).fork_state(),
            final(self).fork_state() == *final(f),
            final(self).spec_service_id() == old(self).spec_service_id(),
            final(self).spec_tx_hash() == old(self).spec_tx_hash(),
            final(self).spec_author() == old(self).spec_author(),
    {
        self.fork
    }

    /// Returns id of service that own this transaction.
    pub fn service_id(&self) -> (id: u16)
        ensures
            id == self.spec_service_id(),
    {
        self.service_id
    }

    /// Returns transaction author public key.
    pub fn author(&self) -> (k: PublicKey)
        ensures
            k == self.spec_author(),
    {
        self.author
    }

    /// Returns current transaction message hash.
    /// This hash could be used to link some data in storage for external usage.
    pub fn tx_hash(&self) -> (h: Hash)
        ensures
            h == self.spec_tx_hash(),
    {
        self.tx_hash
    }
}

/// Transaction processing functionality, over storage of type `F`, allowing
/// to apply authenticated, atomic, constraint-preserving groups of changes to
/// the blockchain storage. Services implement it for their transactions.
pub trait Transaction<F> {
    /// Verifies the internal consistency of the transaction, without access to
    /// the blockchain state. A transaction that fails it is never included
    /// into the blockchain. By default every transaction is consistent.
    fn verify(&self) -> (consistent: bool)
        default_ensures
            consistent,
    {
        true
    }

    /// Receives a `TransactionContext` with a fork of the current blockchain
    /// state, and can modify it depending on the contents of the transaction.
    /// Changes are discarded if it returns `Err`.
    fn execute(&self, context: TransactionContext<F>) -> ExecutionResult;
}

} // verus!
