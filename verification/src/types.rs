//! The plain values that flow through the workload generator: account
//! addresses, accounts with their sequence numbers, the transaction-building
//! configuration, and the signed transactions a generator returns.

use vstd::prelude::*;

verus! {

/// The on-chain address of an account.
#[derive(Clone, Copy, Debug, PartialEq, Eq, Structural, Hash)]
pub struct AccountAddress {
    pub value: u64,
}

impl AccountAddress {
    pub fn new(value: u64) -> (r: AccountAddress)
        ensures
            r.value == value,
    {
        AccountAddress { value }
    }
}

/// An account that can sign transactions. Its sequence number orders that
/// account's transactions and advances by one with every transaction built
/// for it.
#[derive(Clone, Copy, Debug, PartialEq, Eq, Structural)]
pub struct LocalAccount {
    pub address: AccountAddress,
    pub sequence_number: u64,
}

impl LocalAccount {
    pub fn new(address: AccountAddress, sequence_number: u64) -> (r: LocalAccount)
        ensures
            r.address == address,
            r.sequence_number == sequence_number,
    {
        LocalAccount { address, sequence_number }
    }
}

/// The transaction-building configuration: the chain metadata every
/// transaction is stamped with, immutable for the whole run.
#[derive(Clone, Copy, Debug, PartialEq, Eq, Structural)]
pub struct TransactionFactory {
    pub chain_id: u8,
    pub max_gas_amount: u64,
    pub gas_unit_price: u64,
    pub expiration_secs: u64,
}

impl TransactionFactory {
    pub fn new(chain_id: u8, max_gas_amount: u64, gas_unit_price: u64, expiration_secs: u64) -> (r:
        TransactionFactory)
        ensures
            r == (TransactionFactory { chain_id, max_gas_amount, gas_unit_price, expiration_secs }),
    {
        TransactionFactory { chain_id, max_gas_amount, gas_unit_price, expiration_secs }
    }
}

/// What a transaction does: deploy a package variant to the sender's on-chain
/// storage, or call a function exposed by an already-published variant.
#[derive(Clone, Copy, Debug, PartialEq, Eq, Structural)]
pub enum TransactionPayload {
    Publish { package_variant: u64 },
    Use { package_variant: u64, function_index: u64 },
}

/// An immutable output value: a transaction ready for submission.
#[derive(Clone, Copy, Debug, PartialEq, Eq, Structural)]
pub struct SignedTransaction {
    pub sender: AccountAddress,
    pub sequence_number: u64,
    pub chain_id: u8,
    pub max_gas_amount: u64,
    pub gas_unit_price: u64,
    pub expiration_secs: u64,
    pub payload: TransactionPayload,
}

/// Holds when a transaction publishes a package.
pub open spec fn is_publish(t: SignedTransaction) -> bool {
    t.payload is Publish
}

/// Holds when a transaction invokes a function of a published package.
pub open spec fn is_use(t: SignedTransaction) -> bool {
    t.payload is Use
}

impl SignedTransaction {
    /// Tells a caller outside the proof whether this transaction publishes a
    /// package.
    pub fn is_publish_transaction(&self) -> (r: bool)
        ensures
            r == is_publish(*self),
    {
        match self.payload {
            TransactionPayload::Publish { .. } => true,
            TransactionPayload::Use { .. } => false,
        }
    }

    /// Tells a caller outside the proof whether this transaction invokes a
    /// published package.
    pub fn is_use_transaction(&self) -> (r: bool)
        ensures
            r == is_use(*self),
    {
        match self.payload {
            TransactionPayload::Publish { .. } => false,
            TransactionPayload::Use { .. } => true,
        }
    }
}

} // verus!
