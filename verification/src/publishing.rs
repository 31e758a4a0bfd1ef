//! The package catalog and the per-pick package handle: picking a package
//! variant for an account, and building the publish and use transactions for
//! it.

use crate::rng::rng_below;
use crate::rng::rng_next_u64;
use crate::types::AccountAddress;
use crate::types::LocalAccount;
use crate::types::SignedTransaction;
use crate::types::TransactionFactory;
use crate::types::TransactionPayload;
use std::sync::Arc;
use vstd::prelude::*;
use vstd::rwlock::RwLock;
use vstd::rwlock::RwLockPredicate;

verus! {

/// The package catalog: the package-template variants available for
/// publishing, with the bookkeeping of how many picks it has served. Shared
/// by all generators of one factory; mutated only under exclusive access, by
/// [`PackageHandler::pick_package`].
pub struct PackageHandler {
    /// How many distinct package variants the catalog can hand out.
    pub n_variants: u64,
    /// How many picks the catalog has served, wrapping at the machine limit.
    pub picks_served: u64,
}

impl PackageHandler {
    /// A catalog is well formed when it has at least one variant to offer, so
    /// every pick can be served.
    pub open spec fn wf(&self) -> bool {
        self.n_variants >= 1
    }

    /// A fresh catalog holding the built-in package template.
    pub fn new() -> (r: PackageHandler)
        ensures
            r.wf(),
            r.n_variants == 1,
            r.picks_served == 0,
    {
        PackageHandler { n_variants: 1, picks_served: 0 }
    }

    /// Picks a package variant for the account, using the caller's randomness
    /// stream; the only mutation point of the catalog. The returned handle is
    /// tied to the account's address and valid for that account's current
    /// batch of transactions.
    pub fn pick_package(&mut self, rng: &mut rand::rngs::StdRng, account: &LocalAccount) -> (p:
        Package)
        requires
            old(self).wf(),
        ensures
            final(self).wf(),
            final(self).n_variants == old(self).n_variants,
            final(self).picks_served == if old(self).picks_served == u64::MAX {
                0
            } else {
                (old(self).picks_served + 1) as u64
            },
            p.variant < final(self).n_variants,
            p.owner == account.address,
    {
        let variant: u64 = rng_below(rng, self.n_variants);
        self.picks_served = if self.picks_served == u64::MAX {
            0
        } else {
            self.picks_served + 1
        };
        Package { variant, owner: account.address }
    }
}

/// The lock predicate on the shared catalog: whatever is stored stays well
/// formed, so every generator's pick can be served.
pub struct CatalogInv {}

impl RwLockPredicate<PackageHandler> for CatalogInv {
    open spec fn inv(self, v: PackageHandler) -> bool {
        v.wf()
    }
}

/// The catalog behind its lock, shared by the factory and every generator it
/// mints.
pub type SharedCatalog = Arc<RwLock<PackageHandler, CatalogInv>>;

/// Builds a fresh shared catalog.
pub fn new_shared_catalog() -> (r: SharedCatalog)
    ensures
        r.pred() == (CatalogInv {  }),
{
    Arc::new(RwLock::new(PackageHandler::new(), Ghost(CatalogInv {})))
}

/// A per-pick handle on a package variant, valid for one account's current
/// batch: it builds the publish transaction and the use transactions for
/// that account.
#[derive(Clone, Copy, Debug, PartialEq, Eq, Structural)]
pub struct Package {
    /// Which catalog variant this handle stands for.
    pub variant: u64,
    /// The account the variant was rewritten for.
    pub owner: AccountAddress,
}

impl Package {
    /// Builds the transaction that deploys this package variant to the
    /// account's on-chain storage, stamped with the factory's chain metadata
    /// and gas price, and advances the account's sequence number by one.
    pub fn publish_transaction(&self, account: &mut LocalAccount, txn_factory: &TransactionFactory)
        -> (t: SignedTransaction)
        requires
            old(account).sequence_number < u64::MAX,
            self.owner == old(account).address,
        ensures
            t == (SignedTransaction {
                sender: old(account).address,
                sequence_number: old(account).sequence_number,
                chain_id: txn_factory.chain_id,
                max_gas_amount: txn_factory.max_gas_amount,
                gas_unit_price: txn_factory.gas_unit_price,
                expiration_secs: txn_factory.expiration_secs,
                payload: TransactionPayload::Publish { package_variant: self.variant },
            }),
            final(account).address == old(account).address,
            final(account).sequence_number == old(account).sequence_number + 1,
    {
        let t = SignedTransaction {
            sender: account.address,
            sequence_number: account.sequence_number,
            chain_id: txn_factory.chain_id,
            max_gas_amount: txn_factory.max_gas_amount,
            gas_unit_price: txn_factory.gas_unit_price,
            expiration_secs: txn_factory.expiration_secs,
            payload: TransactionPayload::Publish { package_variant: self.variant },
        };
        account.sequence_number = account.sequence_number + 1;
        t
    }

    /// Builds a transaction that invokes a function of this package variant,
    /// picked with the caller's randomness stream, at the caller's gas price,
    /// and advances the account's sequence number by one.
    pub fn use_transaction(
        &self,
        rng: &mut rand::rngs::StdRng,
        account: &mut LocalAccount,
        txn_factory: &TransactionFactory,
        gas_price: u64,
    ) -> (t: SignedTransaction)
        requires
            old(account).sequence_number < u64::MAX,
            self.owner == old(account).address,
        ensures
            t.sender == old(account).address,
            t.sequence_number == old(account).sequence_number,
            t.chain_id == txn_factory.chain_id,
            t.max_gas_amount == txn_factory.max_gas_amount,
            t.gas_unit_price == gas_price,
            t.expiration_secs == txn_factory.expiration_secs,
            t.payload matches TransactionPayload::Use { package_variant, .. } && package_variant
                == self.variant,
            final(account).address == old(account).address,
            final(account).sequence_number == old(account).sequence_number + 1,
    {
        let function_index: u64 = rng_next_u64(rng);
        let t = SignedTransaction {
            sender: account.address,
            sequence_number: account.sequence_number,
            chain_id: txn_factory.chain_id,
            max_gas_amount: txn_factory.max_gas_amount,
            gas_unit_price: gas_price,
            expiration_secs: txn_factory.expiration_secs,
            payload: TransactionPayload::Use { package_variant: self.variant, function_index },
        };
        account.sequence_number = account.sequence_number + 1;
        t
    }
}

} // verus!
