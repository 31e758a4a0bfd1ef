//! The workload generator and its factory: for each account in a batch,
//! publish a package, invoke it, and publish again, in that exact order, with
//! the account's sequence number advancing by one per transaction.
//!
//! The two traits are the capability interface a benchmarking driver runs
//! against: it can swap workload strategies without changing its driving
//! loop. [`PublishPackageCreator`] and [`PublishPackageGenerator`] are the
//! publish-and-use strategy.

use crate::publishing::CatalogInv;
use crate::publishing::Package;
use crate::publishing::PackageHandler;
use crate::rng::std_rng_from_seed;
use crate::shared::arc_clone;
use crate::shared::AddressPool;
use crate::types::is_publish;
use crate::types::is_use;
use crate::types::LocalAccount;
use crate::types::SignedTransaction;
use crate::types::TransactionFactory;
use std::sync::Arc;
use vstd::prelude::*;
use vstd::rwlock::RwLock;

verus! {

/// Why a generation call failed.
#[derive(Clone, Copy, Debug, PartialEq, Eq, Structural)]
pub enum GeneratorError {
    /// The caller broke the input contract: fewer than two transactions per
    /// account were asked for, so the publish-use-publish shape is not
    /// well defined.
    ContractViolation,
}

/// Holds when `txns` is the batch the generator owes one account: exactly `k`
/// transactions from that account, sequence numbers advancing by one from the
/// account's, a publish first and last, the `k - 2` invocations of the
/// published package in between at the generator's gas price, and every
/// transaction stamped with the factory's chain metadata.
pub open spec fn account_batch_ok(
    txns: Seq<SignedTransaction>,
    account: LocalAccount,
    k: int,
    factory: TransactionFactory,
    gas_price: u64,
) -> bool {
    &&& txns.len() == k
    &&& forall|j: int| 0 <= j < k ==> (#[trigger] txns[j]).sender == account.address
    &&& forall|j: int|
        0 <= j < k ==> (#[trigger] txns[j]).sequence_number == account.sequence_number + j
    &&& forall|j: int| 0 <= j < k ==> (#[trigger] txns[j]).chain_id == factory.chain_id
    &&& forall|j: int| 0 <= j < k ==> (#[trigger] txns[j]).max_gas_amount == factory.max_gas_amount
    &&& forall|j: int| 0 <= j < k ==> (#[trigger] txns[j]).expiration_secs == factory.expiration_secs
    &&& is_publish(txns[0])
    &&& is_publish(txns[k - 1])
    &&& txns[0].gas_unit_price == factory.gas_unit_price
    &&& txns[k - 1].gas_unit_price == factory.gas_unit_price
    &&& forall|j: int|
        1 <= j < k - 1 ==> is_use(#[trigger] txns[j]) && txns[j].gas_unit_price == gas_price
}

/// One workload strategy's generator: driven repeatedly with a batch of
/// accounts and a per-account transaction count, it owes the batch's
/// transaction sequence. Every strategy owes the universal part of the
/// contract below; what one account's batch looks like is the strategy's own,
/// stated by its `batch_ok`.
pub trait TransactionGenerator: Sized {
    /// The generator's validity, kept intact by every generation call.
    spec fn wf(&self) -> bool;

    /// What a generation call keeps of the generator itself.
    spec fn preserved(pre: Self, post: Self) -> bool;

    /// The shape this strategy owes one account's batch of `k` transactions.
    spec fn batch_ok(&self, txns: Seq<SignedTransaction>, account: LocalAccount, k: int) -> bool;

    /// Turns a batch of accounts into the ordered sequence of their
    /// transactions: exactly `transactions_per_account` per account, batches
    /// in the order the accounts were given and not interleaved, and each
    /// account's sequence number advanced by exactly that count. Fewer than
    /// two transactions per account is a contract violation: the call fails
    /// and no account is touched.
    fn generate_transactions(
        &mut self,
        accounts: &mut Vec<LocalAccount>,
        transactions_per_account: usize,
    ) -> (r: Result<Vec<SignedTransaction>, GeneratorError>)
        requires
            old(self).wf(),
            old(accounts)@.len() * transactions_per_account <= usize::MAX,
            forall|i: int|
                0 <= i < old(accounts)@.len() ==> (#[trigger] old(
                    accounts,
                )@[i]).sequence_number + transactions_per_account <= u64::MAX,
        ensures
            final(self).wf(),
            Self::preserved(*old(self), *final(self)),
            transactions_per_account < 2 ==> r == Err::<
                Vec<SignedTransaction>,
                GeneratorError,
            >(GeneratorError::ContractViolation) && final(accounts)@ == old(accounts)@,
            transactions_per_account >= 2 ==> r is Ok,
            r matches Ok(txns) ==> ({
                &&& txns@.len() == old(accounts)@.len() * (transactions_per_account as int)
                &&& final(accounts)@.len() == old(accounts)@.len()
                &&& forall|i: int|
                    0 <= i < old(accounts)@.len() ==> old(self).batch_ok(
                        txns@.subrange(
                            i * (transactions_per_account as int),
                            (i + 1) * (transactions_per_account as int),
                        ),
                        old(accounts)@[i],
                        transactions_per_account as int,
                    )
                &&& forall|i: int|
                    0 <= i < old(accounts)@.len() ==> (#[trigger] final(accounts)@[i]).address
                        == old(accounts)@[i].address && final(accounts)@[i].sequence_number == old(
                        accounts,
                    )@[i].sequence_number + transactions_per_account
            }),
    ;
}

/// One workload strategy's factory: built once per benchmark run, asked
/// repeatedly for fresh, independent generators, one per concurrent worker.
pub trait TransactionGeneratorCreator: Sized {
    /// The generator type this factory mints.
    type Gen: TransactionGenerator;

    /// The factory's validity, kept intact by every mint.
    spec fn wf(&self) -> bool;

    /// Whether the factory can mint one more generator.
    spec fn can_mint(&self) -> bool;

    /// How a mint relates the new generator to the factory's state around it.
    spec fn minted(pre: Self, post: Self, g: Self::Gen) -> bool;

    /// Mints a fresh, independently usable generator.
    fn create_transaction_generator(&mut self) -> (g: Self::Gen)
        requires
            old(self).wf(),
            old(self).can_mint(),
        ensures
            final(self).wf(),
            g.wf(),
            Self::minted(*old(self), *final(self), g),
    ;
}

/// The publish-and-use workload generator: owns its randomness stream, shares
/// the package catalog and the address pool with its siblings.
pub struct PublishPackageGenerator {
    /// This generator's private randomness stream; never shared.
    pub rng: rand::rngs::StdRng,
    /// Which mint of the factory this generator is: the nonce its stream was
    /// derived with, distinct for every generator of one factory.
    pub stream_id: u64,
    /// The package catalog, shared with the factory and its other generators.
    pub package_handler: Arc<RwLock<PackageHandler, CatalogInv>>,
    /// The chain metadata every transaction is stamped with.
    pub txn_factory: TransactionFactory,
    /// The shared pool of account addresses.
    pub all_addresses: AddressPool,
    /// The gas price the use transactions are built with.
    pub gas_price: u64,
}

impl PublishPackageGenerator {
    pub fn new(
        rng: rand::rngs::StdRng,
        stream_id: u64,
        package_handler: Arc<RwLock<PackageHandler, CatalogInv>>,
        txn_factory: TransactionFactory,
        all_addresses: AddressPool,
        gas_price: u64,
    ) -> (r: Self)
        requires
            package_handler.pred() == (CatalogInv {  }),
        ensures
            r == (PublishPackageGenerator {
                rng,
                stream_id,
                package_handler,
                txn_factory,
                all_addresses,
                gas_price,
            }),
            r.wf(),
    {
        PublishPackageGenerator { rng, stream_id, package_handler, txn_factory, all_addresses, gas_price }
    }

    /// Picks a package variant for the account from the shared catalog,
    /// holding the exclusive lock only for the pick itself.
    fn pick_package(&mut self, account: &LocalAccount) -> (p: Package)
        requires
            old(self).wf(),
        ensures
            final(self).wf(),
            p.owner == account.address,
            final(self).stream_id == old(self).stream_id,
            final(self).package_handler == old(self).package_handler,
            final(self).txn_factory == old(self).txn_factory,
            final(self).all_addresses == old(self).all_addresses,
            final(self).gas_price == old(self).gas_price,
    {
        let (mut catalog, write_handle) = self.package_handler.acquire_write();
        let p = catalog.pick_package(&mut self.rng, account);
        write_handle.release_write(catalog);
        p
    }

    /// Builds one account's batch: publish, `k - 2` uses of the published
    /// package, then a second publish, advancing the account's sequence
    /// number with every transaction.
    fn generate_for_account(&mut self, account: &mut LocalAccount, transactions_per_account: usize)
        -> (txns: Vec<SignedTransaction>)
        requires
            old(self).wf(),
            transactions_per_account >= 2,
            old(account).sequence_number + transactions_per_account <= u64::MAX,
        ensures
            final(self).wf(),
            account_batch_ok(
                txns@,
                *old(account),
                transactions_per_account as int,
                old(self).txn_factory,
                old(self).gas_price,
            ),
            final(account).address == old(account).address,
            final(account).sequence_number == old(account).sequence_number
                + transactions_per_account,
            final(self).stream_id == old(self).stream_id,
            final(self).package_handler == old(self).package_handler,
            final(self).txn_factory == old(self).txn_factory,
            final(self).all_addresses == old(self).all_addresses,
            final(self).gas_price == old(self).gas_price,
    {
        let mut txns: Vec<SignedTransaction> = Vec::with_capacity(transactions_per_account);
        // First publish the package, then use it.
        let package = self.pick_package(account);
        let t = package.publish_transaction(account, &self.txn_factory);
        txns.push(t);
        let mut j: usize = 1;
        while j < transactions_per_account - 1
            invariant
                self.wf(),
                transactions_per_account >= 2,
                1 <= j <= transactions_per_account - 1,
                old(account).sequence_number + transactions_per_account <= u64::MAX,
                txns@.len() == j,
                account.address == old(account).address,
                account.sequence_number == old(account).sequence_number + j,
                package.owner == old(account).address,
                is_publish(txns@[0]),
                txns@[0].gas_unit_price == old(self).txn_factory.gas_unit_price,
                forall|m: int| 0 <= m < j ==> (#[trigger] txns@[m]).sender == old(account).address,
                forall|m: int|
                    0 <= m < j ==> (#[trigger] txns@[m]).sequence_number == old(
                        account,
                    ).sequence_number + m,
                forall|m: int|
                    0 <= m < j ==> (#[trigger] txns@[m]).chain_id == old(self).txn_factory.chain_id,
                forall|m: int|
                    0 <= m < j ==> (#[trigger] txns@[m]).max_gas_amount == old(
                        self,
                    ).txn_factory.max_gas_amount,
                forall|m: int|
                    0 <= m < j ==> (#[trigger] txns@[m]).expiration_secs == old(
                        self,
                    ).txn_factory.expiration_secs,
                forall|m: int|
                    1 <= m < j ==> is_use(#[trigger] txns@[m]) && txns@[m].gas_unit_price == old(
                        self,
                    ).gas_price,
                self.stream_id == old(self).stream_id,
                self.package_handler == old(self).package_handler,
                self.txn_factory == old(self).txn_factory,
                self.all_addresses == old(self).all_addresses,
                self.gas_price == old(self).gas_price,
            decreases transactions_per_account - 1 - j,
        {
            let t = package.use_transaction(
                &mut self.rng,
                account,
                &self.txn_factory,
                self.gas_price,
            );
            txns.push(t);
            j = j + 1;
        }
        // Publish a second package variant, picked afresh.
        let package = self.pick_package(account);
        let t = package.publish_transaction(account, &self.txn_factory);
        txns.push(t);
        txns
    }
}

impl TransactionGenerator for PublishPackageGenerator {
    /// A generator is well formed when its catalog lock maintains the
    /// catalog's own invariant, so a pick can always be served.
    open spec fn wf(&self) -> bool {
        self.package_handler.pred() == (CatalogInv {  })
    }

    /// A generation call may advance the randomness stream and nothing else.
    open spec fn preserved(pre: Self, post: Self) -> bool {
        &&& post.stream_id == pre.stream_id
        &&& post.package_handler == pre.package_handler
        &&& post.txn_factory == pre.txn_factory
        &&& post.all_addresses == pre.all_addresses
        &&& post.gas_price == pre.gas_price
    }

    /// One account's batch: publish, use, ..., use, publish, stamped with the
    /// generator's chain metadata and gas price.
    open spec fn batch_ok(&self, txns: Seq<SignedTransaction>, account: LocalAccount, k: int) -> bool {
        account_batch_ok(txns, account, k, self.txn_factory, self.gas_price)
    }

    fn generate_transactions(
        &mut self,
        accounts: &mut Vec<LocalAccount>,
        transactions_per_account: usize,
    ) -> (r: Result<Vec<SignedTransaction>, GeneratorError>) {
        if transactions_per_account < 2 {
            return Err(GeneratorError::ContractViolation);
        }
        let n: usize = accounts.len();
        let mut requests: Vec<SignedTransaction> = Vec::with_capacity(
            n * transactions_per_account,
        );
        let ghost k: int = transactions_per_account as int;
        let mut i: usize = 0;
        while i < n
            invariant
                self.wf(),
                transactions_per_account >= 2,
                i <= n,
                n == accounts@.len(),
                n == old(accounts)@.len(),
                n * k <= usize::MAX,
                k == transactions_per_account as int,
                forall|m: int|
                    0 <= m < n ==> (#[trigger] old(accounts)@[m]).sequence_number
                        + transactions_per_account <= u64::MAX,
                requests@.len() == i * k,
                forall|m: int|
                    0 <= m < i ==> account_batch_ok(
                        requests@.subrange(m * k, (m + 1) * k),
                        old(accounts)@[m],
                        k,
                        old(self).txn_factory,
                        old(self).gas_price,
                    ),
                forall|m: int|
                    0 <= m < i ==> (#[trigger] accounts@[m]).address == old(
                        accounts,
                    )@[m].address && accounts@[m].sequence_number == old(
                        accounts,
                    )@[m].sequence_number + transactions_per_account,
                forall|m: int| i <= m < n ==> accounts@[m] == old(accounts)@[m],
                self.stream_id == old(self).stream_id,
                self.package_handler == old(self).package_handler,
                self.txn_factory == old(self).txn_factory,
                self.all_addresses == old(self).all_addresses,
                self.gas_price == old(self).gas_price,
            decreases n - i,
        {
            let mut acc = accounts[i];
            let mut batch = self.generate_for_account(&mut acc, transactions_per_account);
            let slot = &mut accounts[i];
            *slot = acc;
            let ghost prev_requests = requests@;
            let ghost batch_view = batch@;
            requests.append(&mut batch);
            proof {
                let ii = i as int;
                assert((ii + 1) * k == ii * k + k) by (nonlinear_arith);
                assert forall|m: int|
                    0 <= m < ii + 1 implies account_batch_ok(
                    requests@.subrange(m * k, (m + 1) * k),
                    old(accounts)@[m],
                    k,
                    old(self).txn_factory,
                    old(self).gas_price,
                ) by {
                    assert(m * k >= 0 && (m + 1) * k == m * k + k) by (nonlinear_arith)
                        requires
                            m >= 0,
                            k >= 2,
                    ;
                    if m < ii {
                        assert((m + 1) * k <= ii * k) by (nonlinear_arith)
                            requires
                                m + 1 <= ii,
                                k >= 0,
                        ;
                        assert(requests@.subrange(m * k, (m + 1) * k) =~= prev_requests.subrange(
                            m * k,
                            (m + 1) * k,
                        ));
                    } else {
                        assert(requests@.subrange(ii * k, (ii + 1) * k) =~= batch_view);
                    }
                }
            }
            i = i + 1;
        }
        Ok(requests)
    }
}

/// The publish-and-use generator factory: built once per benchmark run, it
/// mints independent workload generators, one per concurrent worker, each
/// with its own randomness stream derived from the factory's seed and a fresh
/// nonce.
pub struct PublishPackageCreator {
    /// The parent seed every generator's stream is derived from.
    pub base_seed: u64,
    /// How many generators this factory has minted: the next mint's nonce.
    pub streams_created: u64,
    /// The chain metadata every transaction is stamped with.
    pub txn_factory: TransactionFactory,
    /// The package catalog, shared with every minted generator.
    pub package_handler: Arc<RwLock<PackageHandler, CatalogInv>>,
    /// The shared pool of account addresses.
    pub all_addresses: AddressPool,
    /// The gas price the use transactions are built with.
    pub gas_price: u64,
}

impl PublishPackageCreator {
    pub fn new(
        base_seed: u64,
        txn_factory: TransactionFactory,
        all_addresses: AddressPool,
        gas_price: u64,
    ) -> (r: Self)
        ensures
            r.wf(),
            r.base_seed == base_seed,
            r.streams_created == 0,
            r.txn_factory == txn_factory,
            r.all_addresses == all_addresses,
            r.gas_price == gas_price,
    {
        PublishPackageCreator {
            base_seed,
            streams_created: 0,
            txn_factory,
            package_handler: Arc::new(RwLock::new(PackageHandler::new(), Ghost(CatalogInv {}))),
            all_addresses,
            gas_price,
        }
    }
}

impl TransactionGeneratorCreator for PublishPackageCreator {
    type Gen = PublishPackageGenerator;

    /// A factory is well formed when its catalog lock maintains the catalog's
    /// own invariant.
    open spec fn wf(&self) -> bool {
        self.package_handler.pred() == (CatalogInv {  })
    }

    /// The factory runs out of fresh nonces only at the machine limit.
    open spec fn can_mint(&self) -> bool {
        self.streams_created < u64::MAX
    }

    /// A mint hands the new generator the mint's nonce as its stream
    /// identity, shares catalog, address pool, chain metadata and gas price
    /// with it, and moves the factory to the next nonce.
    open spec fn minted(pre: Self, post: Self, g: PublishPackageGenerator) -> bool {
        &&& g.stream_id == pre.streams_created
        &&& post.streams_created == pre.streams_created + 1
        &&& post.base_seed == pre.base_seed
        &&& post.txn_factory == pre.txn_factory
        &&& post.package_handler == pre.package_handler
        &&& post.all_addresses == pre.all_addresses
        &&& post.gas_price == pre.gas_price
        &&& g.package_handler == pre.package_handler
        &&& g.txn_factory == pre.txn_factory
        &&& g.all_addresses == pre.all_addresses
        &&& g.gas_price == pre.gas_price
    }

    /// Mints a fresh generator: its randomness stream is seeded from the
    /// factory's seed and the mint's nonce, so no two generators of one
    /// factory share a stream.
    fn create_transaction_generator(&mut self) -> (g: PublishPackageGenerator) {
        let stream_id: u64 = self.streams_created;
        let rng = std_rng_from_seed(self.base_seed ^ stream_id);
        self.streams_created = stream_id + 1;
        PublishPackageGenerator::new(
            rng,
            stream_id,
            arc_clone(&self.package_handler),
            self.txn_factory,
            arc_clone(&self.all_addresses),
            self.gas_price,
        )
    }
}

/// The seed a generator's randomness stream is derived from: the factory's
/// parent seed combined with the mint's nonce.
pub open spec fn derived_seed(base_seed: u64, stream_id: u64) -> u64 {
    base_seed ^ stream_id
}

/// Two generators minted one after the other by the same factory carry
/// distinct stream nonces, and their streams were derived from distinct
/// seeds. Each generator owns its stream by value, so no two generators ever
/// read or advance the same stream. The hypotheses are exactly what two
/// successive calls of `create_transaction_generator` ensure.
pub proof fn lemma_minted_generators_independent(
    f0: PublishPackageCreator,
    f1: PublishPackageCreator,
    f2: PublishPackageCreator,
    g1: PublishPackageGenerator,
    g2: PublishPackageGenerator,
)
    requires
        PublishPackageCreator::minted(f0, f1, g1),
        PublishPackageCreator::minted(f1, f2, g2),
    ensures
        g1.stream_id != g2.stream_id,
        derived_seed(f0.base_seed, g1.stream_id) != derived_seed(f0.base_seed, g2.stream_id),
{
    let b = f0.base_seed;
    let s1 = g1.stream_id;
    let s2 = g2.stream_id;
    assert(s1 != s2 ==> (b ^ s1) != (b ^ s2)) by (bit_vector);
}

} // verus!
