//! The state one generator factory shares with every generator it mints: the
//! account-address pool, and the handle plumbing for sharing it.

use crate::types::AccountAddress;
use std::sync::Arc;
use vstd::prelude::*;
use vstd::rwlock::RwLock;
use vstd::rwlock::RwLockPredicate;

verus! {

/// The lock predicate on the shared account-address pool: any ordered list of
/// addresses may be stored; readers run concurrently, an append excludes
/// them.
pub struct AddressPoolInv {}

impl RwLockPredicate<Vec<AccountAddress>> for AddressPoolInv {
    open spec fn inv(self, v: Vec<AccountAddress>) -> bool {
        true
    }
}

/// The ordered pool of account addresses, shared by the factory and every
/// generator it mints, for the lifetime of the benchmark run.
pub type AddressPool = Arc<RwLock<Vec<AccountAddress>, AddressPoolInv>>;

/// Builds a shared address pool holding the given addresses.
pub fn new_address_pool(addresses: Vec<AccountAddress>) -> (r: AddressPool)
    ensures
        r.pred() == (AddressPoolInv {  }),
{
    Arc::new(RwLock::new(addresses, Ghost(AddressPoolInv {})))
}

/// Relies on `Arc::clone`: a new handle to the same shared value.
#[verifier::external_body]
pub(crate) fn arc_clone<T>(a: &Arc<T>) -> (r: Arc<T>)
    ensures
        r == *a,
{
    Arc::clone(a)
}

} // verus!
