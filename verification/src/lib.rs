//! A transaction workload generator for stress-testing a blockchain network,
//! together with the global-configuration handling of the command-line tool
//! around it.
//!
//! Given a pool of funded accounts, a workload generator produces a
//! deterministic-shape, per-account sequence of signed transactions that
//! alternately publish a code package and invoke functions of a previously
//! published package. A generator factory mints independent generators, one
//! per concurrent worker, each with its own randomness stream but sharing the
//! same package catalog and account-address pool.

pub mod config;
pub mod publish_modules;
pub mod publishing;
pub mod rng;
pub mod shared;
pub mod types;
