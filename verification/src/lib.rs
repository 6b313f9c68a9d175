//! A stress/benchmark harness core: run orchestration, workload-mix
//! selection, driver state machine, and statistics persistence/comparison
//! for driving synthetic transaction load at a distributed ledger.

pub mod codec;
pub mod compare;
pub mod interval;
pub mod options;
pub mod driver;
pub mod p2p;
pub mod rendezvous;
pub mod run;
pub mod stats;
pub mod workload;
