//! A minimal custody ledger.
//!
//! The ledger maps opaque string keys (bearer claim-checks) to held amounts
//! and supports three operations: deposit under a key, read the balance of a
//! key, and a single-shot withdrawal that releases the full held balance at
//! most once per deposit cycle. The host that supplies caller identity and
//! attached value, and the mechanism that actually moves value, live outside
//! the ledger; the ledger only decides who is owed what.

pub mod laws;
pub mod ledger;
