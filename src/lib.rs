//! An escrow that parks the buyer's payment in a money market while delivery is pending.
//!
//! Each operation takes the record, the caller and what was read from the ledger, checks the
//! caller's role and the record's status, updates the record and returns the instructions for
//! other services that are to run after it. Reading and writing the record, querying the
//! ledger and dispatching the instructions are left to the caller.

pub mod contract;
pub mod error;
pub mod helpers;
pub mod laws;
pub mod msg;
pub mod state;
