//! A block-verification gate for the front of a block-import pipeline.
//!
//! Before a candidate block is handed to the import layer, its embedded
//! inherent data (timestamps, parent-chain proofs, and the like) is checked
//! for consistency against an independent inherent-data oracle.  The verifier
//! itself is a pure decision core: every call into the asynchronous oracle
//! is surfaced as a request that the surrounding driver performs, and the
//! driver feeds the oracle's answer back in to obtain the next step.

pub mod block;
pub mod hashing;
pub mod inherents;
pub mod outcome;
pub mod gate;
pub mod laws;
