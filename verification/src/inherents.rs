//! Expected inherent data and the report of checking a block against it.

use vstd::prelude::*;

verus! {

/// One expected inherent value: an identifier tag and its byte-encoded value.
pub struct InherentEntry {
    /// The short identifier tag of the inherent.
    pub identifier: Vec<u8>,
    /// The expected value, byte-encoded by the provider.
    pub data: Vec<u8>,
}

/// The expected inherent data for one verification call: an ordered mapping
/// from inherent identifier to byte-encoded expected value, built fresh from
/// the parent reference and never mutated afterwards.
pub struct InherentBundle {
    /// The entries, in the order the providers produced them.
    pub entries: Vec<InherentEntry>,
}

/// One inherent that disagreed with its expected value.
pub struct InherentMismatch {
    /// The identifier of the disagreeing inherent.
    pub identifier: Vec<u8>,
    /// The opaque error payload the oracle attached to the disagreement.
    pub payload: Vec<u8>,
}

/// The oracle's judgement of a candidate block against an inherent bundle.
pub enum CheckReport {
    /// Every declared inherent agreed with its expected value.
    AllConsistent,
    /// At least one inherent disagreed; the mismatches, in the order the
    /// oracle reported them.
    Inconsistent { errors: Vec<InherentMismatch> },
}

impl CheckReport {
    /// A report carrying mismatches carries at least one.
    pub open spec fn wf(&self) -> bool {
        match self {
            CheckReport::AllConsistent => true,
            CheckReport::Inconsistent { errors } => errors@.len() > 0,
        }
    }
}

} // verus!
