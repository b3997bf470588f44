//! The candidate block handed to the verifier, and the plain values it is made of.

use vstd::prelude::*;

verus! {

/// Provenance of a candidate block.
#[derive(Clone, Copy, PartialEq, Eq, Structural, Debug)]
pub enum BlockOrigin {
    /// Received from the live network.
    NetworkBroadcast,
    /// Received while replaying the chain during initial synchronisation.
    NetworkInitialSync,
    /// Produced by this node itself.
    OwnAuthored,
    /// Imported from a file.
    FileImport,
}

/// A block header: the parent reference, the height, and the remaining
/// hash-computing fields carried as opaque bytes.
pub struct Header {
    /// Reference (hash) of the preceding block.
    pub parent_reference: Vec<u8>,
    /// Height of this block in the chain.
    pub height: u64,
    /// The other fields that enter the block hash, already serialised.
    pub payload: Vec<u8>,
}

/// One opaque extrinsic of a block body.
pub type Extrinsic = Vec<u8>;

/// A block proposed for import, not yet accepted.
pub struct CandidateBlock {
    /// Where the block came from.
    pub origin: BlockOrigin,
    /// The block's header.
    pub header: Header,
    /// The ordered extrinsics, absent for a header-only block.
    pub body: Option<Vec<Extrinsic>>,
    /// Opaque justification bytes, passed through unchanged.
    pub justifications: Option<Vec<u8>>,
}

} // verus!
