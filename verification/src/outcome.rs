//! The terminal value of one verification: an annotated import request, or a
//! rejection naming its cause.

use vstd::prelude::*;

use crate::block::BlockOrigin;
use crate::block::Extrinsic;
use crate::block::Header;

verus! {

/// A failure raised by the oracle itself, carried through for diagnostics.
pub struct OracleFailure {
    /// Human-readable description of the failure.
    pub detail: String,
}

/// Why a candidate block was rejected.
pub enum RejectReason {
    /// The expected-inherent-data bundle could not be built.
    ProviderConstruction { detail: String },
    /// The consistency-check call itself failed.
    RuntimeCheck { detail: String },
    /// A mismatch was reported for an inherent with no recovery handler.
    UnhandledInherent { identifier: Vec<u8> },
    /// A recovery handler examined the mismatch and vetoed the block.
    VetoedByProvider { identifier: Vec<u8>, detail: String },
}

/// Whether the block should provisionally be treated as the new best chain
/// head, or that judgement left to the external fork-choice authority.
#[derive(Clone, Copy, PartialEq, Eq, Structural, Debug)]
pub struct ForkChoiceDirective {
    /// True exactly when the block is to be treated as the new best head.
    pub treat_as_best: bool,
}

/// A fully annotated request to import the verified block.
pub struct ImportRequest {
    /// Where the block came from.
    pub origin: BlockOrigin,
    /// The block's header.
    pub header: Header,
    /// The body, reattached after the round trip through the check.
    pub body: Option<Vec<Extrinsic>>,
    /// Justification bytes, passed through unchanged.
    pub justifications: Option<Vec<u8>>,
    /// The derived fork-choice directive.
    pub fork_choice: ForkChoiceDirective,
    /// The block's own hash, computed once from the header.
    pub post_hash: Vec<u8>,
}

/// The terminal value of one verification call.
pub enum VerificationOutcome {
    /// The block passed verification; hand this request to the import layer.
    Accepted { import_request: ImportRequest },
    /// The block failed verification.
    Rejected { reason: RejectReason },
}

} // verus!
