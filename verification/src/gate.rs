//! The verification state machine.
//!
//! One verification call is a strictly forward walk
//! `Start -> FetchingBundle -> Checking -> ResolvingErrors(i) -> done`.
//! Every suspension point of the protocol — fetching the expected inherent
//! data, running the consistency check, attempting one recovery — is
//! surfaced as an [`OracleRequest`] that the surrounding driver performs;
//! the oracle's answer comes back as an [`OracleResponse`] and yields the
//! next step.  No state is shared between verification calls.

use vstd::prelude::*;

use crate::block::BlockOrigin;
use crate::block::CandidateBlock;
use crate::block::Extrinsic;
use crate::block::Header;
use crate::hashing::clone_bytes;
use crate::hashing::compute_header_hash;
use crate::hashing::header_hash;
use crate::inherents::CheckReport;
use crate::inherents::InherentBundle;
use crate::inherents::InherentMismatch;
use crate::outcome::ForkChoiceDirective;
use crate::outcome::ImportRequest;
use crate::outcome::OracleFailure;
use crate::outcome::RejectReason;
use crate::outcome::VerificationOutcome;

verus! {

/// The block under verification, with its body detached from the header so
/// the check can treat header and body as one unit.
pub struct PendingBlock {
    /// Where the block came from.
    pub origin: BlockOrigin,
    /// The block's header.
    pub header: Header,
    /// The block's body; a pending block always has one, since header-only
    /// blocks finish before any oracle call.
    pub body: Vec<Extrinsic>,
    /// Justification bytes, held for the final import request.
    pub justifications: Option<Vec<u8>>,
}

/// Where one verification call stands while an oracle call is in flight.
pub enum VerifierState {
    /// Waiting for the expected inherent data of the parent.
    FetchingBundle { pending: PendingBlock },
    /// Waiting for the consistency check of the block against the bundle.
    Checking { pending: PendingBlock },
    /// Waiting for the recovery attempt on the mismatch at `next_error`.
    ResolvingErrors {
        pending: PendingBlock,
        errors: Vec<InherentMismatch>,
        next_error: usize,
    },
}

/// One call the driver must make into the oracle adapter.
pub enum OracleRequest {
    /// Call `expected_data(parent_reference)`.
    FetchExpectedData { parent_reference: Vec<u8> },
    /// Call `check(parent_reference, block, bundle)`; the block itself is
    /// the header and body held by the `Checking` state.
    RunCheck { parent_reference: Vec<u8>, bundle: InherentBundle },
    /// Call `try_recover(identifier, payload)`.
    AttemptRecovery { identifier: Vec<u8>, payload: Vec<u8> },
}

/// The oracle adapter's answer to the matching request.
#[allow(inconsistent_fields)]
pub enum OracleResponse {
    /// Answer to `FetchExpectedData`.
    ExpectedData { result: Result<InherentBundle, OracleFailure> },
    /// Answer to `RunCheck`.
    CheckOutcome { result: Result<CheckReport, OracleFailure> },
    /// Answer to `AttemptRecovery`: `None` when no provider claims the
    /// identifier, otherwise the claiming provider's judgement.
    RecoveryOutcome { result: Option<Result<(), OracleFailure>> },
}

/// What one transition of the machine yields: either another oracle call to
/// perform, or the terminal outcome.
pub enum VerifierStep {
    /// Perform `request` and feed its answer back through [`resume`].
    Await { state: VerifierState, request: OracleRequest },
    /// Verification is over.
    Finished { outcome: VerificationOutcome },
}

impl VerifierState {
    /// The indices of a `ResolvingErrors` state stay inside its error list.
    pub open spec fn wf(&self) -> bool {
        match self {
            VerifierState::FetchingBundle { .. } => true,
            VerifierState::Checking { .. } => true,
            VerifierState::ResolvingErrors { errors, next_error, .. } => {
                next_error < errors@.len()
            },
        }
    }
}

impl OracleResponse {
    /// A successful check outcome is a well-formed report.
    pub open spec fn wf(&self) -> bool {
        match self {
            OracleResponse::CheckOutcome { result: Result::Ok(report) } => report.wf(),
            _ => true,
        }
    }
}

impl VerifierStep {
    /// Any state handed back for another round is well-formed.
    pub open spec fn wf(&self) -> bool {
        match self {
            VerifierStep::Await { state, .. } => state.wf(),
            VerifierStep::Finished { .. } => true,
        }
    }
}

/// Which kind of answer a waiting state calls for.
pub open spec fn expects(state: VerifierState, response: OracleResponse) -> bool {
    match state {
        VerifierState::FetchingBundle { .. } => response is ExpectedData,
        VerifierState::Checking { .. } => response is CheckOutcome,
        VerifierState::ResolvingErrors { .. } => response is RecoveryOutcome,
    }
}

/// The fork-choice directive derived from a block's origin: only blocks
/// replayed during initial synchronisation are provisionally treated as
/// best; for every other origin the judgement is left to the external
/// fork-choice authority.
pub open spec fn fork_choice_spec(origin: BlockOrigin) -> ForkChoiceDirective {
    ForkChoiceDirective { treat_as_best: origin is NetworkInitialSync }
}

/// The outcome accepts the block: the import request carries the origin,
/// header, body and justifications through unchanged, the directive derived
/// from the origin, and the hash of the header.
pub open spec fn accepts(
    origin: BlockOrigin,
    header: Header,
    body: Option<Vec<Extrinsic>>,
    justifications: Option<Vec<u8>>,
    outcome: VerificationOutcome,
) -> bool {
    &&& outcome matches VerificationOutcome::Accepted { import_request }
    &&& import_request.origin == origin
    &&& import_request.header == header
    &&& import_request.body == body
    &&& import_request.justifications == justifications
    &&& import_request.fork_choice == fork_choice_spec(origin)
    &&& import_request.post_hash@ == header_hash(header)
}

/// The request asks the oracle to attempt recovery of exactly `error`.
pub open spec fn requests_recovery_of(request: OracleRequest, error: InherentMismatch) -> bool {
    &&& request matches OracleRequest::AttemptRecovery { identifier, payload }
    &&& identifier@ == error.identifier@
    &&& payload@ == error.payload@
}

/// What the first transition yields.  A header-only block finishes at once,
/// accepted with its body absent and no oracle call made; any other block
/// moves to `FetchingBundle` with a request for its parent's expected data.
pub open spec fn begin_spec(block: CandidateBlock, step: VerifierStep) -> bool {
    match block.body {
        Option::None => {
            &&& step matches VerifierStep::Finished { outcome }
            &&& accepts(
                block.origin,
                block.header,
                Option::None,
                block.justifications,
                outcome,
            )
        },
        Option::Some(body) => {
            &&& step matches VerifierStep::Await { state, request }
            &&& state matches VerifierState::FetchingBundle { pending }
            &&& pending.origin == block.origin
            &&& pending.header == block.header
            &&& pending.body == body
            &&& pending.justifications == block.justifications
            &&& request matches OracleRequest::FetchExpectedData { parent_reference }
            &&& parent_reference@ == block.header.parent_reference@
        },
    }
}

/// What the transition out of `FetchingBundle` yields.  A failed fetch
/// rejects the block; a bundle moves on to the consistency check.
pub open spec fn fetch_step_spec(
    pending: PendingBlock,
    result: Result<InherentBundle, OracleFailure>,
    step: VerifierStep,
) -> bool {
    match result {
        Result::Err(failure) => {
            &&& step matches VerifierStep::Finished { outcome }
            &&& outcome matches VerificationOutcome::Rejected { reason }
            &&& reason matches RejectReason::ProviderConstruction { detail }
            &&& detail == failure.detail
        },
        Result::Ok(bundle) => {
            &&& step matches VerifierStep::Await { state, request }
            &&& state matches VerifierState::Checking { pending: next }
            &&& next == pending
            &&& request matches OracleRequest::RunCheck { parent_reference, bundle: sent }
            &&& parent_reference@ == pending.header.parent_reference@
            &&& sent == bundle
        },
    }
}

/// What the transition out of `Checking` yields.  A failed check call
/// rejects the block; a consistent report accepts it with its body intact;
/// mismatches start the recovery walk at the first reported error.
pub open spec fn check_step_spec(
    pending: PendingBlock,
    result: Result<CheckReport, OracleFailure>,
    step: VerifierStep,
) -> bool {
    match result {
        Result::Err(failure) => {
            &&& step matches VerifierStep::Finished { outcome }
            &&& outcome matches VerificationOutcome::Rejected { reason }
            &&& reason matches RejectReason::RuntimeCheck { detail }
            &&& detail == failure.detail
        },
        Result::Ok(report) => match report {
            CheckReport::AllConsistent => {
                &&& step matches VerifierStep::Finished { outcome }
                &&& accepts(
                    pending.origin,
                    pending.header,
                    Option::Some(pending.body),
                    pending.justifications,
                    outcome,
                )
            },
            CheckReport::Inconsistent { errors } => {
                &&& step matches VerifierStep::Await { state, request }
                &&& state matches VerifierState::ResolvingErrors {
                    pending: next,
                    errors: held,
                    next_error,
                }
                &&& next == pending
                &&& held == errors
                &&& next_error == 0
                &&& requests_recovery_of(request, errors@[0])
            },
        },
    }
}

/// What the transition out of `ResolvingErrors` at index `i` yields.  An
/// unclaimed or vetoed mismatch rejects the block at once — later errors
/// are never looked at; a tolerated mismatch moves to the next error, or
/// accepts the block with its body intact when it was the last.
pub open spec fn recovery_step_spec(
    pending: PendingBlock,
    errors: Vec<InherentMismatch>,
    i: int,
    result: Option<Result<(), OracleFailure>>,
    step: VerifierStep,
) -> bool {
    match result {
        Option::None => {
            &&& step matches VerifierStep::Finished { outcome }
            &&& outcome matches VerificationOutcome::Rejected { reason }
            &&& reason matches RejectReason::UnhandledInherent { identifier }
            &&& identifier@ == errors@[i].identifier@
        },
        Option::Some(Result::Err(failure)) => {
            &&& step matches VerifierStep::Finished { outcome }
            &&& outcome matches VerificationOutcome::Rejected { reason }
            &&& reason matches RejectReason::VetoedByProvider { identifier, detail }
            &&& identifier@ == errors@[i].identifier@
            &&& detail == failure.detail
        },
        Option::Some(Result::Ok(_)) => {
            if i + 1 < errors@.len() {
                &&& step matches VerifierStep::Await { state, request }
                &&& state matches VerifierState::ResolvingErrors {
                    pending: next,
                    errors: held,
                    next_error,
                }
                &&& next == pending
                &&& held == errors
                &&& next_error == i + 1
                &&& requests_recovery_of(request, errors@[i + 1])
            } else {
                &&& step matches VerifierStep::Finished { outcome }
                &&& accepts(
                    pending.origin,
                    pending.header,
                    Option::Some(pending.body),
                    pending.justifications,
                    outcome,
                )
            }
        },
    }
}

/// What resuming a waiting state with the matching answer yields.
pub open spec fn step_spec(
    state: VerifierState,
    response: OracleResponse,
    step: VerifierStep,
) -> bool {
    match state {
        VerifierState::FetchingBundle { pending } => match response {
            OracleResponse::ExpectedData { result } => fetch_step_spec(pending, result, step),
            _ => true,
        },
        VerifierState::Checking { pending } => match response {
            OracleResponse::CheckOutcome { result } => check_step_spec(pending, result, step),
            _ => true,
        },
        VerifierState::ResolvingErrors { pending, errors, next_error } => match response {
            OracleResponse::RecoveryOutcome { result } => {
                recovery_step_spec(pending, errors, next_error as int, result, step)
            },
            _ => true,
        },
    }
}

/// Derive the fork-choice directive from a block's origin.
pub fn fork_choice_for(origin: BlockOrigin) -> (directive: ForkChoiceDirective)
    ensures
        directive == fork_choice_spec(origin),
{
    ForkChoiceDirective { treat_as_best: origin == BlockOrigin::NetworkInitialSync }
}

/// Build the accepting outcome: annotate the block with its derived
/// fork-choice directive and the hash of its header, computed exactly once.
fn accept(
    origin: BlockOrigin,
    header: Header,
    body: Option<Vec<Extrinsic>>,
    justifications: Option<Vec<u8>>,
) -> (outcome: VerificationOutcome)
    ensures
        accepts(origin, header, body, justifications, outcome),
{
    let post_hash = compute_header_hash(&header);
    let fork_choice = fork_choice_for(origin);
    VerificationOutcome::Accepted {
        import_request: ImportRequest {
            origin,
            header,
            body,
            justifications,
            fork_choice,
            post_hash,
        },
    }
}

/// Start verifying a candidate block.
pub fn begin(block: CandidateBlock) -> (step: VerifierStep)
    ensures
        begin_spec(block, step),
        step.wf(),
{
    let CandidateBlock { origin, header, body, justifications } = block;
    match body {
        Option::None => {
            let outcome = accept(origin, header, Option::None, justifications);
            VerifierStep::Finished { outcome }
        },
        Option::Some(inner_body) => {
            let parent_reference = clone_bytes(&header.parent_reference);
            let pending = PendingBlock { origin, header, body: inner_body, justifications };
            VerifierStep::Await {
                state: VerifierState::FetchingBundle { pending },
                request: OracleRequest::FetchExpectedData { parent_reference },
            }
        },
    }
}

/// Feed an oracle answer back into a waiting verification and take the next
/// step.
pub fn resume(state: VerifierState, response: OracleResponse) -> (step: VerifierStep)
    requires
        state.wf(),
        expects(state, response),
        response.wf(),
    ensures
        step_spec(state, response, step),
        step.wf(),
{
    match (state, response) {
        (
            VerifierState::FetchingBundle { pending },
            OracleResponse::ExpectedData { result },
        ) => match result {
            Result::Err(failure) => VerifierStep::Finished {
                outcome: VerificationOutcome::Rejected {
                    reason: RejectReason::ProviderConstruction { detail: failure.detail },
                },
            },
            Result::Ok(bundle) => {
                let parent_reference = clone_bytes(&pending.header.parent_reference);
                VerifierStep::Await {
                    state: VerifierState::Checking { pending },
                    request: OracleRequest::RunCheck { parent_reference, bundle },
                }
            },
        },
        (
            VerifierState::Checking { pending },
            OracleResponse::CheckOutcome { result },
        ) => match result {
            Result::Err(failure) => VerifierStep::Finished {
                outcome: VerificationOutcome::Rejected {
                    reason: RejectReason::RuntimeCheck { detail: failure.detail },
                },
            },
            Result::Ok(report) => match report {
                CheckReport::AllConsistent => {
                    let PendingBlock { origin, header, body, justifications } = pending;
                    let outcome = accept(origin, header, Option::Some(body), justifications);
                    VerifierStep::Finished { outcome }
                },
                CheckReport::Inconsistent { errors } => {
                    let request = recovery_request(&errors, 0);
                    VerifierStep::Await {
                        state: VerifierState::ResolvingErrors { pending, errors, next_error: 0 },
                        request,
                    }
                },
            },
        },
        (
            VerifierState::ResolvingErrors { pending, errors, next_error },
            OracleResponse::RecoveryOutcome { result },
        ) => match result {
            Option::None => VerifierStep::Finished {
                outcome: VerificationOutcome::Rejected {
                    reason: RejectReason::UnhandledInherent {
                        identifier: clone_bytes(&errors[next_error].identifier),
                    },
                },
            },
            Option::Some(Result::Err(failure)) => VerifierStep::Finished {
                outcome: VerificationOutcome::Rejected {
                    reason: RejectReason::VetoedByProvider {
                        identifier: clone_bytes(&errors[next_error].identifier),
                        detail: failure.detail,
                    },
                },
            },
            Option::Some(Result::Ok(_)) => {
                let error_count: usize = errors.len();
                if next_error + 1 < error_count {
                    let request = recovery_request(&errors, next_error + 1);
                    VerifierStep::Await {
                        state: VerifierState::ResolvingErrors {
                            pending,
                            errors,
                            next_error: next_error + 1,
                        },
                        request,
                    }
                } else {
                    let PendingBlock { origin, header, body, justifications } = pending;
                    let outcome = accept(origin, header, Option::Some(body), justifications);
                    VerifierStep::Finished { outcome }
                }
            },
        },
        _ => {
            // Excluded by the precondition: the answer kind always matches
            // the waiting state.
            proof {
                assert(false);
            }
            VerifierStep::Finished {
                outcome: VerificationOutcome::Rejected {
                    reason: RejectReason::UnhandledInherent { identifier: Vec::new() },
                },
            }
        },
    }
}

/// Build the request that asks the oracle to recover the mismatch at `i`.
fn recovery_request(errors: &Vec<InherentMismatch>, i: usize) -> (request: OracleRequest)
    requires
        i < errors@.len(),
    ensures
        requests_recovery_of(request, errors@[i as int]),
{
    OracleRequest::AttemptRecovery {
        identifier: clone_bytes(&errors[i].identifier),
        payload: clone_bytes(&errors[i].payload),
    }
}

} // verus!
