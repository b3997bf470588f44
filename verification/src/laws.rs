//! The guarantees of the verifier, stated once over whole verifications.
//!
//! Each lemma quantifies over every step sequence the transition relations
//! [`begin_spec`] and [`step_spec`] admit, so it holds of every run of
//! [`crate::gate::begin`] and [`crate::gate::resume`].

use vstd::prelude::*;

use crate::block::CandidateBlock;
use crate::block::Extrinsic;
use crate::gate::accepts;
use crate::gate::begin_spec;
use crate::gate::requests_recovery_of;
use crate::gate::step_spec;
use crate::gate::OracleRequest;
use crate::gate::OracleResponse;
use crate::gate::PendingBlock;
use crate::gate::VerifierState;
use crate::gate::VerifierStep;
use crate::inherents::CheckReport;
use crate::inherents::InherentBundle;
use crate::inherents::InherentMismatch;
use crate::outcome::OracleFailure;
use crate::outcome::RejectReason;
use crate::outcome::VerificationOutcome;

verus! {

/// A header-only candidate block is always accepted at once, with its body
/// left absent, and no oracle call — in particular no consistency check —
/// is ever requested.
pub proof fn lemma_header_only_accepted(block: CandidateBlock, step: VerifierStep)
    requires
        block.body is None,
        begin_spec(block, step),
    ensures
        !(step matches VerifierStep::Await { .. }),
        step matches VerifierStep::Finished { outcome } && accepts(
            block.origin,
            block.header,
            Option::None,
            block.justifications,
            outcome,
        ),
{
}

/// When the expected-data fetch fails, the block is rejected for provider
/// construction, carrying the oracle's detail, and no further oracle call —
/// in particular no consistency check — is ever requested.
pub proof fn lemma_provider_failure_rejects(
    pending: PendingBlock,
    failure: OracleFailure,
    step: VerifierStep,
)
    requires
        step_spec(
            (VerifierState::FetchingBundle { pending }),
            (OracleResponse::ExpectedData { result: Result::Err(failure) }),
            step,
        ),
    ensures
        !(step matches VerifierStep::Await { .. }),
        step matches VerifierStep::Finished { outcome }
            && outcome matches VerificationOutcome::Rejected { reason }
            && reason matches RejectReason::ProviderConstruction { detail }
            && detail == failure.detail,
{
}

/// When the check call itself fails, the block is rejected for a runtime
/// check failure, carrying the oracle's detail, and no recovery is ever
/// attempted.
pub proof fn lemma_check_failure_rejects(
    pending: PendingBlock,
    failure: OracleFailure,
    step: VerifierStep,
)
    requires
        step_spec(
            (VerifierState::Checking { pending }),
            (OracleResponse::CheckOutcome { result: Result::Err(failure) }),
            step,
        ),
    ensures
        !(step matches VerifierStep::Await { .. }),
        step matches VerifierStep::Finished { outcome }
            && outcome matches VerificationOutcome::Rejected { reason }
            && reason matches RejectReason::RuntimeCheck { detail }
            && detail == failure.detail,
{
}

/// A block whose check comes back all consistent is accepted with exactly
/// the body it was submitted with, unmodified, whatever bundle the oracle
/// produced along the way.
pub proof fn lemma_consistent_check_accepts(
    block: CandidateBlock,
    body: Vec<Extrinsic>,
    fetch_state: VerifierState,
    fetch_request: OracleRequest,
    bundle: InherentBundle,
    check_state: VerifierState,
    check_request: OracleRequest,
    step: VerifierStep,
)
    requires
        block.body == Option::Some(body),
        begin_spec(block, (VerifierStep::Await { state: fetch_state, request: fetch_request })),
        step_spec(
            fetch_state,
            (OracleResponse::ExpectedData { result: Result::Ok(bundle) }),
            (VerifierStep::Await { state: check_state, request: check_request }),
        ),
        step_spec(
            check_state,
            (OracleResponse::CheckOutcome { result: Result::Ok(CheckReport::AllConsistent) }),
            step,
        ),
    ensures
        step matches VerifierStep::Finished { outcome } && accepts(
            block.origin,
            block.header,
            Option::Some(body),
            block.justifications,
            outcome,
        ),
{
}

/// A mismatch no provider claims rejects the block at once, naming the
/// unhandled inherent; no further oracle call is requested, so mismatches
/// after it are never evaluated.
pub proof fn lemma_unhandled_mismatch_rejects(
    pending: PendingBlock,
    errors: Vec<InherentMismatch>,
    position: usize,
    step: VerifierStep,
)
    requires
        position < errors@.len(),
        step_spec(
            (VerifierState::ResolvingErrors { pending, errors, next_error: position }),
            (OracleResponse::RecoveryOutcome { result: Option::None }),
            step,
        ),
    ensures
        !(step matches VerifierStep::Await { .. }),
        step matches VerifierStep::Finished { outcome }
            && outcome matches VerificationOutcome::Rejected { reason }
            && reason matches RejectReason::UnhandledInherent { identifier }
            && identifier@ == errors@[position as int].identifier@,
{
}

/// A mismatch a provider vetoes rejects the block at once, naming the
/// inherent and carrying the veto's detail; mismatches after it are never
/// evaluated.
pub proof fn lemma_vetoed_mismatch_rejects(
    pending: PendingBlock,
    errors: Vec<InherentMismatch>,
    position: usize,
    failure: OracleFailure,
    step: VerifierStep,
)
    requires
        position < errors@.len(),
        step_spec(
            (VerifierState::ResolvingErrors { pending, errors, next_error: position }),
            (OracleResponse::RecoveryOutcome { result: Option::Some(Result::Err(failure)) }),
            step,
        ),
    ensures
        !(step matches VerifierStep::Await { .. }),
        step matches VerifierStep::Finished { outcome }
            && outcome matches VerificationOutcome::Rejected { reason }
            && reason matches RejectReason::VetoedByProvider { identifier, detail }
            && identifier@ == errors@[position as int].identifier@
            && detail == failure.detail,
{
}

/// A tolerated mismatch that is not the last moves strictly forward: the
/// next oracle call asks to recover exactly the following mismatch in the
/// reported order.
pub proof fn lemma_recovered_mismatch_moves_forward(
    pending: PendingBlock,
    errors: Vec<InherentMismatch>,
    position: usize,
    step: VerifierStep,
)
    requires
        position + 1 < errors@.len(),
        step_spec(
            (VerifierState::ResolvingErrors { pending, errors, next_error: position }),
            (OracleResponse::RecoveryOutcome { result: Option::Some(Result::Ok(())) }),
            step,
        ),
    ensures
        step matches VerifierStep::Await { state, request }
            && state matches VerifierState::ResolvingErrors {
                pending: next,
                errors: held,
                next_error,
            }
            && next == pending
            && held == errors
            && next_error == position + 1
            && requests_recovery_of(request, errors@[position + 1]),
{
}

/// When the last reported mismatch is tolerated, the block is accepted with
/// the body it was checked with, intact.
pub proof fn lemma_last_mismatch_recovered_accepts(
    pending: PendingBlock,
    errors: Vec<InherentMismatch>,
    position: usize,
    step: VerifierStep,
)
    requires
        position + 1 == errors@.len(),
        step_spec(
            (VerifierState::ResolvingErrors { pending, errors, next_error: position }),
            (OracleResponse::RecoveryOutcome { result: Option::Some(Result::Ok(())) }),
            step,
        ),
    ensures
        step matches VerifierStep::Finished { outcome } && accepts(
            pending.origin,
            pending.header,
            Option::Some(pending.body),
            pending.justifications,
            outcome,
        ),
{
}

/// How far a waiting state is from the start of its verification: the
/// bundle fetch comes first, then the check, then the recovery walk.
pub open spec fn phase(state: VerifierState) -> int {
    match state {
        VerifierState::FetchingBundle { .. } => 2,
        VerifierState::Checking { .. } => 1,
        VerifierState::ResolvingErrors { .. } => 0,
    }
}

/// How many reported mismatches a recovery walk still has to resolve.
pub open spec fn unresolved(state: VerifierState) -> int {
    match state {
        VerifierState::ResolvingErrors { errors, next_error, .. } => {
            errors@.len() - next_error
        },
        _ => 0,
    }
}

/// Verification loops strictly forward, with no backtracking: whenever a
/// resumed step waits for another oracle call, it has either advanced to a
/// later phase of the protocol or moved to a later mismatch of the same
/// walk.  A driver therefore finishes after at most one fetch, one check,
/// and one recovery attempt per reported mismatch.
pub proof fn lemma_strictly_forward(
    state: VerifierState,
    response: OracleResponse,
    next: VerifierState,
    request: OracleRequest,
)
    requires
        state.wf(),
        crate::gate::expects(state, response),
        step_spec(state, response, (VerifierStep::Await { state: next, request })),
    ensures
        phase(next) < phase(state) || (phase(next) == phase(state) && unresolved(next)
            < unresolved(state)),
{
}

/// Every accepted block's directive marks it as the provisional best head
/// exactly when it arrived during initial synchronisation; for every other
/// origin the directive leaves the judgement to the external fork-choice
/// authority.
pub proof fn lemma_fork_choice_follows_origin(
    origin: crate::block::BlockOrigin,
    header: crate::block::Header,
    body: Option<Vec<Extrinsic>>,
    justifications: Option<Vec<u8>>,
    outcome: VerificationOutcome,
)
    requires
        accepts(origin, header, body, justifications, outcome),
    ensures
        outcome matches VerificationOutcome::Accepted { import_request }
            && (import_request.fork_choice.treat_as_best <==> origin
            is NetworkInitialSync),
{
}

/// The hash attached to an accepted block equals any independent
/// recomputation of the block hash from the same header.
pub proof fn lemma_attached_hash_recomputable(
    origin: crate::block::BlockOrigin,
    header: crate::block::Header,
    body: Option<Vec<Extrinsic>>,
    justifications: Option<Vec<u8>>,
    outcome: VerificationOutcome,
    recomputed: Vec<u8>,
)
    requires
        accepts(origin, header, body, justifications, outcome),
        recomputed@ == crate::hashing::header_hash(header),
    ensures
        outcome matches VerificationOutcome::Accepted { import_request }
            && import_request.post_hash@ == recomputed@,
{
}

} // verus!
