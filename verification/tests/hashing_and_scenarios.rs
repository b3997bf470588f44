//! The header hash against an independent recomputation, the exact
//! serialisation formula, and the two whole-protocol scenarios.

use blake2::{Blake2b256, Digest};

use inherent_gate::block::{BlockOrigin, CandidateBlock, Header};
use inherent_gate::gate::{begin, resume, OracleRequest, OracleResponse, VerifierStep};
use inherent_gate::hashing::{compute_header_hash, encode_header, encode_u64_le};
use inherent_gate::inherents::{CheckReport, InherentBundle, InherentEntry, InherentMismatch};
use inherent_gate::outcome::{OracleFailure, RejectReason, VerificationOutcome};

fn parent_p() -> Vec<u8> {
    vec![0x11; 32]
}

fn authored_header() -> Header {
    Header {
        parent_reference: parent_p(),
        height: 100,
        payload: vec![0xde, 0xad, 0xbe, 0xef],
    }
}

fn authored_block() -> CandidateBlock {
    CandidateBlock {
        origin: BlockOrigin::OwnAuthored,
        header: authored_header(),
        body: Some(vec![vec![1], vec![2, 3]]),
        justifications: None,
    }
}

fn timestamp_bundle() -> InherentBundle {
    InherentBundle {
        entries: vec![InherentEntry {
            identifier: b"timstap0".to_vec(),
            data: 1_700_000_000u64.to_le_bytes().to_vec(),
        }],
    }
}

#[test]
fn little_endian_encoding_is_exact() {
    assert_eq!(
        encode_u64_le(0x0102030405060708),
        vec![8, 7, 6, 5, 4, 3, 2, 1],
    );
    assert_eq!(encode_u64_le(0), vec![0; 8]);
    assert_eq!(encode_u64_le(u64::MAX), vec![0xff; 8]);
}

#[test]
fn header_serialisation_is_exact() {
    let header = Header {
        parent_reference: vec![0xab, 0xcd],
        height: 258,
        payload: vec![0x42],
    };
    let mut expected = vec![0xab, 0xcd];
    expected.extend_from_slice(&[2, 1, 0, 0, 0, 0, 0, 0]);
    expected.push(0x42);
    assert_eq!(encode_header(&header), expected);
}

#[test]
fn attached_hash_matches_independent_recomputation() {
    let hash = compute_header_hash(&authored_header());
    let recomputed = Blake2b256::digest(encode_header(&authored_header())).to_vec();
    assert_eq!(hash, recomputed);
    assert_eq!(hash.len(), 32);
}

#[test]
fn hash_is_a_digest_not_the_serialised_header() {
    let encoded = encode_header(&authored_header());
    let hash = compute_header_hash(&authored_header());
    assert_ne!(hash, encoded);
}

#[test]
fn hashes_differ_when_headers_differ() {
    let mut other = authored_header();
    other.height += 1;
    assert_ne!(compute_header_hash(&authored_header()), compute_header_hash(&other));
}

#[test]
fn own_authored_consistent_block_is_accepted() {
    let state = match begin(authored_block()) {
        VerifierStep::Await { state, request } => {
            match request {
                OracleRequest::FetchExpectedData { parent_reference } => {
                    assert_eq!(parent_reference, parent_p());
                },
                _ => panic!("first request was not the expected-data fetch"),
            }
            state
        },
        _ => panic!("block with a body finished early"),
    };
    let state = match resume(
        state,
        OracleResponse::ExpectedData { result: Ok(timestamp_bundle()) },
    ) {
        VerifierStep::Await { state, .. } => state,
        _ => panic!("no check was requested after the fetch"),
    };
    match resume(
        state,
        OracleResponse::CheckOutcome { result: Ok(CheckReport::AllConsistent) },
    ) {
        VerifierStep::Finished { outcome } => match outcome {
            VerificationOutcome::Accepted { import_request } => {
                assert_eq!(import_request.origin, BlockOrigin::OwnAuthored);
                assert_eq!(import_request.body, Some(vec![vec![1], vec![2, 3]]));
                assert_eq!(import_request.justifications, None);
                assert!(!import_request.fork_choice.treat_as_best);
                assert_eq!(
                    import_request.post_hash,
                    compute_header_hash(&authored_header()),
                );
            },
            _ => panic!("consistent authored block was rejected"),
        },
        _ => panic!("another request followed a consistent report"),
    }
}

#[test]
fn vetoed_timestamp_rejects_authored_block() {
    let state = match begin(authored_block()) {
        VerifierStep::Await { state, .. } => state,
        _ => panic!("block with a body finished early"),
    };
    let state = match resume(
        state,
        OracleResponse::ExpectedData { result: Ok(timestamp_bundle()) },
    ) {
        VerifierStep::Await { state, .. } => state,
        _ => panic!("no check was requested after the fetch"),
    };
    let report = CheckReport::Inconsistent {
        errors: vec![InherentMismatch {
            identifier: b"timstap0".to_vec(),
            payload: b"too far in future".to_vec(),
        }],
    };
    let state = match resume(state, OracleResponse::CheckOutcome { result: Ok(report) }) {
        VerifierStep::Await { state, request } => {
            match request {
                OracleRequest::AttemptRecovery { identifier, payload } => {
                    assert_eq!(identifier, b"timstap0".to_vec());
                    assert_eq!(payload, b"too far in future".to_vec());
                },
                _ => panic!("mismatch did not lead to a recovery attempt"),
            }
            state
        },
        _ => panic!("an inconsistent report finished without recovery"),
    };
    let veto = OracleFailure { detail: "timestamp vetoed".to_string() };
    match resume(
        state,
        OracleResponse::RecoveryOutcome { result: Some(Err(veto)) },
    ) {
        VerifierStep::Finished { outcome } => match outcome {
            VerificationOutcome::Rejected { reason } => match reason {
                RejectReason::VetoedByProvider { identifier, detail } => {
                    assert_eq!(identifier, b"timstap0".to_vec());
                    assert_eq!(detail, "timestamp vetoed");
                },
                _ => panic!("wrong rejection reason"),
            },
            _ => panic!("accepted despite a veto"),
        },
        _ => panic!("another request followed a veto"),
    }
}
