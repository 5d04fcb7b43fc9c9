use risk_oracle::bias::RiskBias;
use risk_oracle::codec::commitment_digest;
use risk_oracle::error::ErrorCode;
use risk_oracle::oracle::Oracle;
use risk_oracle::state::{Assessor, OracleState, RiskAssessment};

const AUTHORITY: u64 = 7;
const ASSESSOR_A: u64 = 9;
const ASSESSOR_B: u64 = 11;

#[test]
fn initialize_publishes_neutral_fifty() {
    let o = Oracle::initialize(AUTHORITY, 100);
    let s = o.get_latest();
    assert_eq!(s.authority, AUTHORITY);
    assert_eq!(s.current_score, 50);
    assert_eq!(s.current_bias, RiskBias::Neutral);
    assert_eq!(s.assessment_count, 0);
    assert_eq!(s.last_update, 100);
}

#[test]
fn register_by_non_authority_fails_unauthorized() {
    let mut o = Oracle::initialize(AUTHORITY, 100);
    let r = o.register_assessor(ASSESSOR_A, ASSESSOR_B, 101);
    assert_eq!(r, Err(ErrorCode::Unauthorized));
    assert_eq!(o.assessors.len(), 0);
}

#[test]
fn register_by_authority_creates_active_assessor() {
    let mut o = Oracle::initialize(AUTHORITY, 100);
    let r = o.register_assessor(AUTHORITY, ASSESSOR_A, 101).unwrap();
    assert_eq!(r.assessor, ASSESSOR_A);
    assert_eq!(r.timestamp, 101);
    assert_eq!(o.assessors.len(), 1);
    assert_eq!(o.assessors[0].identity, ASSESSOR_A);
    assert_eq!(o.assessors[0].total_assessments, 0);
    assert_eq!(o.assessors[0].registered_at, 101);
    assert!(o.assessors[0].active);
}

#[test]
fn commit_by_unregistered_fails_inactive() {
    let mut o = Oracle::initialize(AUTHORITY, 100);
    let digest = commitment_digest(60, RiskBias::RiskOn, b"salt1");
    let r = o.commit_assessment(ASSESSOR_A, digest, 102);
    assert_eq!(r, Err(ErrorCode::AssessorInactive));
    assert_eq!(o.assessments.len(), 0);
    assert_eq!(o.get_latest().assessment_count, 0);
}

#[test]
fn commit_by_deactivated_fails_inactive() {
    let mut o = Oracle::initialize(AUTHORITY, 100);
    o.register_assessor(AUTHORITY, ASSESSOR_A, 101).unwrap();
    o.assessors[0].active = false;
    let digest = commitment_digest(60, RiskBias::RiskOn, b"salt1");
    let r = o.commit_assessment(ASSESSOR_A, digest, 102);
    assert_eq!(r, Err(ErrorCode::AssessorInactive));
    assert_eq!(o.assessments.len(), 0);
}

#[test]
fn reveal_by_wrong_assessor_fails_unauthorized() {
    let mut o = Oracle::initialize(AUTHORITY, 100);
    o.register_assessor(AUTHORITY, ASSESSOR_A, 101).unwrap();
    o.register_assessor(AUTHORITY, ASSESSOR_B, 101).unwrap();
    let digest = commitment_digest(60, RiskBias::RiskOn, b"salt1");
    o.commit_assessment(ASSESSOR_A, digest, 102).unwrap();
    let r = o.reveal_assessment(ASSESSOR_B, 60, RiskBias::RiskOn, b"salt1", 103);
    assert_eq!(r, Err(ErrorCode::Unauthorized));
    assert!(!o.assessments[0].revealed);
    assert_eq!(o.get_latest().current_score, 50);
}

#[test]
fn reveal_out_of_range_score_fails_invalid_score() {
    let mut o = Oracle::initialize(AUTHORITY, 100);
    o.register_assessor(AUTHORITY, ASSESSOR_A, 101).unwrap();
    let digest = commitment_digest(101, RiskBias::RiskOn, b"salt1");
    o.commit_assessment(ASSESSOR_A, digest, 102).unwrap();
    let r = o.reveal_assessment(ASSESSOR_A, 101, RiskBias::RiskOn, b"salt1", 103);
    assert_eq!(r, Err(ErrorCode::InvalidScore));
    assert!(!o.assessments[0].revealed);
}

#[test]
fn reveal_at_score_boundary_succeeds() {
    let mut o = Oracle::initialize(AUTHORITY, 100);
    o.register_assessor(AUTHORITY, ASSESSOR_A, 101).unwrap();
    let digest = commitment_digest(100, RiskBias::RiskOff, b"edge");
    o.commit_assessment(ASSESSOR_A, digest, 102).unwrap();
    let r = o.reveal_assessment(ASSESSOR_A, 100, RiskBias::RiskOff, b"edge", 103);
    assert!(r.is_ok());
    assert_eq!(o.get_latest().current_score, 100);
    assert_eq!(o.get_latest().current_bias, RiskBias::RiskOff);
}

#[test]
fn reveal_overflowing_assessor_counter_fails_overflow() {
    let digest = commitment_digest(60, RiskBias::RiskOn, b"salt1");
    let mut o = Oracle {
        state: OracleState {
            authority: AUTHORITY,
            assessment_count: 1,
            last_update: 100,
            current_score: 50,
            current_bias: RiskBias::Neutral,
        },
        assessors: vec![Assessor {
            identity: ASSESSOR_A,
            total_assessments: u64::MAX,
            registered_at: 100,
            active: true,
        }],
        assessments: vec![RiskAssessment {
            assessor: ASSESSOR_A,
            timestamp: 101,
            score: 0,
            bias: RiskBias::Neutral,
            commitment_hash: digest,
            revealed: false,
        }],
    };
    let r = o.reveal_assessment(ASSESSOR_A, 60, RiskBias::RiskOn, b"salt1", 103);
    assert_eq!(r, Err(ErrorCode::Overflow));
    assert!(!o.assessments[0].revealed);
    assert_eq!(o.get_latest().current_score, 50);
    assert_eq!(o.assessors[0].total_assessments, u64::MAX);
}

#[test]
fn query_assessment_returns_stored_fields() {
    let mut o = Oracle::initialize(AUTHORITY, 100);
    o.register_assessor(AUTHORITY, ASSESSOR_A, 101).unwrap();
    let digest = commitment_digest(60, RiskBias::RiskOn, b"salt1");
    o.commit_assessment(ASSESSOR_A, digest.clone(), 102).unwrap();
    let a = o.query_assessment(0).unwrap();
    assert_eq!(a.assessor, ASSESSOR_A);
    assert_eq!(a.timestamp, 102);
    assert_eq!(a.score, 0);
    assert_eq!(a.bias, RiskBias::Neutral);
    assert_eq!(a.commitment_hash, digest);
    assert!(!a.revealed);
    assert!(o.query_assessment(1).is_none());
}

#[test]
fn full_commit_reveal_scenario() {
    let mut o = Oracle::initialize(AUTHORITY, 100);
    assert_eq!(o.get_latest().current_score, 50);
    assert_eq!(o.get_latest().current_bias, RiskBias::Neutral);
    assert_eq!(o.get_latest().assessment_count, 0);

    o.register_assessor(AUTHORITY, ASSESSOR_A, 101).unwrap();
    assert!(o.assessors[0].active);
    assert_eq!(o.assessors[0].total_assessments, 0);

    let digest1 = commitment_digest(60, RiskBias::RiskOn, b"salt1");
    let id = o.commit_assessment(ASSESSOR_A, digest1, 102).unwrap();
    assert_eq!(id, 0);
    assert_eq!(o.get_latest().assessment_count, 1);

    let upd = o
        .reveal_assessment(ASSESSOR_A, 60, RiskBias::RiskOn, b"salt1", 103)
        .unwrap();
    assert_eq!(upd.assessment_id, 0);
    assert_eq!(upd.score, 60);
    assert_eq!(upd.bias, RiskBias::RiskOn);
    assert_eq!(upd.assessor, ASSESSOR_A);
    assert_eq!(o.get_latest().current_score, 60);
    assert_eq!(o.get_latest().current_bias, RiskBias::RiskOn);
    assert_eq!(o.get_latest().last_update, 103);
    assert_eq!(o.assessors[0].total_assessments, 1);
    assert!(o.query_assessment(0).unwrap().revealed);

    let again = o.reveal_assessment(ASSESSOR_A, 60, RiskBias::RiskOn, b"salt1", 104);
    assert_eq!(again, Err(ErrorCode::AlreadyRevealed));

    let digest2 = commitment_digest(10, RiskBias::RiskOff, b"salt2");
    let id2 = o.commit_assessment(ASSESSOR_A, digest2, 105).unwrap();
    assert_eq!(id2, 1);
    assert_eq!(o.get_latest().assessment_count, 2);

    let bad = o.reveal_assessment(ASSESSOR_A, 11, RiskBias::RiskOff, b"salt2", 106);
    assert_eq!(bad, Err(ErrorCode::InvalidCommitment));
    assert_eq!(o.get_latest().current_score, 60);
    assert_eq!(o.get_latest().current_bias, RiskBias::RiskOn);
    assert!(!o.query_assessment(1).unwrap().revealed);

    let good = o
        .reveal_assessment(ASSESSOR_A, 10, RiskBias::RiskOff, b"salt2", 107)
        .unwrap();
    assert_eq!(good.assessment_id, 1);
    assert_eq!(o.get_latest().current_score, 10);
    assert_eq!(o.get_latest().current_bias, RiskBias::RiskOff);
    assert_eq!(o.assessors[0].total_assessments, 2);
}
