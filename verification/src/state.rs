//! The oracle's record kinds — the singleton published state, one record per
//! registered assessor, one record per committed assessment — together with
//! their spec-level images and the notifications successful operations hand
//! back to the caller.

use crate::bias::RiskBias;
use vstd::prelude::*;

verus! {

/// The oracle's singleton published state.
#[derive(Clone, Copy, Debug)]
pub struct OracleState {
    /// Identity permitted to register assessors; set once at initialization.
    pub authority: u64,
    /// Number of assessments committed so far; also the next unused
    /// sequence id.
    pub assessment_count: u64,
    /// Timestamp of the last successful reveal (or of initialization).
    pub last_update: i64,
    /// Latest published risk score, between 0 and 100.
    pub current_score: u8,
    /// Latest published risk bias.
    pub current_bias: RiskBias,
}

/// A registered assessor.
#[derive(Clone, Copy, Debug)]
pub struct Assessor {
    /// The identity this record belongs to.
    pub identity: u64,
    /// Number of successful reveals by this assessor.
    pub total_assessments: u64,
    /// When the assessor was registered.
    pub registered_at: i64,
    /// Whether the assessor may commit new assessments.
    pub active: bool,
}

/// One committed — and possibly revealed — risk assessment.
#[derive(Debug)]
pub struct RiskAssessment {
    /// Identity of the assessor who committed this assessment.
    pub assessor: u64,
    /// When the commitment was made.
    pub timestamp: i64,
    /// The revealed score; 0 until revealed.
    pub score: u8,
    /// The revealed bias; Neutral until revealed.
    pub bias: RiskBias,
    /// The 32-byte digest committed to.
    pub commitment_hash: Vec<u8>,
    /// Whether the assessment has been revealed.
    pub revealed: bool,
}

/// Spec-level image of a `RiskAssessment`.
#[verifier::ext_equal]
pub struct AssessmentView {
    pub assessor: u64,
    pub timestamp: i64,
    pub score: u8,
    pub bias: RiskBias,
    pub commitment_hash: Seq<u8>,
    pub revealed: bool,
}

impl View for RiskAssessment {
    type V = AssessmentView;

    open spec fn view(&self) -> AssessmentView {
        AssessmentView {
            assessor: self.assessor,
            timestamp: self.timestamp,
            score: self.score,
            bias: self.bias,
            commitment_hash: self.commitment_hash@,
            revealed: self.revealed,
        }
    }
}

/// Notification handed back by a successful registration.
#[derive(Clone, Copy, Debug, PartialEq, Eq, Structural)]
pub struct AssessorRegistered {
    /// The newly registered identity.
    pub assessor: u64,
    /// When it was registered.
    pub timestamp: i64,
}

/// Notification handed back by a successful reveal.
#[derive(Clone, Copy, Debug, PartialEq, Eq, Structural)]
pub struct RiskUpdated {
    /// Sequence id of the revealed assessment.
    pub assessment_id: u64,
    /// The revealed score.
    pub score: u8,
    /// The revealed bias.
    pub bias: RiskBias,
    /// When the reveal happened.
    pub timestamp: i64,
    /// Identity of the revealing assessor.
    pub assessor: u64,
}

} // verus!
