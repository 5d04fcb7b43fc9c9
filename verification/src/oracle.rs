//! The oracle state machine: the five operations and the two read-only
//! queries, each specified against a spec-level transition function over the
//! oracle's image, and each leaving the oracle unchanged whenever it fails.

use crate::bias::RiskBias;
use crate::codec::{bytes_eq, commitment_digest, digest_of, spec_commitment_preimage};
use crate::error::ErrorCode;
use crate::state::{
    Assessor, AssessmentView, AssessorRegistered, OracleState, RiskAssessment, RiskUpdated,
};
use vstd::prelude::*;

verus! {

/// Spec-level image of the whole oracle: the published state plus every
/// assessor and assessment record.
#[verifier::ext_equal]
pub struct OracleView {
    pub state: OracleState,
    pub assessors: Seq<Assessor>,
    pub assessments: Seq<AssessmentView>,
}

impl OracleView {
    /// Whether `id` has an assessor record.
    pub open spec fn is_registered(self, id: u64) -> bool {
        exists|j: int| 0 <= j < self.assessors.len() && self.assessors[j].identity == id
    }

    /// Whether `id` has an assessor record permitted to commit.
    pub open spec fn is_active(self, id: u64) -> bool {
        exists|j: int|
            0 <= j < self.assessors.len() && self.assessors[j].identity == id
                && self.assessors[j].active
    }

    /// The index of `id`'s assessor record; meaningful only when `id` is
    /// registered.
    pub open spec fn assessor_index(self, id: u64) -> int {
        choose|j: int| 0 <= j < self.assessors.len() && self.assessors[j].identity == id
    }

    /// Well-formedness, preserved by every operation: the published score is
    /// in range, the assessment counter equals the number of assessment
    /// records (so sequence ids form the dense range below it), assessor
    /// identities are unique, and every assessment was committed by a
    /// registered assessor, carries a 32-byte commitment, and holds an
    /// in-range score.
    pub open spec fn wf(self) -> bool {
        &&& self.state.current_score <= 100
        &&& self.state.assessment_count == self.assessments.len()
        &&& forall|j: int, k: int|
            0 <= j < k < self.assessors.len() ==> self.assessors[j].identity
                != self.assessors[k].identity
        &&& forall|i: int|
            0 <= i < self.assessments.len() ==> self.is_registered(
                #[trigger] self.assessments[i].assessor,
            )
        &&& forall|i: int|
            0 <= i < self.assessments.len() ==> (#[trigger] self.assessments[i].commitment_hash).len()
                == 32
        &&& forall|i: int|
            0 <= i < self.assessments.len() ==> (#[trigger] self.assessments[i].score) <= 100
    }
}

/// The oracle as first created: the caller becomes the authority, no
/// assessments exist, and the published value starts at (50, Neutral).
pub open spec fn spec_initialize(authority: u64, now: i64) -> OracleView {
    OracleView {
        state: OracleState {
            authority,
            assessment_count: 0,
            last_update: now,
            current_score: 50,
            current_bias: RiskBias::Neutral,
        },
        assessors: Seq::empty(),
        assessments: Seq::empty(),
    }
}

/// What registering `target` does: rejected with Unauthorized unless the
/// caller is the authority; otherwise a fresh active assessor record is
/// appended and nothing else changes.
pub open spec fn spec_register(pre: OracleView, caller: u64, target: u64, now: i64) -> (
    OracleView,
    Result<AssessorRegistered, ErrorCode>,
) {
    if caller != pre.state.authority {
        (pre, Err(ErrorCode::Unauthorized))
    } else {
        (
            OracleView {
                assessors: pre.assessors.push(
                    Assessor {
                        identity: target,
                        total_assessments: 0,
                        registered_at: now,
                        active: true,
                    },
                ),
                ..pre
            },
            Ok(AssessorRegistered { assessor: target, timestamp: now }),
        )
    }
}

/// What committing `hash` does: rejected with AssessorInactive unless the
/// caller is an active assessor, and with Overflow when the counter is
/// exhausted; otherwise an unrevealed assessment with the next sequence id is
/// appended, the counter advances by one, and the id is handed back.
pub open spec fn spec_commit(pre: OracleView, caller: u64, hash: Seq<u8>, now: i64) -> (
    OracleView,
    Result<u64, ErrorCode>,
) {
    if !pre.is_active(caller) {
        (pre, Err(ErrorCode::AssessorInactive))
    } else if pre.state.assessment_count == u64::MAX {
        (pre, Err(ErrorCode::Overflow))
    } else {
        let id = pre.state.assessment_count;
        (
            OracleView {
                state: OracleState { assessment_count: (id + 1) as u64, ..pre.state },
                assessments: pre.assessments.push(
                    AssessmentView {
                        assessor: caller,
                        timestamp: now,
                        score: 0,
                        bias: RiskBias::Neutral,
                        commitment_hash: hash,
                        revealed: false,
                    },
                ),
                ..pre
            },
            Ok(id),
        )
    }
}

/// What revealing (score, bias, salt) does. The reveal targets the most
/// recently committed assessment, the one with sequence id
/// `assessment_count - 1`. It is rejected with Unauthorized unless the caller
/// is that assessment's assessor, with AlreadyRevealed when the assessment
/// was revealed before, with InvalidScore when the score exceeds 100, with
/// InvalidCommitment when the digest of the canonical preimage differs from
/// the stored commitment, and with Overflow when the assessor's reveal
/// counter is exhausted. Otherwise the assessment becomes revealed with the
/// disclosed values, the published value and timestamp follow them, and the
/// assessor's reveal counter advances by one.
pub open spec fn spec_reveal(
    pre: OracleView,
    caller: u64,
    score: u8,
    bias: RiskBias,
    salt: Seq<u8>,
    now: i64,
) -> (OracleView, Result<RiskUpdated, ErrorCode>) {
    let id = pre.state.assessment_count - 1;
    let a = pre.assessments[id];
    if caller != a.assessor {
        (pre, Err(ErrorCode::Unauthorized))
    } else if a.revealed {
        (pre, Err(ErrorCode::AlreadyRevealed))
    } else if score > 100 {
        (pre, Err(ErrorCode::InvalidScore))
    } else if digest_of(spec_commitment_preimage(score, bias, salt)) != a.commitment_hash {
        (pre, Err(ErrorCode::InvalidCommitment))
    } else if pre.assessors[pre.assessor_index(caller)].total_assessments == u64::MAX {
        (pre, Err(ErrorCode::Overflow))
    } else {
        let j = pre.assessor_index(caller);
        (
            OracleView {
                state: OracleState {
                    current_score: score,
                    current_bias: bias,
                    last_update: now,
                    ..pre.state
                },
                assessors: pre.assessors.update(
                    j,
                    (Assessor {
                        total_assessments: (pre.assessors[j].total_assessments + 1) as u64,
                        ..pre.assessors[j]
                    }),
                ),
                assessments: pre.assessments.update(
                    id,
                    (AssessmentView { score, bias, revealed: true, ..a }),
                ),
            },
            Ok(
                RiskUpdated {
                    assessment_id: (pre.state.assessment_count - 1) as u64,
                    score,
                    bias,
                    timestamp: now,
                    assessor: caller,
                },
            ),
        )
    }
}

/// The oracle: its published state plus every assessor and assessment record,
/// as the record store holds them. A sequence id is an index into
/// `assessments`.
pub struct Oracle {
    pub state: OracleState,
    pub assessors: Vec<Assessor>,
    pub assessments: Vec<RiskAssessment>,
}

impl View for Oracle {
    type V = OracleView;

    open spec fn view(&self) -> OracleView {
        OracleView {
            state: self.state,
            assessors: self.assessors@,
            assessments: self.assessments@.map_values(|a: RiskAssessment| a@),
        }
    }
}

impl Oracle {
    /// Returns the index of `id`'s assessor record, if one exists.
    fn find_assessor(&self, id: u64) -> (r: Option<usize>)
        ensures
            match r {
                Some(j) => j < self@.assessors.len() && self@.assessors[j as int].identity == id,
                None => !self@.is_registered(id),
            },
    {
        let mut j: usize = 0;
        while j < self.assessors.len()
            invariant
                j <= self.assessors@.len(),
                forall|k: int| 0 <= k < j ==> self.assessors@[k].identity != id,
            decreases self.assessors@.len() - j,
        {
            if self.assessors[j].identity == id {
                return Some(j);
            }
            j += 1;
        }
        None
    }

    /// The authorization guard for commits: whether `id` is registered and
    /// active.
    pub fn assessor_active(&self, id: u64) -> (b: bool)
        requires
            self@.wf(),
        ensures
            b == self@.is_active(id),
    {
        match self.find_assessor(id) {
            Some(j) => {
                let act = self.assessors[j].active;
                proof {
                    if act {
                        assert(self@.is_active(id));
                    } else if self@.is_active(id) {
                        let w = choose|k: int|
                            0 <= k < self@.assessors.len() && self@.assessors[k].identity == id
                                && self@.assessors[k].active;
                        if w < j as int {
                            assert(self@.assessors[w].identity != self@.assessors[j as int].identity);
                        }
                        if (j as int) < w {
                            assert(self@.assessors[j as int].identity != self@.assessors[w].identity);
                        }
                        assert(false);
                    }
                }
                act
            },
            None => {
                proof {
                    if self@.is_active(id) {
                        let w = choose|k: int|
                            0 <= k < self@.assessors.len() && self@.assessors[k].identity == id
                                && self@.assessors[k].active;
                        assert(0 <= w < self@.assessors.len() && self@.assessors[w].identity == id);
                        assert(self@.is_registered(id));
                        assert(false);
                    }
                }
                false
            },
        }
    }

    /// Sets up the oracle. The caller becomes the authority; the published
    /// value starts at score 50 with Neutral bias and no assessments.
    pub fn initialize(authority: u64, now: i64) -> (r: Oracle)
        ensures
            r@ == spec_initialize(authority, now),
            r@.wf(),
    {
        let o = Oracle {
            state: OracleState {
                authority,
                assessment_count: 0,
                last_update: now,
                current_score: 50,
                current_bias: RiskBias::Neutral,
            },
            assessors: Vec::new(),
            assessments: Vec::new(),
        };
        proof {
            assert(o@ =~= spec_initialize(authority, now));
        }
        o
    }

    /// Registers `target` as a new active assessor. Only the authority may do
    /// so; any other caller is rejected with Unauthorized and nothing
    /// changes.
    pub fn register_assessor(&mut self, caller: u64, target: u64, now: i64) -> (r: Result<
        AssessorRegistered,
        ErrorCode,
    >)
        requires
            old(self)@.wf(),
            caller == old(self)@.state.authority ==> !old(self)@.is_registered(target),
        ensures
            final(self)@ == spec_register(old(self)@, caller, target, now).0,
            r == spec_register(old(self)@, caller, target, now).1,
            final(self)@.wf(),
            caller != old(self)@.state.authority ==> r == Err::<AssessorRegistered, ErrorCode>(
                ErrorCode::Unauthorized,
            ) && final(self)@ == old(self)@,
            r is Ok ==> final(self)@.is_active(target),
            final(self)@.state == old(self)@.state,
            final(self)@.assessments == old(self)@.assessments,
    {
        if caller != self.state.authority {
            return Err(ErrorCode::Unauthorized);
        }
        let rec = Assessor { identity: target, total_assessments: 0, registered_at: now, active: true };
        self.assessors.push(rec);
        proof {
            let pre = old(self)@;
            let post = spec_register(pre, caller, target, now).0;
            assert(self@ =~= post);
            assert forall|j: int, k: int|
                0 <= j < k < post.assessors.len() implies post.assessors[j].identity
                != post.assessors[k].identity by {
                if k == post.assessors.len() - 1 {
                    if post.assessors[j].identity == target {
                        assert(0 <= j < pre.assessors.len() && pre.assessors[j].identity == target);
                        assert(pre.is_registered(target));
                    }
                }
            }
            assert forall|i: int|
                0 <= i < post.assessments.len() implies post.is_registered(
                #[trigger] post.assessments[i].assessor,
            ) by {
                assert(pre.is_registered(pre.assessments[i].assessor));
                let w = choose|j: int|
                    0 <= j < pre.assessors.len() && pre.assessors[j].identity
                        == pre.assessments[i].assessor;
                assert(post.assessors[w].identity == post.assessments[i].assessor);
            }
            assert(post.assessors[post.assessors.len() - 1].identity == target
                && post.assessors[post.assessors.len() - 1].active);
        }
        Ok(AssessorRegistered { assessor: target, timestamp: now })
    }

    /// Records a new commitment by `caller` and hands back the sequence id it
    /// received. Only an active assessor may commit; the assessment counter
    /// advances by exactly one on success and the published value is
    /// untouched.
    pub fn commit_assessment(&mut self, caller: u64, commitment_hash: Vec<u8>, now: i64) -> (r:
        Result<u64, ErrorCode>)
        requires
            old(self)@.wf(),
            commitment_hash@.len() == 32,
        ensures
            final(self)@ == spec_commit(old(self)@, caller, commitment_hash@, now).0,
            r == spec_commit(old(self)@, caller, commitment_hash@, now).1,
            final(self)@.wf(),
            !old(self)@.is_active(caller) ==> r == Err::<u64, ErrorCode>(
                ErrorCode::AssessorInactive,
            ) && final(self)@ == old(self)@,
            r is Err ==> final(self)@ == old(self)@,
            r is Ok ==> final(self)@.state.assessment_count
                == old(self)@.state.assessment_count + 1
                && r->Ok_0 == old(self)@.state.assessment_count,
            final(self)@.state.assessment_count >= old(self)@.state.assessment_count,
            final(self)@.state.current_score == old(self)@.state.current_score,
            final(self)@.state.current_bias == old(self)@.state.current_bias,
            final(self)@.state.authority == old(self)@.state.authority,
            final(self)@.assessors == old(self)@.assessors,
    {
        if !self.assessor_active(caller) {
            return Err(ErrorCode::AssessorInactive);
        }
        if self.state.assessment_count == u64::MAX {
            return Err(ErrorCode::Overflow);
        }
        let id = self.state.assessment_count;
        let rec = RiskAssessment {
            assessor: caller,
            timestamp: now,
            score: 0,
            bias: RiskBias::Neutral,
            commitment_hash,
            revealed: false,
        };
        self.assessments.push(rec);
        self.state.assessment_count = id + 1;
        proof {
            let pre = old(self)@;
            let post = spec_commit(pre, caller, rec@.commitment_hash, now).0;
            assert(self.assessments@ == old(self).assessments@.push(rec));
            assert(self.assessments@.map_values(|a: RiskAssessment| a@)
                =~= old(self).assessments@.map_values(|a: RiskAssessment| a@).push(rec@));
            assert(self@ =~= post);
            let w = choose|k: int|
                0 <= k < pre.assessors.len() && pre.assessors[k].identity == caller
                    && pre.assessors[k].active;
            assert forall|i: int|
                0 <= i < post.assessments.len() implies post.is_registered(
                #[trigger] post.assessments[i].assessor,
            ) by {
                if i < pre.assessments.len() {
                    assert(pre.is_registered(pre.assessments[i].assessor));
                    let v = choose|j: int|
                        0 <= j < pre.assessors.len() && pre.assessors[j].identity
                            == pre.assessments[i].assessor;
                    assert(post.assessors[v].identity == post.assessments[i].assessor);
                } else {
                    assert(post.assessors[w].identity == caller);
                }
            }
        }
        Ok(id)
    }

    /// Reveals (score, bias, salt) against the most recently committed
    /// assessment. On success the assessment becomes revealed with exactly
    /// these values and the published score and bias equal them; on any
    /// failure the oracle is unchanged.
    pub fn reveal_assessment(
        &mut self,
        caller: u64,
        score: u8,
        bias: RiskBias,
        salt: &[u8],
        now: i64,
    ) -> (r: Result<RiskUpdated, ErrorCode>)
        requires
            old(self)@.wf(),
            old(self)@.state.assessment_count >= 1,
        ensures
            final(self)@ == spec_reveal(old(self)@, caller, score, bias, salt@, now).0,
            r == spec_reveal(old(self)@, caller, score, bias, salt@, now).1,
            final(self)@.wf(),
            r is Err ==> final(self)@ == old(self)@,
            r is Ok ==> final(self)@.state.current_score == score
                && final(self)@.state.current_bias == bias
                && final(self)@.state.last_update == now,
            final(self)@.state.assessment_count == old(self)@.state.assessment_count,
            final(self)@.state.authority == old(self)@.state.authority,
    {
        proof {
            assert(self@.assessments.len() == self.assessments@.len());
            assert(self.assessments@.len() >= 1);
        }
        let idx_u64 = self.state.assessment_count - 1;
        let idx = self.assessments.len() - 1;
        proof {
            assert(idx as int == old(self)@.state.assessment_count - 1);
            assert(self@.assessments[idx as int] == self.assessments@[idx as int]@);
        }
        let target_assessor = self.assessments[idx].assessor;
        if caller != target_assessor {
            return Err(ErrorCode::Unauthorized);
        }
        if self.assessments[idx].revealed {
            return Err(ErrorCode::AlreadyRevealed);
        }
        if score > 100 {
            return Err(ErrorCode::InvalidScore);
        }
        let computed = commitment_digest(score, bias, salt);
        let matches_commitment = bytes_eq(
            computed.as_slice(),
            self.assessments[idx].commitment_hash.as_slice(),
        );
        if !matches_commitment {
            return Err(ErrorCode::InvalidCommitment);
        }
        let j = match self.find_assessor(caller) {
            Some(j) => j,
            None => {
                proof {
                    assert(old(self)@.is_registered(old(self)@.assessments[idx as int].assessor));
                    assert(false);
                }
                return Err(ErrorCode::Unauthorized);
            },
        };
        proof {
            let pre = old(self)@;
            let ai = pre.assessor_index(caller);
            assert(0 <= ai < pre.assessors.len() && pre.assessors[ai].identity == caller) by {
                assert(pre.is_registered(pre.assessments[idx as int].assessor));
            }
            if (j as int) < ai {
                assert(pre.assessors[j as int].identity != pre.assessors[ai].identity);
            }
            if ai < j as int {
                assert(pre.assessors[ai].identity != pre.assessors[j as int].identity);
            }
            assert(j as int == pre.assessor_index(caller));
        }
        if self.assessors[j].total_assessments == u64::MAX {
            return Err(ErrorCode::Overflow);
        }
        let prev = &self.assessments[idx];
        let updated = RiskAssessment {
            assessor: prev.assessor,
            timestamp: prev.timestamp,
            score,
            bias,
            commitment_hash: prev.commitment_hash.clone(),
            revealed: true,
        };
        self.assessments[idx] = updated;
        let prev_assessor = self.assessors[j];
        self.assessors[j] = Assessor {
            identity: prev_assessor.identity,
            total_assessments: prev_assessor.total_assessments + 1,
            registered_at: prev_assessor.registered_at,
            active: prev_assessor.active,
        };
        self.state.current_score = score;
        self.state.current_bias = bias;
        self.state.last_update = now;
        proof {
            let pre = old(self)@;
            let post = spec_reveal(pre, caller, score, bias, salt@, now).0;
            assert(self.assessments@.map_values(|a: RiskAssessment| a@) =~= pre.assessments.update(
                idx as int,
                self.assessments@.map_values(|a: RiskAssessment| a@)[idx as int],
            ));
            assert(self@ =~= post);
            assert forall|m: int|
                0 <= m < post.assessors.len() implies (#[trigger] post.assessors[m].identity)
                == pre.assessors[m].identity by {}
            assert forall|j2: int, k2: int|
                0 <= j2 < k2 < post.assessors.len() implies post.assessors[j2].identity
                != post.assessors[k2].identity by {
                assert(pre.assessors[j2].identity != pre.assessors[k2].identity);
            }
            assert forall|i: int|
                0 <= i < post.assessments.len() implies post.is_registered(
                #[trigger] post.assessments[i].assessor,
            ) by {
                assert(pre.is_registered(pre.assessments[i].assessor));
                let v = choose|n: int|
                    0 <= n < pre.assessors.len() && pre.assessors[n].identity
                        == pre.assessments[i].assessor;
                assert(post.assessors[v].identity == post.assessments[i].assessor);
            }
        }
        Ok(
            RiskUpdated {
                assessment_id: idx_u64,
                score,
                bias,
                timestamp: now,
                assessor: caller,
            },
        )
    }

    /// Returns a copy of the assessment with sequence id `id`, or None when
    /// no record with that id exists.
    pub fn query_assessment(&self, id: u64) -> (r: Option<RiskAssessment>)
        ensures
            match r {
                Some(a) => id < self@.assessments.len() && a@ == self@.assessments[id as int],
                None => id >= self@.assessments.len(),
            },
    {
        if id < self.assessments.len() as u64 {
            let idx = id as usize;
            let a = &self.assessments[idx];
            let copy = RiskAssessment {
                assessor: a.assessor,
                timestamp: a.timestamp,
                score: a.score,
                bias: a.bias,
                commitment_hash: a.commitment_hash.clone(),
                revealed: a.revealed,
            };
            proof {
                assert(copy@ =~= self@.assessments[id as int]);
            }
            Some(copy)
        } else {
            None
        }
    }

    /// Returns the oracle's published state: the latest score and bias, the
    /// assessment counter, and the last-update timestamp.
    pub fn get_latest(&self) -> (r: OracleState)
        ensures
            r == self@.state,
    {
        self.state
    }
}

} // verus!
