//! Laws of the commit-reveal protocol, proved over the spec-level transition
//! functions that the operations' own contracts are stated against.

use crate::bias::RiskBias;
use crate::codec::{digest_of, spec_commitment_preimage};
use crate::error::ErrorCode;
use crate::oracle::{spec_commit, spec_register, spec_reveal, OracleView};
use vstd::prelude::*;

verus! {

/// Law: after an active assessor commits the digest of (score, bias, salt),
/// revealing that same triple succeeds, and revealing the same record a
/// second time — with any triple whatsoever — fails with AlreadyRevealed.
/// The reveal thus succeeds exactly once per commitment.
pub proof fn lemma_reveal_after_commit(
    pre: OracleView,
    caller: u64,
    score: u8,
    bias: RiskBias,
    salt: Seq<u8>,
    commit_time: i64,
    reveal_time: i64,
    score2: u8,
    bias2: RiskBias,
    salt2: Seq<u8>,
    second_time: i64,
)
    requires
        pre.wf(),
        pre.is_active(caller),
        score <= 100,
        pre.state.assessment_count < u64::MAX,
        pre.assessors[pre.assessor_index(caller)].total_assessments < u64::MAX,
    ensures
        spec_commit(
            pre,
            caller,
            digest_of(spec_commitment_preimage(score, bias, salt)),
            commit_time,
        ).1 is Ok,
        spec_reveal(
            spec_commit(
                pre,
                caller,
                digest_of(spec_commitment_preimage(score, bias, salt)),
                commit_time,
            ).0,
            caller,
            score,
            bias,
            salt,
            reveal_time,
        ).1 is Ok,
        spec_reveal(
            spec_reveal(
                spec_commit(
                    pre,
                    caller,
                    digest_of(spec_commitment_preimage(score, bias, salt)),
                    commit_time,
                ).0,
                caller,
                score,
                bias,
                salt,
                reveal_time,
            ).0,
            caller,
            score2,
            bias2,
            salt2,
            second_time,
        ).1 == Err::<crate::state::RiskUpdated, ErrorCode>(ErrorCode::AlreadyRevealed),
{
    let h = digest_of(spec_commitment_preimage(score, bias, salt));
    let s1 = spec_commit(pre, caller, h, commit_time).0;
    let id = pre.state.assessment_count as int;
    assert(s1.assessments[id].assessor == caller);
    assert(!s1.assessments[id].revealed);
    assert(s1.assessments[id].commitment_hash == h);
    let s2 = spec_reveal(s1, caller, score, bias, salt, reveal_time).0;
    assert(s2.state.assessment_count == s1.state.assessment_count);
    assert(s2.assessments[id].revealed);
    assert(s2.assessments[id].assessor == caller);
}

/// Law: after an active assessor commits the digest of one triple, revealing
/// a triple whose digest differs fails with InvalidCommitment and leaves the
/// oracle exactly as the commit left it. A triple that merely differs from
/// the committed one is covered whenever its digest differs; nothing is
/// claimed about digest collisions, which the codec leaves unstated.
pub proof fn lemma_reveal_mismatch(
    pre: OracleView,
    caller: u64,
    score: u8,
    bias: RiskBias,
    salt: Seq<u8>,
    commit_time: i64,
    score2: u8,
    bias2: RiskBias,
    salt2: Seq<u8>,
    reveal_time: i64,
)
    requires
        pre.wf(),
        pre.is_active(caller),
        score2 <= 100,
        pre.state.assessment_count < u64::MAX,
        digest_of(spec_commitment_preimage(score2, bias2, salt2)) != digest_of(
            spec_commitment_preimage(score, bias, salt),
        ),
    ensures
        spec_reveal(
            spec_commit(
                pre,
                caller,
                digest_of(spec_commitment_preimage(score, bias, salt)),
                commit_time,
            ).0,
            caller,
            score2,
            bias2,
            salt2,
            reveal_time,
        ) == (
            spec_commit(
                pre,
                caller,
                digest_of(spec_commitment_preimage(score, bias, salt)),
                commit_time,
            ).0,
            Err::<crate::state::RiskUpdated, ErrorCode>(ErrorCode::InvalidCommitment),
        ),
{
    let h = digest_of(spec_commitment_preimage(score, bias, salt));
    let s1 = spec_commit(pre, caller, h, commit_time).0;
    let id = pre.state.assessment_count as int;
    assert(s1.assessments[id].assessor == caller);
    assert(!s1.assessments[id].revealed);
    assert(s1.assessments[id].commitment_hash == h);
}

/// Law: the assessment counter never decreases under any operation; it is
/// unchanged by registration and by every reveal, and a commit advances it by
/// exactly one when it succeeds and not at all when it fails. Together with
/// well-formedness — the counter always equals the number of assessment
/// records — sequence ids form the dense range below the counter.
pub proof fn lemma_count_monotonic(
    pre: OracleView,
    caller: u64,
    target: u64,
    hash: Seq<u8>,
    score: u8,
    bias: RiskBias,
    salt: Seq<u8>,
    now: i64,
)
    ensures
        spec_register(pre, caller, target, now).0.state.assessment_count
            == pre.state.assessment_count,
        spec_reveal(pre, caller, score, bias, salt, now).0.state.assessment_count
            == pre.state.assessment_count,
        spec_commit(pre, caller, hash, now).0.state.assessment_count
            >= pre.state.assessment_count,
        spec_commit(pre, caller, hash, now).1 is Ok ==> spec_commit(
            pre,
            caller,
            hash,
            now,
        ).0.state.assessment_count == pre.state.assessment_count + 1,
        spec_commit(pre, caller, hash, now).1 is Err ==> spec_commit(
            pre,
            caller,
            hash,
            now,
        ).0 == pre,
{
}

/// Law: the published score and bias change only as the direct result of a
/// successful reveal, and immediately after one they equal exactly the
/// revealed values. Registration, commits, and failed reveals leave them
/// untouched.
pub proof fn lemma_published_value(
    pre: OracleView,
    caller: u64,
    target: u64,
    hash: Seq<u8>,
    score: u8,
    bias: RiskBias,
    salt: Seq<u8>,
    now: i64,
)
    ensures
        spec_register(pre, caller, target, now).0.state.current_score
            == pre.state.current_score,
        spec_register(pre, caller, target, now).0.state.current_bias == pre.state.current_bias,
        spec_commit(pre, caller, hash, now).0.state.current_score == pre.state.current_score,
        spec_commit(pre, caller, hash, now).0.state.current_bias == pre.state.current_bias,
        spec_reveal(pre, caller, score, bias, salt, now).1 is Err ==> spec_reveal(
            pre,
            caller,
            score,
            bias,
            salt,
            now,
        ).0 == pre,
        spec_reveal(pre, caller, score, bias, salt, now).1 is Ok ==> spec_reveal(
            pre,
            caller,
            score,
            bias,
            salt,
            now,
        ).0.state.current_score == score && spec_reveal(
            pre,
            caller,
            score,
            bias,
            salt,
            now,
        ).0.state.current_bias == bias,
{
}

} // verus!
