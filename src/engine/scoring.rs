use vstd::prelude::*;

use crate::config::schema::ScoringConfig;
use crate::model::ip_state::IpState;

verus! {

/// A score and the signals that contributed to it, in signal order.
#[derive(Debug, Clone)]
pub struct ScoreResult {
    pub score: u64,
    pub reasons: Vec<ScoreReason>,
}

/// A signal that fired, with the raw count behind it.
#[derive(Debug, Clone, Copy, PartialEq, Eq, Structural)]
pub enum ScoreReason {
    HighRate { count: u64 },
    HighErrorRate { errors: u64 },
}

impl ScoreResult {
    /// A copy of this result.
    pub fn snapshot(&self) -> (r: ScoreResult)
        ensures
            r.score == self.score,
            r.reasons@ == self.reasons@,
    {
        let mut reasons = Vec::new();
        let mut i: usize = 0;
        while i < self.reasons.len()
            invariant
                i <= self.reasons@.len(),
                reasons@ == self.reasons@.take(i as int),
            decreases self.reasons@.len() - i,
        {
            reasons.push(self.reasons[i]);
            i = i + 1;
            assert(reasons@ =~= self.reasons@.take(i as int));
        }
        assert(reasons@ =~= self.reasons@);
        ScoreResult { score: self.score, reasons }
    }
}

/// The contribution of one signal: its raw count, capped at the signal's weight.
pub open spec fn capped(raw: u64, weight: u32) -> int {
    if raw <= weight { raw as int } else { weight as int }
}

/// The score of an address with `requests` requests and `errors` errors.
pub open spec fn score_of(requests: u64, errors: u64, rate: u32, error: u32) -> int {
    capped(requests, rate) + capped(errors, error)
}

/// The reasons reported for `requests` requests and `errors` errors: one per
/// nonzero count, rate first.
pub open spec fn reasons_of(requests: u64, errors: u64) -> Seq<ScoreReason> {
    (if requests > 0 {
        seq![ScoreReason::HighRate { count: requests }]
    } else {
        Seq::empty()
    }) + (if errors > 0 {
        seq![ScoreReason::HighErrorRate { errors: errors }]
    } else {
        Seq::empty()
    })
}

/// Some reason of `rs` is a request-rate reason.
pub open spec fn has_rate_reason(rs: Seq<ScoreReason>) -> bool {
    exists|i: int| 0 <= i < rs.len() && rs[i] is HighRate
}

/// Some reason of `rs` is an error-rate reason.
pub open spec fn has_error_reason(rs: Seq<ScoreReason>) -> bool {
    exists|i: int| 0 <= i < rs.len() && rs[i] is HighErrorRate
}

/// Scores an address's counters against the configured weights. Each signal
/// adds its count capped at its weight, and reports a reason when its count is
/// nonzero.
pub fn score_ip(state: &IpState, cfg: &ScoringConfig) -> (res: ScoreResult)
    ensures
        res.score == score_of(state.request_count, state.error_count, cfg.weights.rate, cfg.weights.error),
        res.reasons@ == reasons_of(state.request_count, state.error_count),
        has_rate_reason(res.reasons@) <==> state.request_count > 0,
        has_error_reason(res.reasons@) <==> state.error_count > 0,
        state.request_count == 0 && state.error_count == 0 ==> res.score == 0 && res.reasons@.len() == 0,
{
    let mut score: u64 = 0;
    let mut reasons: Vec<ScoreReason> = Vec::new();

    if state.request_count > 0 {
        let rate = cfg.weights.rate as u64;
        let rate_score = if state.request_count <= rate { state.request_count } else { rate };
        score = score + rate_score;
        reasons.push(ScoreReason::HighRate { count: state.request_count });
    }
    if state.error_count > 0 {
        let error = cfg.weights.error as u64;
        let error_score = if state.error_count <= error { state.error_count } else { error };
        score = score + error_score;
        reasons.push(ScoreReason::HighErrorRate { errors: state.error_count });
    }

    let ghost rs = reasons@;
    proof {
        assert(rs =~= reasons_of(state.request_count, state.error_count));
        if state.request_count > 0 {
            assert(rs[0] is HighRate);
        }
        if state.error_count > 0 {
            assert(rs[rs.len() - 1] is HighErrorRate);
        }
    }
    ScoreResult { score, reasons }
}

} // verus!
