use vstd::prelude::*;

use crate::parser::ParsedEvent;

verus! {

/// Behavioural state of one source address. Times are in seconds.
#[derive(Debug, Clone)]
pub struct IpState {
    pub ip: String,
    pub request_count: u64,
    pub error_count: u64,
    pub last_seen: u64,
    pub first_seen: u64,
    /// Signed accumulator for stateful scoring; saturates at the bounds of `i32`.
    pub score: i32,
    pub blocked: bool,
}

/// A status that counts as an error.
pub open spec fn is_error_status(status: u16) -> bool {
    status >= 400
}

/// A counter advanced by one, held at the largest value once it reaches it.
pub open spec fn bump(n: u64) -> u64 {
    if n == u64::MAX { n } else { (n + 1) as u64 }
}

/// The later of two times.
pub open spec fn later(a: u64, b: u64) -> u64 {
    if a >= b { a } else { b }
}

/// `x` held within the bounds of `i32`.
pub open spec fn clamp_i32(x: int) -> i32 {
    if x > i32::MAX { i32::MAX } else if x < i32::MIN { i32::MIN } else { x as i32 }
}

/// Time elapsed since the address was last seen, zero if `now` lies before it.
pub open spec fn age_at(s: IpState, now: u64) -> u64 {
    if now >= s.last_seen { (now - s.last_seen) as u64 } else { 0 }
}

/// `s` is the state of `ip` as first observed at `now`, before anything is recorded.
pub open spec fn is_fresh(s: IpState, ip: Seq<char>, now: u64) -> bool {
    &&& s.ip@ == ip
    &&& s.request_count == 0
    &&& s.error_count == 0
    &&& s.first_seen == now
    &&& s.last_seen == now
    &&& s.score == 0
    &&& !s.blocked
}

/// `after` is `before` with `ev` recorded: one more request, one more error when
/// the status is an error, and the last-seen time moved to the event's time
/// (never backwards).
pub open spec fn records(before: IpState, ev: ParsedEvent, after: IpState) -> bool {
    &&& after.ip == before.ip
    &&& after.request_count == bump(before.request_count)
    &&& after.error_count == if is_error_status(ev.status) {
        bump(before.error_count)
    } else {
        before.error_count
    }
    &&& after.last_seen == later(before.last_seen, ev.timestamp)
    &&& after.first_seen == before.first_seen
    &&& after.score == before.score
    &&& after.blocked == before.blocked
}

/// `after` is the state of a new address after its first event `ev`.
pub open spec fn records_first(ev: ParsedEvent, after: IpState) -> bool {
    &&& after.ip@ == ev.ip@
    &&& after.request_count == 1
    &&& after.error_count == if is_error_status(ev.status) { 1u64 } else { 0u64 }
    &&& after.first_seen == ev.timestamp
    &&& after.last_seen == ev.timestamp
    &&& after.score == 0
    &&& !after.blocked
}

/// `after` is `before` with the blocked flag set.
pub open spec fn marks_blocked(before: IpState, after: IpState) -> bool {
    &&& after.ip == before.ip
    &&& after.request_count == before.request_count
    &&& after.error_count == before.error_count
    &&& after.last_seen == before.last_seen
    &&& after.first_seen == before.first_seen
    &&& after.score == before.score
    &&& after.blocked
}

impl IpState {
    /// The timestamps are ordered.
    pub open spec fn wf(&self) -> bool {
        self.first_seen <= self.last_seen
    }

    /// A fresh state for `ip`, first and last seen at `now`.
    pub fn new(ip: String, now: u64) -> (r: Self)
        ensures
            is_fresh(r, ip@, now),
            r.ip == ip,
            r.wf(),
    {
        IpState {
            ip,
            request_count: 0,
            error_count: 0,
            first_seen: now,
            last_seen: now,
            score: 0,
            blocked: false,
        }
    }

    /// Records one observed request.
    pub fn record(&mut self, event: &ParsedEvent)
        ensures
            records(*old(self), *event, *final(self)),
            old(self).wf() ==> final(self).wf(),
    {
        self.request_count = self.request_count.saturating_add(1);
        if event.timestamp > self.last_seen {
            self.last_seen = event.timestamp;
        }
        if event.status >= 400 {
            self.error_count = self.error_count.saturating_add(1);
        }
    }

    /// Counts one request seen at `now`.
    pub fn record_request(&mut self, now: u64)
        ensures
            final(self).request_count == bump(old(self).request_count),
            final(self).last_seen == later(old(self).last_seen, now),
            final(self).ip == old(self).ip,
            final(self).error_count == old(self).error_count,
            final(self).first_seen == old(self).first_seen,
            final(self).score == old(self).score,
            final(self).blocked == old(self).blocked,
    {
        self.request_count = self.request_count.saturating_add(1);
        if now > self.last_seen {
            self.last_seen = now;
        }
    }

    /// Counts one error seen at `now`.
    pub fn record_error(&mut self, now: u64)
        ensures
            final(self).error_count == bump(old(self).error_count),
            final(self).last_seen == later(old(self).last_seen, now),
            final(self).ip == old(self).ip,
            final(self).request_count == old(self).request_count,
            final(self).first_seen == old(self).first_seen,
            final(self).score == old(self).score,
            final(self).blocked == old(self).blocked,
    {
        self.error_count = self.error_count.saturating_add(1);
        if now > self.last_seen {
            self.last_seen = now;
        }
    }

    /// Adds `delta` to the accumulated score, saturating at the bounds of `i32`.
    pub fn add_score(&mut self, delta: i32)
        ensures
            final(self).score == clamp_i32(old(self).score + delta),
            final(self).ip == old(self).ip,
            final(self).request_count == old(self).request_count,
            final(self).error_count == old(self).error_count,
            final(self).last_seen == old(self).last_seen,
            final(self).first_seen == old(self).first_seen,
            final(self).blocked == old(self).blocked,
    {
        let sum: i64 = self.score as i64 + delta as i64;
        if sum > i32::MAX as i64 {
            self.score = i32::MAX;
        } else if sum < i32::MIN as i64 {
            self.score = i32::MIN;
        } else {
            self.score = sum as i32;
        }
    }

    /// Sets the blocked flag.
    pub fn mark_blocked(&mut self)
        ensures
            final(self).blocked,
            final(self).ip == old(self).ip,
            final(self).request_count == old(self).request_count,
            final(self).error_count == old(self).error_count,
            final(self).last_seen == old(self).last_seen,
            final(self).first_seen == old(self).first_seen,
            final(self).score == old(self).score,
    {
        self.blocked = true;
    }

    /// Seconds since the address was last seen.
    pub fn age(&self, now: u64) -> (r: u64)
        ensures
            r == age_at(*self, now),
    {
        now.saturating_sub(self.last_seen)
    }

    /// A copy of this state.
    pub fn snapshot(&self) -> (r: Self)
        ensures
            r == *self,
    {
        IpState {
            ip: self.ip.clone(),
            request_count: self.request_count,
            error_count: self.error_count,
            last_seen: self.last_seen,
            first_seen: self.first_seen,
            score: self.score,
            blocked: self.blocked,
        }
    }
}

} // verus!
