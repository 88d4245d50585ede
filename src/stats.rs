//! Per-term request statistics: counters and a bounded window of recent latencies.

use std::collections::VecDeque;
use vstd::prelude::*;

verus! {

/// How many recent latencies a tracker keeps.
pub const MAX_RECENT_REQUESTS: usize = 2000;

/// Basic stats about a tracker's requests.
pub struct StatTracker {
    /// The latencies of the most recent requests, oldest first, in milliseconds.
    pub recent_requests: VecDeque<usize>,
    /// The number of requests that have been made thus far.
    pub num_requests: usize,
    /// The total time spent on those requests, in milliseconds.
    pub total_time_spent: usize,
}

/// What a `StatTracker` holds, as mathematical values.
pub ghost struct StatsView {
    pub num_requests: nat,
    pub total_time_spent: nat,
    pub recent: Seq<usize>,
}

impl View for StatTracker {
    type V = StatsView;

    open spec fn view(&self) -> StatsView {
        StatsView {
            num_requests: self.num_requests as nat,
            total_time_spent: self.total_time_spent as nat,
            recent: self.recent_requests@,
        }
    }
}

/// The last `MAX_RECENT_REQUESTS` items of `s`, or all of them when there are fewer.
pub open spec fn window(s: Seq<usize>) -> Seq<usize> {
    if s.len() > MAX_RECENT_REQUESTS {
        s.subrange(s.len() - MAX_RECENT_REQUESTS, s.len() as int)
    } else {
        s
    }
}

/// The stats after one more request that took `t` milliseconds.
pub open spec fn record_step(v: StatsView, t: usize) -> StatsView {
    StatsView {
        num_requests: v.num_requests + 1,
        total_time_spent: v.total_time_spent + t as nat,
        recent: window(v.recent.push(t)),
    }
}

pub open spec fn empty_stats() -> StatsView {
    StatsView { num_requests: 0, total_time_spent: 0, recent: Seq::empty() }
}

/// The stats of a fresh tracker after requests that took `xs`, in that order.
pub open spec fn stats_after(xs: Seq<usize>) -> StatsView
    decreases xs.len(),
{
    if xs.len() == 0 {
        empty_stats()
    } else {
        record_step(stats_after(xs.drop_last()), xs.last())
    }
}

pub open spec fn sum_of(xs: Seq<usize>) -> nat
    decreases xs.len(),
{
    if xs.len() == 0 {
        0
    } else {
        sum_of(xs.drop_last()) + xs.last() as nat
    }
}

impl StatTracker {
    /// A tracker that has seen no request.
    pub fn new() -> (r: StatTracker)
        ensures
            r@ == empty_stats(),
    {
        StatTracker { recent_requests: VecDeque::new(), num_requests: 0, total_time_spent: 0 }
    }

    /// Adds the time that one request took: both counters grow, and the latency joins the
    /// window after the oldest ones have left it so that at most `MAX_RECENT_REQUESTS` stay.
    pub fn add_stat(&mut self, time_of_req: usize)
        requires
            old(self).num_requests < usize::MAX,
            old(self).total_time_spent + time_of_req <= usize::MAX,
        ensures
            final(self)@ == record_step(old(self)@, time_of_req),
    {
        self.num_requests = self.num_requests + 1;
        self.total_time_spent = self.total_time_spent + time_of_req;
        let ghost s0 = self.recent_requests@;
        while self.recent_requests.len() >= MAX_RECENT_REQUESTS
            invariant
                self.recent_requests@ == s0.subrange(
                    s0.len() - self.recent_requests@.len(),
                    s0.len() as int,
                ),
                self.recent_requests@.len() <= s0.len(),
                s0.len() >= MAX_RECENT_REQUESTS ==> self.recent_requests@.len() >= MAX_RECENT_REQUESTS
                    - 1,
                s0.len() < MAX_RECENT_REQUESTS ==> self.recent_requests@.len() == s0.len(),
                self.num_requests == old(self).num_requests + 1,
                self.total_time_spent == old(self).total_time_spent + time_of_req,
            decreases self.recent_requests@.len(),
        {
            self.recent_requests.pop_front();
        }
        self.recent_requests.push_back(time_of_req);
        proof {
            if s0.len() < MAX_RECENT_REQUESTS {
                assert(self.recent_requests@ =~= s0.push(time_of_req));
            }
        }
        assert(self.recent_requests@ =~= window(s0.push(time_of_req)));
    }

    /// The counters and a copy of the recent latencies, oldest first.
    pub fn snapshot(&self) -> (r: (usize, usize, Vec<usize>))
        ensures
            r.0 == self.num_requests,
            r.1 == self.total_time_spent,
            r.2@ == self.recent_requests@,
    {
        let mut out: Vec<usize> = Vec::new();
        let mut i: usize = 0;
        while i < self.recent_requests.len()
            invariant
                i <= self.recent_requests@.len(),
                out@ == self.recent_requests@.take(i as int),
            decreases self.recent_requests@.len() - i,
        {
            out.push(self.recent_requests[i]);
            assert(out@ =~= self.recent_requests@.take(i as int + 1));
            i = i + 1;
        }
        assert(self.recent_requests@.take(i as int) =~= self.recent_requests@);
        (self.num_requests, self.total_time_spent, out)
    }
}

/// After requests taking `xs`, a fresh tracker has counted them all, summed their times, and
/// keeps the last `min(len, MAX_RECENT_REQUESTS)` of them in the order they came.
pub proof fn lemma_stats_after(xs: Seq<usize>)
    ensures
        stats_after(xs).num_requests == xs.len(),
        stats_after(xs).total_time_spent == sum_of(xs),
        stats_after(xs).recent == window(xs),
    decreases xs.len(),
{
    if xs.len() > 0 {
        let init = xs.drop_last();
        lemma_stats_after(init);
        assert(init.push(xs.last()) =~= xs);
        let w = window(init);
        if init.len() > MAX_RECENT_REQUESTS {
            assert(window(w.push(xs.last())) =~= window(xs));
        } else {
            assert(window(w.push(xs.last())) =~= window(xs));
        }
    }
}

} // verus!
