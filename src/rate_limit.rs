use vstd::prelude::*;

verus! {

/// The spacing between consecutive outbound requests, in milliseconds.
pub const MIN_INTERVAL_MS: u64 = 1000;

/// `later` may be granted after `earlier`: it comes a full interval later,
/// or the clock has reached its largest value.
pub open spec fn spaced(earlier: int, later: int, interval: int) -> bool {
    later >= earlier && (later >= earlier + interval || later == u64::MAX)
}

/// Every grant of `grants` is spaced from the one before it.
pub open spec fn spaced_grants(grants: Seq<int>, interval: int) -> bool {
    forall|i: int| 0 <= i < grants.len() - 1 ==> spaced(#[trigger] grants[i], grants[i + 1], interval)
}

/// The process-wide limiter in front of the network: a request may start only
/// a full interval after the start of the one before it. It never refuses,
/// it only delays.
pub struct RateLimiter {
    interval_ms: u64,
    last_grant: Option<u64>,
    grants: Ghost<Seq<int>>,
}

impl RateLimiter {
    /// The spacing that the limiter enforces.
    pub closed spec fn interval(&self) -> nat {
        self.interval_ms as nat
    }

    /// The start times granted so far, in order.
    pub closed spec fn grants(&self) -> Seq<int> {
        self.grants@
    }

    pub closed spec fn wf(&self) -> bool {
        &&& spaced_grants(self.grants@, self.interval_ms as int)
        &&& self.grants@.len() == 0 <==> self.last_grant is None
        &&& self.grants@.len() > 0 ==> self.last_grant == Some(self.grants@.last() as u64)
        &&& forall|i: int| 0 <= i < self.grants@.len() ==> 0 <= #[trigger] self.grants@[i] <= u64::MAX
    }

    /// A limiter that spaces requests by `interval_ms` milliseconds.
    pub fn new(interval_ms: u64) -> (r: Self)
        ensures
            r.wf(),
            r.interval() == interval_ms,
            r.grants() == Seq::<int>::empty(),
    {
        RateLimiter { interval_ms, last_grant: None, grants: Ghost(Seq::empty()) }
    }

    /// Grants the next request, asked for at time `now` (milliseconds on a
    /// clock that does not go back). Returns the time at which it may start:
    /// `now` for the first request, else `now` or one interval after the
    /// previous start, whichever is later.
    pub fn acquire(&mut self, now: u64) -> (start: u64)
        requires
            old(self).wf(),
        ensures
            final(self).wf(),
            final(self).interval() == old(self).interval(),
            final(self).grants() == old(self).grants().push(start as int),
            start >= now,
            old(self).grants().len() == 0 ==> start == now,
            old(self).grants().len() > 0 ==> start as int == vstd::math::max(
                now as int,
                vstd::math::min(old(self).grants().last() + old(self).interval(), u64::MAX as int),
            ),
    {
        let start = match self.last_grant {
            None => now,
            Some(last) => {
                let earliest = last.saturating_add(self.interval_ms);
                if now >= earliest {
                    now
                } else {
                    earliest
                }
            },
        };
        self.last_grant = Some(start);
        let ghost old_grants = self.grants@;
        self.grants = Ghost(old_grants.push(start as int));
        proof {
            let g = self.grants@;
            assert forall|i: int| 0 <= i < g.len() - 1 implies spaced(#[trigger] g[i], g[i + 1], self.interval_ms as int) by {
                if i < g.len() - 2 {
                    assert(g[i] == old_grants[i] && g[i + 1] == old_grants[i + 1]);
                }
            }
        }
        start
    }

    /// How long a request asked for at `now` must wait for its `start`.
    pub fn wait_ms(now: u64, start: u64) -> (r: u64)
        ensures
            r == if start > now { start - now } else { 0 },
    {
        if start > now {
            start - now
        } else {
            0
        }
    }
}

/// `n` requests that passed the limiter, without the clock reaching its largest
/// value, span at least `n - 1` intervals from the first start to the last.
pub proof fn lemma_grants_span(grants: Seq<int>, interval: int)
    requires
        grants.len() > 0,
        interval >= 0,
        spaced_grants(grants, interval),
        grants.last() < u64::MAX,
    ensures
        grants.last() - grants[0] >= (grants.len() - 1) * interval,
    decreases grants.len(),
{
    if grants.len() > 1 {
        let prefix = grants.drop_last();
        let n = grants.len();
        assert(spaced(grants[n - 2], grants[n - 1], interval));
        assert(spaced_grants(prefix, interval)) by {
            assert forall|i: int| 0 <= i < prefix.len() - 1 implies spaced(#[trigger] prefix[i], prefix[i + 1], interval) by {
                assert(prefix[i] == grants[i] && prefix[i + 1] == grants[i + 1]);
            }
        }
        assert(prefix.last() == grants[n - 2] && prefix[0] == grants[0]);
        lemma_grants_span(prefix, interval);
        assert(prefix.len() == n - 1);
        assert(grants[n - 1] >= grants[n - 2] + interval);
        assert((n - 1) * interval == (n - 2) * interval + interval) by (nonlinear_arith);
    } else {
        assert((grants.len() - 1) * interval == 0) by (nonlinear_arith)
            requires grants.len() == 1;
    }
}

/// Whatever the clock said, the requests that a limiter has let through so far
/// are spaced by its interval: from the first start to the last there are at
/// least as many intervals as requests after the first.
pub proof fn lemma_limiter_spacing(limiter: RateLimiter)
    requires
        limiter.wf(),
        limiter.grants().len() > 0,
        limiter.grants().last() < u64::MAX,
    ensures
        limiter.grants().last() - limiter.grants()[0] >= (limiter.grants().len() - 1) * limiter.interval(),
{
    lemma_grants_span(limiter.grants(), limiter.interval() as int);
}

} // verus!
