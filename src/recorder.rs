use vstd::prelude::*;
use crate::text::{count_words, word_count_of};

verus! {

/// Records kept in the rolling history.
pub const HISTORY_LIMIT: usize = 20;

/// Estimated tokens per second, in thousandths, for `words` words produced
/// in `elapsed_ms` milliseconds: words times 1.3 times 1000 over the time.
pub open spec fn token_rate_milli(words: nat, elapsed_ms: u64) -> int
    recommends
        elapsed_ms > 0,
{
    (words * 1_300_000) as int / elapsed_ms as int
}

/// The rate estimate of a record: present only for a success with a
/// positive time and a response text.
pub open spec fn rate_of(success: bool, elapsed_ms: u64, text: Option<Seq<char>>) -> Option<u128> {
    if success && elapsed_ms > 0 && text is Some {
        Some(token_rate_milli(word_count_of(text->0), elapsed_ms) as u128)
    } else {
        None
    }
}

/// The operation that produced a record.
#[derive(Clone, Copy, Debug, PartialEq, Eq, Structural)]
pub enum RecordKind {
    Single,
    Compare,
    Stress,
}

impl RecordKind {
    /// The name under which records of this kind are shown.
    pub fn label(&self) -> (r: String)
        ensures
            r@ == match self {
                RecordKind::Single => "Single Request"@,
                RecordKind::Compare => "Parallel Compare"@,
                RecordKind::Stress => "Stress Test"@,
            },
    {
        match self {
            RecordKind::Single => String::from_str("Single Request"),
            RecordKind::Compare => String::from_str("Parallel Compare"),
            RecordKind::Stress => String::from_str("Stress Test"),
        }
    }
}

/// One completed request, as kept in the history.
#[derive(Clone, Debug)]
pub struct PerformanceRecord {
    pub kind: RecordKind,
    pub model: String,
    /// Zero for a failure.
    pub elapsed_ms: u64,
    /// Tokens per second in thousandths; see `rate_of`.
    pub tokens_per_sec_milli: Option<u128>,
    pub timestamp: String,
    pub success: bool,
}

/// What a record holds apart from its wall-clock stamp.
pub struct RecordView {
    pub kind: RecordKind,
    pub model: Seq<char>,
    pub elapsed_ms: u64,
    pub tokens_per_sec_milli: Option<u128>,
    pub success: bool,
}

pub open spec fn record_view(r: PerformanceRecord) -> RecordView {
    RecordView {
        kind: r.kind,
        model: r.model@,
        elapsed_ms: r.elapsed_ms,
        tokens_per_sec_milli: r.tokens_per_sec_milli,
        success: r.success,
    }
}

pub open spec fn history_view(h: Seq<PerformanceRecord>) -> Seq<RecordView> {
    h.map_values(|r: PerformanceRecord| record_view(r))
}

/// Running totals over the whole session; never trimmed.
#[derive(Clone, Copy, Debug, PartialEq, Eq, Structural)]
pub struct SessionStats {
    pub total_requests: u64,
    pub successful_requests: u64,
    pub failed_requests: u64,
    /// Sum of the times of successes.
    pub total_elapsed_ms: u128,
    pub fastest_ms: Option<u64>,
    pub slowest_ms: Option<u64>,
}

/// The totals after one more request.
pub open spec fn stats_after(s: SessionStats, elapsed_ms: u64, success: bool) -> SessionStats {
    if success {
        SessionStats {
            total_requests: (s.total_requests + 1) as u64,
            successful_requests: (s.successful_requests + 1) as u64,
            failed_requests: s.failed_requests,
            total_elapsed_ms: (s.total_elapsed_ms + elapsed_ms) as u128,
            fastest_ms: match s.fastest_ms {
                Some(f) if f <= elapsed_ms => Some(f),
                _ => Some(elapsed_ms),
            },
            slowest_ms: match s.slowest_ms {
                Some(f) if f >= elapsed_ms => Some(f),
                _ => Some(elapsed_ms),
            },
        }
    } else {
        SessionStats {
            total_requests: (s.total_requests + 1) as u64,
            failed_requests: (s.failed_requests + 1) as u64,
            ..s
        }
    }
}

/// A history after one more record: the oldest leaves once the limit is
/// passed.
pub open spec fn bounded_push<T>(h: Seq<T>, r: T) -> Seq<T> {
    if h.len() >= HISTORY_LIMIT {
        h.push(r).subrange(h.len() + 1 - HISTORY_LIMIT, h.len() as int + 1)
    } else {
        h.push(r)
    }
}

impl SessionStats {
    pub open spec fn wf(&self) -> bool {
        &&& self.total_requests == self.successful_requests + self.failed_requests
        &&& self.total_elapsed_ms <= self.successful_requests * 0xFFFF_FFFF_FFFF_FFFFu64
        &&& (self.fastest_ms is Some <==> self.successful_requests > 0)
        &&& (self.slowest_ms is Some <==> self.successful_requests > 0)
        &&& (self.fastest_ms is Some ==> self.fastest_ms->0 <= self.slowest_ms->0)
    }

    pub fn new() -> (r: SessionStats)
        ensures
            r.wf(),
            r.total_requests == 0,
            r.fastest_ms is None,
            r.total_elapsed_ms == 0,
    {
        SessionStats {
            total_requests: 0,
            successful_requests: 0,
            failed_requests: 0,
            total_elapsed_ms: 0,
            fastest_ms: None,
            slowest_ms: None,
        }
    }
}

/// The totals always add up: every request is counted once, as a success
/// or as a failure, and one more request keeps them so.
pub proof fn lemma_totals_add_up(s: SessionStats, elapsed_ms: u64, success: bool)
    requires
        s.wf(),
        s.total_requests < u64::MAX,
    ensures
        s.total_requests == s.successful_requests + s.failed_requests,
        stats_after(s, elapsed_ms, success).wf(),
        stats_after(s, elapsed_ms, success).total_requests == stats_after(
            s,
            elapsed_ms,
            success,
        ).successful_requests + stats_after(s, elapsed_ms, success).failed_requests,
{
    if success {
        assert(s.total_elapsed_ms + elapsed_ms <= (s.successful_requests + 1)
            * 0xFFFF_FFFF_FFFF_FFFFu64) by (nonlinear_arith)
            requires
                s.total_elapsed_ms <= s.successful_requests * 0xFFFF_FFFF_FFFF_FFFFu64,
                elapsed_ms <= 0xFFFF_FFFF_FFFF_FFFFu64,
        ;
    }
}

/// The history never holds more than the limit, and once full, each new
/// record evicts exactly the oldest one while the others keep their order.
pub proof fn lemma_history_fifo<T>(h: Seq<T>, r: T)
    requires
        h.len() <= HISTORY_LIMIT,
    ensures
        bounded_push(h, r).len() <= HISTORY_LIMIT,
        bounded_push(h, r).len() == if h.len() < HISTORY_LIMIT {
            h.len() + 1
        } else {
            HISTORY_LIMIT as nat
        },
        h.len() < HISTORY_LIMIT ==> bounded_push(h, r) == h.push(r),
        h.len() == HISTORY_LIMIT ==> bounded_push(h, r) == h.drop_first().push(r),
{
    if h.len() == HISTORY_LIMIT {
        assert(bounded_push(h, r) =~= h.drop_first().push(r));
    }
}

/// A rate estimate is present exactly for a success with a positive time
/// and a response text.
pub proof fn lemma_rate_presence(success: bool, elapsed_ms: u64, text: Option<Seq<char>>)
    ensures
        rate_of(success, elapsed_ms, text) is Some <==> (success && elapsed_ms > 0 && text is Some),
{
}

/// Derived figures of the session, every one defined when nothing has
/// succeeded yet.
#[derive(Clone, Copy, Debug, PartialEq, Eq, Structural)]
pub struct PerformanceSummary {
    pub total_requests: u64,
    pub successful_requests: u64,
    pub failed_requests: u64,
    /// Successes per thousand requests, rounded down; 0 with no requests.
    pub success_permille: u64,
    /// Mean time of successes, rounded down; 0 with no successes.
    pub average_ms: u64,
    /// 0 with no successes.
    pub fastest_ms: u64,
    /// 0 with no successes.
    pub slowest_ms: u64,
}

pub open spec fn summary_of(s: SessionStats) -> PerformanceSummary {
    PerformanceSummary {
        total_requests: s.total_requests,
        successful_requests: s.successful_requests,
        failed_requests: s.failed_requests,
        success_permille: if s.total_requests == 0 {
            0
        } else {
            (s.successful_requests * 1000 / s.total_requests as int) as u64
        },
        average_ms: if s.successful_requests == 0 {
            0
        } else {
            (s.total_elapsed_ms / s.successful_requests as u128) as u64
        },
        fastest_ms: match s.fastest_ms {
            Some(f) => f,
            None => 0,
        },
        slowest_ms: match s.slowest_ms {
            Some(f) => f,
            None => 0,
        },
    }
}

/// The rolling history and the session totals.
#[derive(Clone, Debug)]
pub struct PerformanceRecorder {
    pub history: Vec<PerformanceRecord>,
    pub stats: SessionStats,
}

fn token_rate(text: Option<&str>, success: bool, elapsed_ms: u64) -> (r: Option<u128>)
    ensures
        r == rate_of(
            success,
            elapsed_ms,
            match text {
                Some(t) => Some(t@),
                None => None,
            },
        ),
{
    if success && elapsed_ms > 0 {
        match text {
            Some(t) => {
                let words = count_words(t);
                Some((words as u128) * 1_300_000 / (elapsed_ms as u128))
            },
            None => None,
        }
    } else {
        None
    }
}

impl PerformanceRecorder {
    pub open spec fn wf(&self) -> bool {
        self.history@.len() <= HISTORY_LIMIT && self.stats.wf()
    }

    /// An empty history with zero totals.
    pub fn new() -> (r: PerformanceRecorder)
        ensures
            r.wf(),
            r.history@.len() == 0,
            r.stats.total_requests == 0,
    {
        PerformanceRecorder { history: Vec::new(), stats: SessionStats::new() }
    }

    /// Appends one record, evicting the oldest past the limit, and updates
    /// the totals.
    pub fn record(
        &mut self,
        kind: RecordKind,
        model: &str,
        elapsed_ms: u64,
        success: bool,
        text: Option<&str>,
        timestamp: String,
    )
        requires
            old(self).wf(),
            old(self).stats.total_requests < u64::MAX,
        ensures
            final(self).wf(),
            final(self).stats == stats_after(old(self).stats, elapsed_ms, success),
            final(self).history@ == bounded_push(old(self).history@, final(self).history@.last()),
            history_view(final(self).history@) == bounded_push(
                history_view(old(self).history@),
                RecordView {
                    kind,
                    model: model@,
                    elapsed_ms,
                    tokens_per_sec_milli: rate_of(
                        success,
                        elapsed_ms,
                        match text {
                            Some(t) => Some(t@),
                            None => None,
                        },
                    ),
                    success,
                },
            ),
            final(self).history@.len() == if old(self).history@.len() < HISTORY_LIMIT {
                old(self).history@.len() + 1
            } else {
                HISTORY_LIMIT as nat
            },
            final(self).history@.drop_last() == if old(self).history@.len() < HISTORY_LIMIT {
                old(self).history@
            } else {
                old(self).history@.subrange(1, HISTORY_LIMIT as int)
            },
            final(self).history@.last().kind == kind,
            final(self).history@.last().model@ == model@,
            final(self).history@.last().elapsed_ms == elapsed_ms,
            final(self).history@.last().success == success,
            final(self).history@.last().timestamp == timestamp,
            final(self).history@.last().tokens_per_sec_milli == rate_of(
                success,
                elapsed_ms,
                match text {
                    Some(t) => Some(t@),
                    None => None,
                },
            ),
            final(self).history@.last().tokens_per_sec_milli is Some <==> (success && elapsed_ms > 0
                && text is Some),
    {
        let rate = token_rate(text, success, elapsed_ms);
        let rec = PerformanceRecord {
            kind,
            model: String::from_str(model),
            elapsed_ms,
            tokens_per_sec_milli: rate,
            timestamp,
            success,
        };
        let ghost h0 = self.history@;
        self.history.push(rec);
        if self.history.len() > HISTORY_LIMIT {
            self.history.remove(0);
        }
        assert(self.history@ =~= bounded_push(h0, rec));
        assert(history_view(self.history@) =~= bounded_push(history_view(h0), record_view(rec)));
        let ghost s = self.stats;
        self.stats.total_requests = self.stats.total_requests + 1;
        proof {
            lemma_totals_add_up(s, elapsed_ms, success);
        }
        if success {
            self.stats.successful_requests = self.stats.successful_requests + 1;
            self.stats.total_elapsed_ms = self.stats.total_elapsed_ms + elapsed_ms as u128;
            match self.stats.fastest_ms {
                Some(f) if f <= elapsed_ms => {},
                _ => {
                    self.stats.fastest_ms = Some(elapsed_ms);
                },
            }
            match self.stats.slowest_ms {
                Some(f) if f >= elapsed_ms => {},
                _ => {
                    self.stats.slowest_ms = Some(elapsed_ms);
                },
            }
        } else {
            self.stats.failed_requests = self.stats.failed_requests + 1;
        }
    }

    /// The derived figures of the session totals.
    pub fn summary(&self) -> (r: PerformanceSummary)
        requires
            self.wf(),
        ensures
            r == summary_of(self.stats),
    {
        let s = self.stats;
        let success_permille = if s.total_requests == 0 {
            0
        } else {
            assert(s.successful_requests * 1000 <= s.total_requests * 1000) by (nonlinear_arith)
                requires
                    s.successful_requests <= s.total_requests,
            ;
            let p = (s.successful_requests as u128) * 1000 / (s.total_requests as u128);
            assert(p <= 1000) by (nonlinear_arith)
                requires
                    p as int == (s.successful_requests as int * 1000) / (s.total_requests as int),
                    s.successful_requests <= s.total_requests,
                    s.total_requests > 0,
            ;
            p as u64
        };
        let average_ms = if s.successful_requests == 0 {
            0
        } else {
            let a = s.total_elapsed_ms / (s.successful_requests as u128);
            assert(a <= 0xFFFF_FFFF_FFFF_FFFFu64) by (nonlinear_arith)
                requires
                    a == s.total_elapsed_ms / (s.successful_requests as u128),
                    s.total_elapsed_ms <= s.successful_requests * 0xFFFF_FFFF_FFFF_FFFFu64,
                    s.successful_requests > 0,
            ;
            a as u64
        };
        PerformanceSummary {
            total_requests: s.total_requests,
            successful_requests: s.successful_requests,
            failed_requests: s.failed_requests,
            success_permille,
            average_ms,
            fastest_ms: match s.fastest_ms {
                Some(f) => f,
                None => 0,
            },
            slowest_ms: match s.slowest_ms {
                Some(f) => f,
                None => 0,
            },
        }
    }
}

} // verus!
