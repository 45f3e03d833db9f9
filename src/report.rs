use vstd::prelude::*;
use crate::request::ModelType;
use crate::text::{count_words, word_count_of};
use crate::transport::{Outcome, OutcomeView};

verus! {

/// How two response times compare.
#[derive(Clone, Copy, Debug, PartialEq, Eq, Structural)]
pub struct Comparison {
    /// The variant with the smaller time; the second one on a tie.
    pub faster: ModelType,
    pub difference_ms: u64,
    /// The difference as a percentage of the larger time, rounded to the
    /// nearest integer, halves up; 0 when both times are 0.
    pub percent_faster: u64,
}

pub open spec fn comparison_of(q4_ms: u64, q5_ms: u64) -> Comparison {
    let slower: int = if q4_ms < q5_ms { q5_ms as int } else { q4_ms as int };
    let difference: int = if q4_ms < q5_ms { q5_ms - q4_ms } else { q4_ms - q5_ms };
    Comparison {
        faster: if q4_ms < q5_ms { ModelType::Q4 } else { ModelType::Q5 },
        difference_ms: difference as u64,
        percent_faster: if slower == 0 {
            0
        } else {
            ((200 * difference + slower) / (2 * slower)) as u64
        },
    }
}

/// Compares the times of the two variants.
pub fn compare_times(q4_ms: u64, q5_ms: u64) -> (r: Comparison)
    ensures
        r == comparison_of(q4_ms, q5_ms),
        r.percent_faster <= 100,
{
    let (faster, slower, difference) = if q4_ms < q5_ms {
        (ModelType::Q4, q5_ms, q5_ms - q4_ms)
    } else {
        (ModelType::Q5, q4_ms, q4_ms - q5_ms)
    };
    let percent_faster = if slower == 0 {
        0
    } else {
        let d = difference as u128;
        let m = slower as u128;
        let p = (200 * d + m) / (2 * m);
        assert(p <= 100) by (nonlinear_arith)
            requires
                p == (200 * d + m) / (2 * m),
                d <= m,
                m > 0,
        ;
        p as u64
    };
    Comparison { faster, difference_ms: difference, percent_faster }
}

/// The comparison of a finished compare operation: only when both sides
/// succeeded.
pub open spec fn comparison_of_outcomes(q4: OutcomeView, q5: OutcomeView) -> Option<Comparison> {
    match (q4, q5) {
        (
            OutcomeView::Success { elapsed_ms: a, .. },
            OutcomeView::Success { elapsed_ms: b, .. },
        ) => Some(comparison_of(a, b)),
        _ => None,
    }
}

/// Compares two outcomes when both are successes.
pub fn compare_outcomes(q4: &Outcome, q5: &Outcome) -> (r: Option<Comparison>)
    ensures
        r == comparison_of_outcomes(q4@, q5@),
{
    match (q4, q5) {
        (Outcome::Success { elapsed_ms: a, .. }, Outcome::Success { elapsed_ms: b, .. }) => Some(
            compare_times(*a, *b),
        ),
        _ => None,
    }
}

/// Figures derived from one successful response.
#[derive(Clone, Copy, Debug, PartialEq, Eq, Structural)]
pub struct ResponseStats {
    pub elapsed_ms: u64,
    pub words: u64,
    pub chars: u64,
    /// Estimated tokens, in tenths: 1.3 tokens per word.
    pub tokens_estimate_tenths: u128,
    /// Estimated tokens per second, in thousandths; 0 when the time is 0.
    pub tokens_per_sec_milli: u128,
}

pub open spec fn response_stats_of(o: OutcomeView) -> Option<ResponseStats> {
    match o {
        OutcomeView::Success { text, elapsed_ms } => {
            let words = word_count_of(text);
            Some(
                ResponseStats {
                    elapsed_ms,
                    words: words as u64,
                    chars: text.len() as u64,
                    tokens_estimate_tenths: (words * 13) as u128,
                    tokens_per_sec_milli: if elapsed_ms == 0 {
                        0
                    } else {
                        ((words * 1_300_000) as int / elapsed_ms as int) as u128
                    },
                },
            )
        },
        OutcomeView::Failure { .. } => None,
    }
}

/// The figures of a successful response; none for a failure.
pub fn response_stats(o: &Outcome) -> (r: Option<ResponseStats>)
    ensures
        r == response_stats_of(o@),
{
    match o {
        Outcome::Success { text, elapsed_ms } => {
            let words = count_words(text.as_str());
            let chars = text.as_str().unicode_len();
            let rate: u128 = if *elapsed_ms == 0 {
                0
            } else {
                (words as u128) * 1_300_000 / (*elapsed_ms as u128)
            };
            Some(
                ResponseStats {
                    elapsed_ms: *elapsed_ms,
                    words: words as u64,
                    chars: chars as u64,
                    tokens_estimate_tenths: (words as u128) * 13,
                    tokens_per_sec_milli: rate,
                },
            )
        },
        Outcome::Failure { .. } => None,
    }
}

/// Slots that ended in a success.
pub open spec fn success_count(s: Seq<Option<OutcomeView>>) -> int
    decreases s.len(),
{
    if s.len() == 0 {
        0
    } else {
        success_count(s.drop_last()) + if s.last() matches Some(OutcomeView::Success { .. }) {
            1int
        } else {
            0
        }
    }
}

/// Sum of the times of the slots that ended in a success.
pub open spec fn success_time(s: Seq<Option<OutcomeView>>) -> int
    decreases s.len(),
{
    if s.len() == 0 {
        0
    } else {
        success_time(s.drop_last()) + match s.last() {
            Some(OutcomeView::Success { elapsed_ms, .. }) => elapsed_ms as int,
            _ => 0,
        }
    }
}

/// A slot that has not yet received its outcome, or the outcome it received.
#[derive(Clone, Debug)]
pub enum SlotState {
    Pending,
    Completed(Outcome),
}

pub open spec fn slot_view(s: SlotState) -> Option<OutcomeView> {
    match s {
        SlotState::Pending => None,
        SlotState::Completed(o) => Some(o@),
    }
}

/// The result of a stress operation.
#[derive(Clone, Copy, Debug, PartialEq, Eq, Structural)]
pub struct StressSummary {
    pub successful: u64,
    pub failed: u64,
    /// Mean time of the successes, rounded down; 0 with none.
    pub average_ms: u64,
    /// From the start of the operation to when its last outcome was seen.
    pub total_ms: u64,
}

pub open spec fn stress_summary_of(
    s: Seq<Option<OutcomeView>>,
    started_ms: u64,
    now_ms: u64,
) -> StressSummary {
    let n = success_count(s);
    StressSummary {
        successful: n as u64,
        failed: (s.len() - n) as u64,
        average_ms: if n == 0 {
            0
        } else {
            (success_time(s) / n) as u64
        },
        total_ms: if now_ms >= started_ms {
            (now_ms - started_ms) as u64
        } else {
            0
        },
    }
}

/// Summarises the slots of a stress operation started at `started_ms`
/// and seen complete at `now_ms`.
pub fn summarize_stress(slots: &Vec<SlotState>, started_ms: u64, now_ms: u64) -> (r:
    StressSummary)
    ensures
        r == stress_summary_of(
            slots@.map_values(|s: SlotState| slot_view(s)),
            started_ms,
            now_ms,
        ),
{
    let ghost v = slots@.map_values(|s: SlotState| slot_view(s));
    let mut n: u64 = 0;
    let mut sum: u128 = 0;
    let mut i: usize = 0;
    while i < slots.len()
        invariant
            i <= slots@.len(),
            v.len() == slots@.len(),
            v == slots@.map_values(|s: SlotState| slot_view(s)),
            n == success_count(v.subrange(0, i as int)),
            sum == success_time(v.subrange(0, i as int)),
            n <= i,
            sum <= n * 0xFFFF_FFFF_FFFF_FFFFu64,
        decreases slots@.len() - i,
    {
        assert(v.subrange(0, i as int + 1).drop_last() =~= v.subrange(0, i as int));
        match &slots[i] {
            SlotState::Completed(Outcome::Success { elapsed_ms, .. }) => {
                assert(sum + *elapsed_ms <= (n + 1) * 0xFFFF_FFFF_FFFF_FFFFu64) by (nonlinear_arith)
                    requires
                        sum <= n * 0xFFFF_FFFF_FFFF_FFFFu64,
                        *elapsed_ms <= 0xFFFF_FFFF_FFFF_FFFFu64,
                ;
                assert((n + 1) * 0xFFFF_FFFF_FFFF_FFFFu64 <= u128::MAX) by (nonlinear_arith)
                    requires
                        n <= 0xFFFF_FFFF_FFFF_FFFFu64,
                ;
                n = n + 1;
                sum = sum + *elapsed_ms as u128;
            },
            _ => {},
        }
        i = i + 1;
    }
    assert(v.subrange(0, v.len() as int) =~= v);
    let average_ms: u64 = if n == 0 {
        0
    } else {
        let a = sum / (n as u128);
        assert(a <= 0xFFFF_FFFF_FFFF_FFFFu64) by (nonlinear_arith)
            requires
                a == sum / (n as u128),
                sum <= n * 0xFFFF_FFFF_FFFF_FFFFu64,
                n > 0,
        ;
        a as u64
    };
    StressSummary {
        successful: n,
        failed: slots.len() as u64 - n,
        average_ms,
        total_ms: if now_ms >= started_ms {
            now_ms - started_ms
        } else {
            0
        },
    }
}

} // verus!
