use vstd::prelude::*;
use crate::cooldown::{remaining_spec, CooldownGate};
use crate::recorder::{
    bounded_push, history_view, rate_of, stats_after, RecordView, PerformanceRecord, PerformanceRecorder, RecordKind, SessionStats};
use crate::request::{BenchConfig, BenchmarkRequest, ModelType};
use crate::text::{is_blank, is_blank_text};
use crate::recorder::HISTORY_LIMIT;
use crate::report::{
    comparison_of_outcomes, compare_outcomes, response_stats, response_stats_of, slot_view,
    stress_summary_of, summarize_stress, Comparison, ResponseStats, SlotState, StressSummary,
};
use crate::transport::{Outcome, OutcomeView};

verus! {

/// Requests in a stress operation.
pub const STRESS_SLOTS: usize = 5;

/// Delay, in milliseconds, between the starts of consecutive stress requests.
pub const STRESS_STAGGER_MS: u64 = 50;

/// What a single-slot operation is for.
#[derive(Clone, Copy, Debug, PartialEq, Eq, Structural)]
pub enum SingleKind {
    /// One generation call with the selected model.
    Generate,
    /// A probe of the tag listing.
    ConnectionTest,
    /// Warm-up calls to both models; arms the cooldown when done.
    Preload,
    /// A listing of the models held in memory.
    StatusCheck,
}

/// One logical position within an operation.
#[derive(Clone, Copy, Debug, PartialEq, Eq, Structural)]
pub enum Slot {
    Single,
    Q4,
    Q5,
    Stress(usize),
}


/// The operation in flight, if any.
#[derive(Clone, Debug)]
pub enum Operation {
    Idle,
    Single { kind: SingleKind, model: String, slot: SlotState },
    Compare { q4: SlotState, q5: SlotState },
    Stress { slots: Vec<SlotState>, started_ms: u64 },
}

/// What an operation holds: each slot is `None` while pending.
pub enum OperationView {
    Idle,
    Single { kind: SingleKind, model: Seq<char>, slot: Option<OutcomeView> },
    Compare { q4: Option<OutcomeView>, q5: Option<OutcomeView> },
    Stress { slots: Seq<Option<OutcomeView>>, started_ms: u64 },
}

impl View for Operation {
    type V = OperationView;

    open spec fn view(&self) -> OperationView {
        match self {
            Operation::Idle => OperationView::Idle,
            Operation::Single { kind, model, slot } => OperationView::Single {
                kind: *kind,
                model: model@,
                slot: slot_view(*slot),
            },
            Operation::Compare { q4, q5 } => OperationView::Compare {
                q4: slot_view(*q4),
                q5: slot_view(*q5),
            },
            Operation::Stress { slots, started_ms } => OperationView::Stress {
                slots: slots@.map_values(|s: SlotState| slot_view(s)),
                started_ms: *started_ms,
            },
        }
    }
}

/// Why an operation did not start.
#[derive(Clone, Copy, Debug, PartialEq, Eq, Structural)]
pub enum StartError {
    /// Another operation is in flight.
    Busy,
    /// The cooldown window is open; the time left in it.
    CoolingDown { remaining_ms: u64 },
    /// The prompt is empty or whitespace.
    EmptyPrompt,
}

/// Work for the caller to run on an independent worker; its result comes
/// back to `drain` as an `Arrival`.
#[derive(Clone, Debug)]
pub enum Dispatch {
    /// One generation call under the retry policy, started after `delay_ms`.
    Generate { slot: Slot, url: String, request: BenchmarkRequest, label: String, delay_ms: u64 },
    /// A GET of the tag listing, whose body goes through `probe_result`.
    Probe { url: String },
    /// A GET of the loaded-model listing, whose body goes through
    /// `listing_result`.
    Listing { url: String },
    /// Generation calls to each model in turn, whose results go through
    /// `preload_result`.
    Preload { url: String, first: BenchmarkRequest, second: BenchmarkRequest },
}

/// The outcome of one worker, for the slot it ran for.
#[derive(Clone, Debug)]
pub struct Arrival {
    pub slot: Slot,
    pub outcome: Outcome,
}

pub open spec fn stress_index_text(i: int) -> Seq<char> {
    if i == 0 {
        "1"@
    } else if i == 1 {
        "2"@
    } else if i == 2 {
        "3"@
    } else if i == 3 {
        "4"@
    } else {
        "5"@
    }
}

/// The prompt of stress request `i` (counted from 0).
pub open spec fn stress_prompt(prompt: Seq<char>, i: int) -> Seq<char> {
    prompt + " (Stress Request "@ + stress_index_text(i) + ")"@
}

fn stress_index(i: usize) -> (r: &'static str)
    requires
        i < STRESS_SLOTS,
    ensures
        r@ == stress_index_text(i as int),
{
    if i == 0 {
        "1"
    } else if i == 1 {
        "2"
    } else if i == 2 {
        "3"
    } else if i == 3 {
        "4"
    } else {
        "5"
    }
}

/// Prompt used by a stress operation started without one.
pub open spec fn default_stress_prompt() -> Seq<char> {
    "Test stress"@
}

/// Whether an arrival for `slot` completes a pending slot of the operation.
pub open spec fn accepts(v: OperationView, slot: Slot) -> bool {
    match v {
        OperationView::Idle => false,
        OperationView::Single { slot: s, .. } => slot == Slot::Single && s is None,
        OperationView::Compare { q4, q5 } => (slot == Slot::Q4 && q4 is None) || (slot == Slot::Q5
            && q5 is None),
        OperationView::Stress { slots, .. } => slot matches Slot::Stress(i) && i < slots.len()
            && slots[i as int] is None,
    }
}

/// The operation once `slot` holds `o`.
pub open spec fn fill(v: OperationView, slot: Slot, o: OutcomeView) -> OperationView {
    match v {
        OperationView::Single { kind, model, .. } => OperationView::Single {
            kind,
            model,
            slot: Some(o),
        },
        OperationView::Compare { q4, q5 } => if slot == Slot::Q4 {
            OperationView::Compare { q4: Some(o), q5 }
        } else {
            OperationView::Compare { q4, q5: Some(o) }
        },
        OperationView::Stress { slots, started_ms } => OperationView::Stress {
            slots: slots.update(slot->Stress_0 as int, Some(o)),
            started_ms,
        },
        OperationView::Idle => OperationView::Idle,
    }
}

/// The time a record takes from an outcome: 0 for a failure.
pub open spec fn elapsed_of(o: OutcomeView) -> u64 {
    match o {
        OutcomeView::Success { elapsed_ms, .. } => elapsed_ms,
        OutcomeView::Failure { .. } => 0,
    }
}

/// The operation and the session totals after the arrivals, in order: an
/// arrival for a pending slot completes it and is recorded; any other is
/// ignored.
pub open spec fn after_arrivals(v: OperationView, s: SessionStats, arr: Seq<Arrival>) -> (
    OperationView,
    SessionStats,
)
    decreases arr.len(),
{
    if arr.len() == 0 {
        (v, s)
    } else {
        let a = arr[0];
        let rest = arr.subrange(1, arr.len() as int);
        if accepts(v, a.slot) {
            after_arrivals(
                fill(v, a.slot, a.outcome@),
                stats_after(s, elapsed_of(a.outcome@), a.outcome is Success),
                rest,
            )
        } else {
            after_arrivals(v, s, rest)
        }
    }
}

/// The record made when `slot` of the operation receives `o`.
pub open spec fn record_of(cfg: BenchConfig, v: OperationView, slot: Slot, o: OutcomeView) -> RecordView {
    RecordView {
        kind: match v {
            OperationView::Compare { .. } => RecordKind::Compare,
            OperationView::Stress { .. } => RecordKind::Stress,
            _ => RecordKind::Single,
        },
        model: match v {
            OperationView::Single { model, .. } => model,
            OperationView::Compare { .. } => if slot == Slot::Q4 {
                cfg.q4_model@
            } else {
                cfg.q5_model@
            },
            _ => cfg.q4_model@,
        },
        elapsed_ms: elapsed_of(o),
        tokens_per_sec_milli: rate_of(
            o is Success,
            elapsed_of(o),
            match o {
                OutcomeView::Success { text, .. } => Some(text),
                OutcomeView::Failure { .. } => None,
            },
        ),
        success: o is Success,
    }
}

/// The history, apart from wall-clock stamps, after the arrivals: one
/// record for each arrival that completes a pending slot.
pub open spec fn history_after(
    cfg: BenchConfig,
    v: OperationView,
    h: Seq<RecordView>,
    arr: Seq<Arrival>,
) -> Seq<RecordView>
    decreases arr.len(),
{
    if arr.len() == 0 {
        h
    } else {
        let a = arr[0];
        let rest = arr.subrange(1, arr.len() as int);
        if accepts(v, a.slot) {
            history_after(
                cfg,
                fill(v, a.slot, a.outcome@),
                bounded_push(h, record_of(cfg, v, a.slot, a.outcome@)),
                rest,
            )
        } else {
            history_after(cfg, v, h, rest)
        }
    }
}

/// Every slot of the operation holds its outcome.
pub open spec fn is_complete(v: OperationView) -> bool {
    match v {
        OperationView::Idle => false,
        OperationView::Single { slot, .. } => slot is Some,
        OperationView::Compare { q4, q5 } => q4 is Some && q5 is Some,
        OperationView::Stress { slots, .. } => forall|i: int|
            0 <= i < slots.len() ==> #[trigger] slots[i] is Some,
    }
}

/// What a finished operation reports.
#[derive(Clone, Debug)]
pub enum Completion {
    Single { kind: SingleKind, outcome: Outcome, stats: Option<ResponseStats> },
    Compare { q4: Outcome, q5: Outcome, comparison: Option<Comparison> },
    Stress { slots: Vec<SlotState>, summary: StressSummary },
}

/// The report of the complete operation `v`, seen complete at `now_ms`.
pub open spec fn reports(c: Completion, v: OperationView, now_ms: u64) -> bool {
    match v {
        OperationView::Idle => false,
        OperationView::Single { kind, slot, .. } => c matches Completion::Single {
            kind: k,
            outcome,
            stats,
        } && k == kind && outcome@ == slot->0 && stats == response_stats_of(slot->0),
        OperationView::Compare { q4, q5 } => c matches Completion::Compare { q4: a, q5: b, comparison }
            && a@ == q4->0 && b@ == q5->0 && comparison == comparison_of_outcomes(q4->0, q5->0),
        OperationView::Stress { slots, started_ms } => c matches Completion::Stress {
            slots: ss,
            summary,
        } && ss@.map_values(|s: SlotState| slot_view(s)) == slots && summary == stress_summary_of(
            slots,
            started_ms,
            now_ms,
        ),
    }
}

/// Arrivals with nothing in flight change neither the operation, nor the
/// session totals, nor the history.
pub proof fn lemma_idle_ignores(
    cfg: BenchConfig,
    s: SessionStats,
    h: Seq<RecordView>,
    arr: Seq<Arrival>,
)
    ensures
        after_arrivals(OperationView::Idle, s, arr) == (OperationView::Idle, s),
        history_after(cfg, OperationView::Idle, h, arr) == h,
    decreases arr.len(),
{
    if arr.len() > 0 {
        lemma_idle_ignores(cfg, s, h, arr.subrange(1, arr.len() as int));
    }
}

proof fn lemma_fill_counts(v: OperationView, slot: Slot, o: OutcomeView)
    requires
        op_wf(v),
        accepts(v, slot),
    ensures
        op_wf(fill(v, slot, o)),
        completed_count(fill(v, slot, o)) == completed_count(v) + 1,
        slot_count(fill(v, slot, o)) == slot_count(v),
{
    if let OperationView::Stress { slots, .. } = v {
        lemma_done_count_fill(slots, slot->Stress_0 as int, o);
    }
}

/// History length after `added` more records, from `len`.
pub open spec fn history_len_after(len: nat, added: nat) -> nat {
    if len + added <= HISTORY_LIMIT {
        len + added
    } else {
        HISTORY_LIMIT as nat
    }
}

/// An operation counts as complete only when each of its slots has been
/// completed, so one record was made for each slot it owns.
pub proof fn lemma_complete_counts(v: OperationView)
    requires
        op_wf(v),
        is_complete(v),
    ensures
        completed_count(v) == slot_count(v),
{
    if let OperationView::Stress { slots, .. } = v {
        lemma_done_count_all(slots);
    }
}

proof fn lemma_arrivals_count(v: OperationView, s: SessionStats, arr: Seq<Arrival>)
    requires
        op_wf(v),
        s.total_requests + arr.len() <= u64::MAX,
    ensures
        op_wf(after_arrivals(v, s, arr).0),
        slot_count(after_arrivals(v, s, arr).0) == slot_count(v),
        after_arrivals(v, s, arr).1.total_requests == s.total_requests + completed_count(
            after_arrivals(v, s, arr).0,
        ) - completed_count(v),
    decreases arr.len(),
{
    if arr.len() > 0 {
        let a = arr[0];
        let rest = arr.subrange(1, arr.len() as int);
        if accepts(v, a.slot) {
            lemma_fill_counts(v, a.slot, a.outcome@);
            lemma_arrivals_count(
                fill(v, a.slot, a.outcome@),
                stats_after(s, elapsed_of(a.outcome@), a.outcome is Success),
                rest,
            );
        } else {
            lemma_arrivals_count(v, s, rest);
        }
    }
}

/// An operation started with no slot completed and driven to completion by
/// arrivals adds exactly one request to the session totals per slot it owns.
pub proof fn lemma_one_record_per_slot(v: OperationView, s: SessionStats, arr: Seq<Arrival>)
    requires
        op_wf(v),
        completed_count(v) == 0,
        s.total_requests + arr.len() <= u64::MAX,
        is_complete(after_arrivals(v, s, arr).0),
    ensures
        after_arrivals(v, s, arr).1.total_requests == s.total_requests + slot_count(v),
{
    lemma_arrivals_count(v, s, arr);
    lemma_complete_counts(after_arrivals(v, s, arr).0);
}

/// `h` is the history `old_h` became after `n` more records stamped `ts`:
/// the records kept from `old_h` are its newest ones, unchanged and in
/// order, and every later record carries the stamp.
pub open spec fn kept_and_stamped(
    old_h: Seq<PerformanceRecord>,
    h: Seq<PerformanceRecord>,
    n: int,
    ts: Seq<char>,
) -> bool {
    let kept = h.len() - n;
    &&& forall|i: int| 0 <= i < kept ==> #[trigger] h[i] == old_h[old_h.len() - kept + i]
    &&& forall|i: int| 0 <= i < h.len() && i >= kept ==> (#[trigger] h[i]).timestamp@ == ts
}

proof fn lemma_kept_step(
    old_h: Seq<PerformanceRecord>,
    h: Seq<PerformanceRecord>,
    n: int,
    ts: Seq<char>,
    r: PerformanceRecord,
)
    requires
        kept_and_stamped(old_h, h, n, ts),
        r.timestamp@ == ts,
        h.len() <= HISTORY_LIMIT,
        n >= 0,
        h.len() - n <= old_h.len(),
    ensures
        kept_and_stamped(old_h, bounded_push(h, r), n + 1, ts),
{
    let h2 = bounded_push(h, r);
    let kept = h.len() - n;
    if h.len() >= HISTORY_LIMIT {
        assert forall|i: int| 0 <= i < kept - 1 implies #[trigger] h2[i] == old_h[old_h.len() - (
        kept - 1) + i] by {
            assert(h2[i] == h[i + 1]);
        }
        assert forall|i: int| 0 <= i < h2.len() && i >= kept - 1 implies (
        #[trigger] h2[i]).timestamp@ == ts by {
            if i < h2.len() - 1 {
                assert(h2[i] == h[i + 1]);
            }
        }
    } else {
        assert forall|i: int| 0 <= i < kept implies #[trigger] h2[i] == old_h[old_h.len() - kept
            + i] by {
            assert(h2[i] == h[i]);
        }
        assert forall|i: int| 0 <= i < h2.len() && i >= kept implies (#[trigger] h2[i]).timestamp@
            == ts by {
            if i < h.len() {
                assert(h2[i] == h[i]);
            }
        }
    }
}

fn record_outcome(
    recorder: &mut PerformanceRecorder,
    kind: RecordKind,
    model: &str,
    o: &Outcome,
    timestamp: &str,
)
    requires
        old(recorder).wf(),
        old(recorder).stats.total_requests < u64::MAX,
    ensures
        final(recorder).history@ == bounded_push(
            old(recorder).history@,
            final(recorder).history@.last(),
        ),
        final(recorder).history@.last().timestamp@ == timestamp@,
        history_view(final(recorder).history@) == bounded_push(
            history_view(old(recorder).history@),
            RecordView {
                kind,
                model: model@,
                elapsed_ms: elapsed_of(o@),
                tokens_per_sec_milli: rate_of(
                    o is Success,
                    elapsed_of(o@),
                    match o@ {
                        OutcomeView::Success { text, .. } => Some(text),
                        OutcomeView::Failure { .. } => None,
                    },
                ),
                success: o is Success,
            },
        ),
        final(recorder).wf(),
        final(recorder).stats == stats_after(old(recorder).stats, elapsed_of(o@), o is Success),
        final(recorder).history@.len() == history_len_after(old(recorder).history@.len(), 1),
{
    match o {
        Outcome::Success { text, elapsed_ms } => recorder.record(
            kind,
            model,
            *elapsed_ms,
            true,
            Some(text.as_str()),
            String::from_str(timestamp),
        ),
        Outcome::Failure { .. } => recorder.record(
            kind,
            model,
            0,
            false,
            None,
            String::from_str(timestamp),
        ),
    }
}

/// The benchmark controller: at most one operation in flight, the
/// performance recorder, and the cooldown gate.
pub struct Orchestrator {
    pub config: BenchConfig,
    pub op: Operation,
    pub recorder: PerformanceRecorder,
    pub cooldown: CooldownGate,
    /// The variant of the last single request; status operations are
    /// recorded under its model.
    pub selected: ModelType,
    /// Requests recorded in the session when the current operation started.
    pub op_base: Ghost<int>,
}

pub open spec fn op_wf(v: OperationView) -> bool {
    match v {
        OperationView::Stress { slots, .. } => slots.len() == STRESS_SLOTS,
        _ => true,
    }
}

/// Slots of a stress operation that have their outcome.
pub open spec fn done_count(s: Seq<Option<OutcomeView>>) -> int
    decreases s.len(),
{
    if s.len() == 0 {
        0
    } else {
        done_count(s.drop_last()) + if s.last() is Some {
            1int
        } else {
            0
        }
    }
}

proof fn lemma_done_count_none(s: Seq<Option<OutcomeView>>)
    requires
        forall|i: int| 0 <= i < s.len() ==> s[i] is None,
    ensures
        done_count(s) == 0,
    decreases s.len(),
{
    if s.len() > 0 {
        lemma_done_count_none(s.drop_last());
    }
}

proof fn lemma_done_count_all(s: Seq<Option<OutcomeView>>)
    requires
        forall|i: int| 0 <= i < s.len() ==> s[i] is Some,
    ensures
        done_count(s) == s.len(),
    decreases s.len(),
{
    if s.len() > 0 {
        lemma_done_count_all(s.drop_last());
    }
}

proof fn lemma_done_count_fill(s: Seq<Option<OutcomeView>>, i: int, o: OutcomeView)
    requires
        0 <= i < s.len(),
        s[i] is None,
    ensures
        done_count(s.update(i, Some(o))) == done_count(s) + 1,
    decreases s.len(),
{
    let t = s.update(i, Some(o));
    if i == s.len() - 1 {
        assert(t.drop_last() =~= s.drop_last());
    } else {
        assert(t.drop_last() =~= s.drop_last().update(i, Some(o)));
        lemma_done_count_fill(s.drop_last(), i, o);
    }
}

pub open spec fn completed_count(v: OperationView) -> int {
    match v {
        OperationView::Idle => 0,
        OperationView::Single { slot, .. } => if slot is Some { 1 } else { 0 },
        OperationView::Compare { q4, q5 } => (if q4 is Some { 1int } else { 0 }) + (if q5 is Some {
            1int
        } else {
            0
        }),
        OperationView::Stress { slots, .. } => done_count(slots),
    }
}

/// Slots owned by an operation.
pub open spec fn slot_count(v: OperationView) -> int {
    match v {
        OperationView::Idle => 0,
        OperationView::Single { .. } => 1,
        OperationView::Compare { .. } => 2,
        OperationView::Stress { .. } => STRESS_SLOTS as int,
    }
}

impl Orchestrator {
    pub open spec fn wf(&self) -> bool {
        &&& self.recorder.wf()
        &&& op_wf(self.op@)
        &&& !(self.op is Idle) ==> self.recorder.stats.total_requests == self.op_base@
            + completed_count(self.op@)
    }

    /// The checks every start makes: nothing in flight, and, for benchmark
    /// operations, a closed cooldown window.
    pub open spec fn start_refusal(&self, gated: bool, now_ms: u64) -> Option<StartError> {
        if !(self.op is Idle) {
            Some(StartError::Busy)
        } else if gated && remaining_spec(self.cooldown.last_trigger_ms, now_ms) is Some {
            Some(
                StartError::CoolingDown {
                    remaining_ms: remaining_spec(self.cooldown.last_trigger_ms, now_ms)->0,
                },
            )
        } else {
            None
        }
    }

    /// A controller with nothing in flight, an empty history and a closed
    /// cooldown window.
    pub fn new(config: BenchConfig) -> (r: Orchestrator)
        ensures
            r.wf(),
            r.config == config,
            r.op is Idle,
            r.recorder.history@.len() == 0,
            r.recorder.stats.total_requests == 0,
            r.cooldown.last_trigger_ms is None,
            r.selected == ModelType::Q4,
    {
        Orchestrator {
            config,
            op: Operation::Idle,
            recorder: PerformanceRecorder::new(),
            cooldown: CooldownGate::new(),
            selected: ModelType::Q4,
            op_base: Ghost(0),
        }
    }

    fn check_start(&self, gated: bool, now_ms: u64) -> (r: Result<(), StartError>)
        ensures
            r is Err <==> self.start_refusal(gated, now_ms) is Some,
            r is Err ==> r->Err_0 == self.start_refusal(gated, now_ms)->0,
    {
        match self.op {
            Operation::Idle => {},
            _ => {
                return Err(StartError::Busy);
            },
        }
        if gated {
            match self.cooldown.remaining(now_ms) {
                Some(remaining_ms) => {
                    return Err(StartError::CoolingDown { remaining_ms });
                },
                None => {},
            }
        }
        Ok(())
    }

    /// Starts one generation call with `model` on `prompt`.
    pub fn start_single(&mut self, prompt: &str, model: ModelType, now_ms: u64) -> (r: Result<
        Dispatch,
        StartError,
    >)
        requires
            old(self).wf(),
        ensures
            final(self).wf(),
            final(self).config == old(self).config,
            final(self).recorder == old(self).recorder,
            final(self).cooldown == old(self).cooldown,
            r is Ok ==> final(self).op_base@ == old(self).recorder.stats.total_requests,
            old(self).start_refusal(true, now_ms) is Some ==> r == Err::<Dispatch, StartError>(
                old(self).start_refusal(true, now_ms)->0,
            ),
            old(self).start_refusal(true, now_ms) is None && is_blank_text(prompt@) ==> r == Err::<
                Dispatch,
                StartError,
            >(StartError::EmptyPrompt),
            r is Err ==> final(self).op == old(self).op && final(self).selected == old(self).selected,
            old(self).start_refusal(true, now_ms) is None && !is_blank_text(prompt@) ==> {
                &&& r matches Ok(Dispatch::Generate { slot, url, request, label, delay_ms })
                &&& slot == Slot::Single && delay_ms == 0
                &&& url@ == old(self).config.base_url@ + "/api/generate"@
                &&& request.model@ == old(self).config.model_spec(model)
                &&& request.prompt@ == prompt@ && !request.stream
                &&& label@ == model.label_spec()
                &&& final(self).selected == model
                &&& final(self).op@ == (OperationView::Single {
                    kind: SingleKind::Generate,
                    model: old(self).config.model_spec(model),
                    slot: None,
                })
            },
    {
        match self.check_start(true, now_ms) {
            Err(e) => {
                return Err(e);
            },
            Ok(()) => {},
        }
        if is_blank(prompt) {
            return Err(StartError::EmptyPrompt);
        }
        let name = self.config.model_name(model);
        self.selected = model;
        self.op = Operation::Single {
            kind: SingleKind::Generate,
            model: name.clone(),
            slot: SlotState::Pending,
        };
        self.op_base = Ghost(self.recorder.stats.total_requests as int);
        Ok(
            Dispatch::Generate {
                slot: Slot::Single,
                url: self.config.generate_url(),
                request: BenchmarkRequest::new(name, String::from_str(prompt)),
                label: model.label(),
                delay_ms: 0,
            },
        )
    }

    /// Starts one generation call per variant on the same prompt, both at
    /// once.
    pub fn start_compare(&mut self, prompt: &str, now_ms: u64) -> (r: Result<
        Vec<Dispatch>,
        StartError,
    >)
        requires
            old(self).wf(),
        ensures
            final(self).wf(),
            final(self).config == old(self).config,
            final(self).recorder == old(self).recorder,
            final(self).cooldown == old(self).cooldown,
            r is Ok ==> final(self).op_base@ == old(self).recorder.stats.total_requests,
            old(self).start_refusal(true, now_ms) is Some ==> r == Err::<Vec<Dispatch>, StartError>(
                old(self).start_refusal(true, now_ms)->0,
            ),
            old(self).start_refusal(true, now_ms) is None && is_blank_text(prompt@) ==> r == Err::<
                Vec<Dispatch>,
                StartError,
            >(StartError::EmptyPrompt),
            r is Err ==> final(self).op == old(self).op,
            final(self).selected == old(self).selected,
            old(self).start_refusal(true, now_ms) is None && !is_blank_text(prompt@) ==> {
                &&& r is Ok && r->Ok_0@.len() == 2
                &&& forall|i: int|
                    0 <= i < 2 ==> {
                        let m = if i == 0 { ModelType::Q4 } else { ModelType::Q5 };
                        &&& #[trigger] r->Ok_0@[i] matches Dispatch::Generate {
                            slot,
                            url,
                            request,
                            label,
                            delay_ms,
                        }
                        &&& slot == (if i == 0 { Slot::Q4 } else { Slot::Q5 }) && delay_ms == 0
                        &&& url@ == old(self).config.base_url@ + "/api/generate"@
                        &&& request.model@ == old(self).config.model_spec(m)
                        &&& request.prompt@ == prompt@ && !request.stream
                        &&& label@ == m.label_spec()
                    }
                &&& final(self).op@ == (OperationView::Compare { q4: None, q5: None })
            },
    {
        match self.check_start(true, now_ms) {
            Err(e) => {
                return Err(e);
            },
            Ok(()) => {},
        }
        if is_blank(prompt) {
            return Err(StartError::EmptyPrompt);
        }
        self.op = Operation::Compare { q4: SlotState::Pending, q5: SlotState::Pending };
        self.op_base = Ghost(self.recorder.stats.total_requests as int);
        let mut out: Vec<Dispatch> = Vec::new();
        out.push(
            Dispatch::Generate {
                slot: Slot::Q4,
                url: self.config.generate_url(),
                request: BenchmarkRequest::new(
                    self.config.model_name(ModelType::Q4),
                    String::from_str(prompt),
                ),
                label: ModelType::Q4.label(),
                delay_ms: 0,
            },
        );
        out.push(
            Dispatch::Generate {
                slot: Slot::Q5,
                url: self.config.generate_url(),
                request: BenchmarkRequest::new(
                    self.config.model_name(ModelType::Q5),
                    String::from_str(prompt),
                ),
                label: ModelType::Q5.label(),
                delay_ms: 0,
            },
        );
        Ok(out)
    }

    /// Starts five generation calls with the first variant, each on the
    /// prompt followed by its number, started 50 ms apart. A blank prompt
    /// is replaced by a default one.
    pub fn start_stress(&mut self, prompt: &str, now_ms: u64) -> (r: Result<
        Vec<Dispatch>,
        StartError,
    >)
        requires
            old(self).wf(),
        ensures
            final(self).wf(),
            final(self).config == old(self).config,
            final(self).recorder == old(self).recorder,
            final(self).cooldown == old(self).cooldown,
            r is Ok ==> final(self).op_base@ == old(self).recorder.stats.total_requests,
            old(self).start_refusal(true, now_ms) is Some ==> r == Err::<Vec<Dispatch>, StartError>(
                old(self).start_refusal(true, now_ms)->0,
            ),
            r is Err ==> final(self).op == old(self).op,
            final(self).selected == old(self).selected,
            old(self).start_refusal(true, now_ms) is None ==> {
                let p = if is_blank_text(prompt@) { default_stress_prompt() } else { prompt@ };
                &&& r is Ok && r->Ok_0@.len() == STRESS_SLOTS
                &&& forall|i: int|
                    0 <= i < STRESS_SLOTS ==> {
                        &&& #[trigger] r->Ok_0@[i] matches Dispatch::Generate {
                            slot,
                            url,
                            request,
                            label,
                            delay_ms,
                        }
                        &&& slot == Slot::Stress(i as usize) && delay_ms == i * STRESS_STAGGER_MS
                        &&& url@ == old(self).config.base_url@ + "/api/generate"@
                        &&& request.model@ == old(self).config.q4_model@
                        &&& request.prompt@ == stress_prompt(p, i) && !request.stream
                        &&& label@ == "Stress-"@ + stress_index_text(i)
                    }
                &&& final(self).op@ matches OperationView::Stress { slots, started_ms }
                &&& started_ms == now_ms
                &&& slots =~= Seq::new(STRESS_SLOTS as nat, |i: int| None::<OutcomeView>)
            },
    {
        match self.check_start(true, now_ms) {
            Err(e) => {
                return Err(e);
            },
            Ok(()) => {},
        }
        let base = if is_blank(prompt) {
            String::from_str("Test stress")
        } else {
            String::from_str(prompt)
        };
        let url = self.config.generate_url();
        let mut out: Vec<Dispatch> = Vec::new();
        let mut slots: Vec<SlotState> = Vec::new();
        let mut i: usize = 0;
        while i < STRESS_SLOTS
            invariant
                i <= STRESS_SLOTS,
                out@.len() == i,
                slots@.len() == i,
                url@ == self.config.base_url@ + "/api/generate"@,
                forall|j: int| 0 <= j < i ==> #[trigger] slots@[j] is Pending,
                forall|j: int|
                    0 <= j < i ==> {
                        &&& #[trigger] out@[j] matches Dispatch::Generate {
                            slot,
                            url: u,
                            request,
                            label,
                            delay_ms,
                        }
                        &&& slot == Slot::Stress(j as usize) && delay_ms == j * STRESS_STAGGER_MS
                        &&& u@ == url@
                        &&& request.model@ == self.config.q4_model@
                        &&& request.prompt@ == stress_prompt(base@, j) && !request.stream
                        &&& label@ == "Stress-"@ + stress_index_text(j)
                    },
            decreases STRESS_SLOTS - i,
        {
            let n = stress_index(i);
            let text = base.clone().concat(" (Stress Request ").concat(n).concat(")");
            out.push(
                Dispatch::Generate {
                    slot: Slot::Stress(i),
                    url: url.clone(),
                    request: BenchmarkRequest::new(self.config.q4_model.clone(), text),
                    label: String::from_str("Stress-").concat(n),
                    delay_ms: i as u64 * STRESS_STAGGER_MS,
                },
            );
            slots.push(SlotState::Pending);
            i = i + 1;
        }
        self.op = Operation::Stress { slots, started_ms: now_ms };
        self.op_base = Ghost(self.recorder.stats.total_requests as int);
        proof {
            assert(slots@.map_values(|s: SlotState| slot_view(s)) =~= Seq::new(
                STRESS_SLOTS as nat,
                |i: int| None::<OutcomeView>,
            ));
            lemma_done_count_none(slots@.map_values(|s: SlotState| slot_view(s)));
        }
        Ok(out)
    }

    fn start_utility(&mut self, kind: SingleKind)
        requires
            old(self).wf(),
            old(self).op is Idle,
        ensures
            final(self).wf(),
            final(self).config == old(self).config,
            final(self).recorder == old(self).recorder,
            final(self).cooldown == old(self).cooldown,
            final(self).selected == old(self).selected,
            final(self).op_base@ == old(self).recorder.stats.total_requests,
            final(self).op@ == (OperationView::Single {
                kind,
                model: old(self).config.model_spec(old(self).selected),
                slot: None,
            }),
    {
        self.op = Operation::Single {
            kind,
            model: self.config.model_name(self.selected),
            slot: SlotState::Pending,
        };
        self.op_base = Ghost(self.recorder.stats.total_requests as int);
    }

    /// Starts a probe of the endpoint's tag listing; not held back by the
    /// cooldown.
    pub fn start_connection_test(&mut self) -> (r: Result<Dispatch, StartError>)
        requires
            old(self).wf(),
        ensures
            final(self).wf(),
            final(self).config == old(self).config,
            final(self).recorder == old(self).recorder,
            final(self).cooldown == old(self).cooldown,
            r is Ok ==> final(self).op_base@ == old(self).recorder.stats.total_requests,
            final(self).selected == old(self).selected,
            !(old(self).op is Idle) ==> r == Err::<Dispatch, StartError>(StartError::Busy)
                && final(self).op == old(self).op,
            old(self).op is Idle ==> {
                &&& r matches Ok(Dispatch::Probe { url })
                &&& url@ == old(self).config.base_url@ + "/api/tags"@
                &&& final(self).op@ == (OperationView::Single {
                    kind: SingleKind::ConnectionTest,
                    model: old(self).config.model_spec(old(self).selected),
                    slot: None,
                })
            },
    {
        match self.check_start(false, 0) {
            Err(e) => {
                return Err(e);
            },
            Ok(()) => {},
        }
        self.start_utility(SingleKind::ConnectionTest);
        Ok(Dispatch::Probe { url: self.config.tags_url() })
    }

    /// Starts a listing of the models held in memory; not held back by the
    /// cooldown.
    pub fn start_status_check(&mut self) -> (r: Result<Dispatch, StartError>)
        requires
            old(self).wf(),
        ensures
            final(self).wf(),
            final(self).config == old(self).config,
            final(self).recorder == old(self).recorder,
            final(self).cooldown == old(self).cooldown,
            r is Ok ==> final(self).op_base@ == old(self).recorder.stats.total_requests,
            final(self).selected == old(self).selected,
            !(old(self).op is Idle) ==> r == Err::<Dispatch, StartError>(StartError::Busy)
                && final(self).op == old(self).op,
            old(self).op is Idle ==> {
                &&& r matches Ok(Dispatch::Listing { url })
                &&& url@ == old(self).config.base_url@ + "/api/ps"@
                &&& final(self).op@ == (OperationView::Single {
                    kind: SingleKind::StatusCheck,
                    model: old(self).config.model_spec(old(self).selected),
                    slot: None,
                })
            },
    {
        match self.check_start(false, 0) {
            Err(e) => {
                return Err(e);
            },
            Ok(()) => {},
        }
        self.start_utility(SingleKind::StatusCheck);
        Ok(Dispatch::Listing { url: self.config.ps_url() })
    }

    /// Starts warm-up calls to both models; not held back by the cooldown,
    /// and arms it when it completes.
    pub fn start_preload(&mut self) -> (r: Result<Dispatch, StartError>)
        requires
            old(self).wf(),
        ensures
            final(self).wf(),
            final(self).config == old(self).config,
            final(self).recorder == old(self).recorder,
            final(self).cooldown == old(self).cooldown,
            r is Ok ==> final(self).op_base@ == old(self).recorder.stats.total_requests,
            final(self).selected == old(self).selected,
            !(old(self).op is Idle) ==> r == Err::<Dispatch, StartError>(StartError::Busy)
                && final(self).op == old(self).op,
            old(self).op is Idle ==> {
                &&& r matches Ok(Dispatch::Preload { url, first, second })
                &&& url@ == old(self).config.base_url@ + "/api/generate"@
                &&& first.model@ == old(self).config.q4_model@ && first.prompt@ == "Hi"@
                &&& second.model@ == old(self).config.q5_model@ && second.prompt@ == "Hi"@
                &&& !first.stream && !second.stream
                &&& final(self).op@ == (OperationView::Single {
                    kind: SingleKind::Preload,
                    model: old(self).config.model_spec(old(self).selected),
                    slot: None,
                })
            },
    {
        match self.check_start(false, 0) {
            Err(e) => {
                return Err(e);
            },
            Ok(()) => {},
        }
        self.start_utility(SingleKind::Preload);
        Ok(
            Dispatch::Preload {
                url: self.config.generate_url(),
                first: BenchmarkRequest::new(self.config.q4_model.clone(), String::from_str("Hi")),
                second: BenchmarkRequest::new(self.config.q5_model.clone(), String::from_str("Hi")),
            },
        )
    }

    fn apply_arrival(&mut self, a: Arrival, timestamp: &str)
        requires
            old(self).wf(),
            !(old(self).op is Idle),
            old(self).recorder.stats.total_requests < u64::MAX,
        ensures
            final(self).wf(),
            !(final(self).op is Idle),
            final(self).config == old(self).config,
            final(self).cooldown == old(self).cooldown,
            final(self).selected == old(self).selected,
            final(self).op_base == old(self).op_base,
            accepts(old(self).op@, a.slot) ==> final(self).op@ == fill(
                old(self).op@,
                a.slot,
                a.outcome@,
            ) && final(self).recorder.stats == stats_after(
                old(self).recorder.stats,
                elapsed_of(a.outcome@),
                a.outcome is Success,
            ) && final(self).recorder.history@.len() == history_len_after(
                old(self).recorder.history@.len(),
                1,
            ) && history_view(final(self).recorder.history@) == bounded_push(
                history_view(old(self).recorder.history@),
                record_of(old(self).config, old(self).op@, a.slot, a.outcome@),
            ) && final(self).recorder.history@ == bounded_push(
                old(self).recorder.history@,
                final(self).recorder.history@.last(),
            ) && final(self).recorder.history@.last().timestamp@ == timestamp@,
            !accepts(old(self).op@, a.slot) ==> final(self).op@ == old(self).op@
                && final(self).recorder == old(self).recorder,
    {
        let ghost v = self.op@;
        let Arrival { slot, outcome } = a;
        let mut op = Operation::Idle;
        core::mem::swap(&mut op, &mut self.op);
        proof {
            if accepts(v, slot) {
                lemma_fill_counts(v, slot, outcome@);
            }
        }
        match op {
            Operation::Idle => {
                self.op = Operation::Idle;
            },
            Operation::Single { kind, model, slot: state } => {
                if slot == Slot::Single && matches!(state, SlotState::Pending) {
                    record_outcome(&mut self.recorder, RecordKind::Single, model.as_str(), &outcome, timestamp);
                    self.op = Operation::Single { kind, model, slot: SlotState::Completed(outcome) };
                } else {
                    self.op = Operation::Single { kind, model, slot: state };
                }
            },
            Operation::Compare { q4, q5 } => {
                if slot == Slot::Q4 && matches!(q4, SlotState::Pending) {
                    record_outcome(
                        &mut self.recorder,
                        RecordKind::Compare,
                        self.config.q4_model.as_str(),
                        &outcome,
                        timestamp,
                    );
                    self.op = Operation::Compare { q4: SlotState::Completed(outcome), q5 };
                } else if slot == Slot::Q5 && matches!(q5, SlotState::Pending) {
                    record_outcome(
                        &mut self.recorder,
                        RecordKind::Compare,
                        self.config.q5_model.as_str(),
                        &outcome,
                        timestamp,
                    );
                    self.op = Operation::Compare { q4, q5: SlotState::Completed(outcome) };
                } else {
                    self.op = Operation::Compare { q4, q5 };
                }
            },
            Operation::Stress { mut slots, started_ms } => {
                match slot {
                    Slot::Stress(i) => {
                        if i < slots.len() && matches!(slots[i], SlotState::Pending) {
                            record_outcome(
                                &mut self.recorder,
                                RecordKind::Stress,
                                self.config.q4_model.as_str(),
                                &outcome,
                                timestamp,
                            );
                            let ghost before = slots@;
                            slots.set(i, SlotState::Completed(outcome));
                            proof {
                                assert(slots@.map_values(|s: SlotState| slot_view(s)) =~= before.map_values(
                                    |s: SlotState| slot_view(s),
                                ).update(i as int, Some(outcome@)));
                            }
                        }
                    },
                    _ => {},
                }
                self.op = Operation::Stress { slots, started_ms };
            },
        }
    }

    fn is_done(&self) -> (r: bool)
        ensures
            r == is_complete(self.op@),
    {
        match &self.op {
            Operation::Idle => false,
            Operation::Single { slot, .. } => matches!(slot, SlotState::Completed(_)),
            Operation::Compare { q4, q5 } => matches!(q4, SlotState::Completed(_)) && matches!(
                q5,
                SlotState::Completed(_)
            ),
            Operation::Stress { slots, .. } => {
                let ghost sv = slots@.map_values(|s: SlotState| slot_view(s));
                assert(self.op@->Stress_slots == sv);
                let mut i: usize = 0;
                while i < slots.len()
                    invariant
                        i <= slots@.len(),
                        sv == slots@.map_values(|s: SlotState| slot_view(s)),
                        self.op@ is Stress,
                        self.op@->Stress_slots == sv,
                        forall|j: int| 0 <= j < i ==> #[trigger] sv[j] is Some,
                    decreases slots@.len() - i,
                {
                    if matches!(slots[i], SlotState::Pending) {
                        assert(sv[i as int] is None);
                        assert(!is_complete(self.op@));
                        return false;
                    }
                    i = i + 1;
                }
                true
            },
        }
    }

    fn finish(&mut self, now_ms: u64) -> (r: Completion)
        requires
            old(self).wf(),
            is_complete(old(self).op@),
        ensures
            reports(r, old(self).op@, now_ms),
            final(self).op is Idle,
            final(self).recorder == old(self).recorder,
            final(self).config == old(self).config,
            final(self).selected == old(self).selected,
            final(self).cooldown.last_trigger_ms == if old(self).op@ matches OperationView::Single {
                kind: SingleKind::Preload,
                ..
            } {
                Some(now_ms)
            } else {
                old(self).cooldown.last_trigger_ms
            },
    {
        let mut op = Operation::Idle;
        core::mem::swap(&mut op, &mut self.op);
        match op {
            Operation::Single { kind, slot, .. } => {
                if kind == SingleKind::Preload {
                    self.cooldown.arm(now_ms);
                }
                let outcome = match slot {
                    SlotState::Completed(o) => o,
                    SlotState::Pending => Outcome::Failure { message: String::new() },
                };
                let stats = response_stats(&outcome);
                Completion::Single { kind, outcome, stats }
            },
            Operation::Compare { q4, q5 } => {
                let a = match q4 {
                    SlotState::Completed(o) => o,
                    SlotState::Pending => Outcome::Failure { message: String::new() },
                };
                let b = match q5 {
                    SlotState::Completed(o) => o,
                    SlotState::Pending => Outcome::Failure { message: String::new() },
                };
                let comparison = compare_outcomes(&a, &b);
                Completion::Compare { q4: a, q5: b, comparison }
            },
            Operation::Stress { slots, started_ms } => {
                let summary = summarize_stress(&slots, started_ms, now_ms);
                Completion::Stress { slots, summary }
            },
            Operation::Idle => Completion::Single {
                kind: SingleKind::Generate,
                outcome: Outcome::Failure { message: String::new() },
                stats: None,
            },
        }
    }

    /// The poll step: takes every outcome that has arrived, completes and
    /// records the pending slots they are for, and, once every slot of the
    /// operation holds its outcome, returns its report and goes back to idle.
    /// With nothing in flight it changes nothing. Records made are stamped
    /// with `timestamp`, the wall-clock time of the poll.
    pub fn drain(&mut self, arrivals: Vec<Arrival>, now_ms: u64, timestamp: &str) -> (r:
        Option<Completion>)
        requires
            old(self).wf(),
            old(self).recorder.stats.total_requests + arrivals@.len() <= u64::MAX,
        ensures
            final(self).wf(),
            final(self).config == old(self).config,
            final(self).selected == old(self).selected,
            final(self).recorder.history@.len() == history_len_after(
                old(self).recorder.history@.len(),
                (final(self).recorder.stats.total_requests - old(self).recorder.stats.total_requests) as nat,
            ),
            kept_and_stamped(
                old(self).recorder.history@,
                final(self).recorder.history@,
                final(self).recorder.stats.total_requests - old(self).recorder.stats.total_requests,
                timestamp@,
            ),
            ({
                let (v, s) = after_arrivals(old(self).op@, old(self).recorder.stats, arrivals@);
                &&& final(self).recorder.stats == s
                &&& history_view(final(self).recorder.history@) == history_after(
                    old(self).config,
                    old(self).op@,
                    history_view(old(self).recorder.history@),
                    arrivals@,
                )
                &&& old(self).op is Idle ==> r is None && final(self).op == old(self).op
                    && final(self).recorder == old(self).recorder && final(self).cooldown
                    == old(self).cooldown
                &&& !(old(self).op is Idle) && !is_complete(v) ==> r is None && final(self).op@ == v
                    && final(self).cooldown == old(self).cooldown
                &&& !(old(self).op is Idle) && is_complete(v) ==> {
                    &&& r is Some && reports(r->0, v, now_ms)
                    &&& final(self).op is Idle
                    &&& final(self).recorder.stats.total_requests == old(self).op_base@ + slot_count(
                        old(self).op@,
                    )
                    &&& final(self).cooldown.last_trigger_ms == if v matches OperationView::Single {
                        kind: SingleKind::Preload,
                        ..
                    } {
                        Some(now_ms)
                    } else {
                        old(self).cooldown.last_trigger_ms
                    }
                }
            }),
    {
        if matches!(self.op, Operation::Idle) {
            proof {
                lemma_idle_ignores(self.config, self.recorder.stats, history_view(self.recorder.history@), arrivals@);
            }
            return None;
        }
        let ghost all = arrivals@;
        let mut rest = arrivals;
        while rest.len() > 0
            invariant
                self.wf(),
                !(self.op is Idle),
                self.config == old(self).config,
                self.cooldown == old(self).cooldown,
                self.selected == old(self).selected,
                self.op_base == old(self).op_base,
                slot_count(self.op@) == slot_count(old(self).op@),
                self.recorder.stats.total_requests + rest@.len() <= u64::MAX,
                self.recorder.stats.total_requests >= old(self).recorder.stats.total_requests,
                self.recorder.history@.len() == history_len_after(
                    old(self).recorder.history@.len(),
                    (self.recorder.stats.total_requests - old(self).recorder.stats.total_requests) as nat,
                ),
                kept_and_stamped(
                    old(self).recorder.history@,
                    self.recorder.history@,
                    self.recorder.stats.total_requests - old(self).recorder.stats.total_requests,
                    timestamp@,
                ),
                after_arrivals(self.op@, self.recorder.stats, rest@) == after_arrivals(
                    old(self).op@,
                    old(self).recorder.stats,
                    all,
                ),
                history_after(self.config, self.op@, history_view(self.recorder.history@), rest@)
                    == history_after(
                    old(self).config,
                    old(self).op@,
                    history_view(old(self).recorder.history@),
                    all,
                ),
            decreases rest@.len(),
        {
            let ghost before = rest@;
            let a = rest.remove(0);
            assert(rest@ =~= before.subrange(1, before.len() as int));
            let ghost h = self.recorder.history@;
            let ghost n = self.recorder.stats.total_requests - old(self).recorder.stats.total_requests;
            let ghost accepted = accepts(self.op@, a.slot);
            proof {
                if accepted {
                    lemma_fill_counts(self.op@, a.slot, a.outcome@);
                }
            }
            self.apply_arrival(a, timestamp);
            proof {
                if accepted {
                    lemma_kept_step(
                        old(self).recorder.history@,
                        h,
                        n,
                        timestamp@,
                        self.recorder.history@.last(),
                    );
                }
            }
        }
        if self.is_done() {
            proof {
                lemma_complete_counts(self.op@);
            }
            Some(self.finish(now_ms))
        } else {
            None
        }
    }
}

} // verus!
