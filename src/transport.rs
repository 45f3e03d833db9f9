use vstd::prelude::*;

verus! {

/// Attempts made for one request before giving up.
pub const MAX_ATTEMPTS: u32 = 3;

/// Base delay, in milliseconds, before a new attempt.
pub const RETRY_DELAY_MS: u64 = 1000;

/// The terminal result of one dispatched request.
#[derive(Clone, Debug)]
pub enum Outcome {
    Success { text: String, elapsed_ms: u64 },
    Failure { message: String },
}

/// What an outcome holds, with its strings as character sequences.
pub enum OutcomeView {
    Success { text: Seq<char>, elapsed_ms: u64 },
    Failure { message: Seq<char> },
}

impl View for Outcome {
    type V = OutcomeView;

    open spec fn view(&self) -> OutcomeView {
        match self {
            Outcome::Success { text, elapsed_ms } => OutcomeView::Success {
                text: text@,
                elapsed_ms: *elapsed_ms,
            },
            Outcome::Failure { message } => OutcomeView::Failure { message: message@ },
        }
    }
}

impl Outcome {
    pub fn is_success(&self) -> (r: bool)
        ensures
            r == (self is Success),
    {
        match self {
            Outcome::Success { .. } => true,
            Outcome::Failure { .. } => false,
        }
    }
}

/// How a request failed below the HTTP layer.
#[derive(Clone, Copy, Debug, PartialEq, Eq, Structural)]
pub enum TransportClass {
    Timeout,
    Connect,
    Other,
}

/// What one attempt of a request came to.
#[derive(Clone, Debug)]
pub enum AttemptEvent {
    /// The body was read and decoded; `elapsed_ms` is this attempt's own time.
    Succeeded { text: String, elapsed_ms: u64 },
    /// No response arrived.
    TransportError { class: TransportClass, detail: String },
    /// A success status came, but its body could not be read.
    ReadFailed { detail: String },
    /// The body was read but is not a generation response.
    DecodeFailed { detail: String },
    /// A status other than success; `status` is its printed form.
    HttpStatus { code: u16, status: String, body: String },
}

/// What the worker does after an attempt.
#[derive(Clone, Debug)]
pub enum Step {
    Retry { delay_ms: u64 },
    Done(Outcome),
}

pub enum StepView {
    Retry { delay_ms: u64 },
    Done(OutcomeView),
}

impl View for Step {
    type V = StepView;

    open spec fn view(&self) -> StepView {
        match self {
            Step::Retry { delay_ms } => StepView::Retry { delay_ms: *delay_ms },
            Step::Done(o) => StepView::Done(o@),
        }
    }
}

/// Statuses worth another attempt: server errors and rate limiting.
pub open spec fn is_retryable_status(code: u16) -> bool {
    (500 <= code && code <= 599) || code == 429
}

pub open spec fn failed(message: Seq<char>) -> StepView {
    StepView::Done(OutcomeView::Failure { message })
}

/// The decision after attempt number `attempt` (counted from 1) of the
/// request labelled `label`.
pub open spec fn decide(label: Seq<char>, attempt: nat, ev: AttemptEvent) -> StepView {
    let last = attempt >= MAX_ATTEMPTS;
    match ev {
        AttemptEvent::Succeeded { text, elapsed_ms } => StepView::Done(
            OutcomeView::Success { text: text@, elapsed_ms },
        ),
        AttemptEvent::TransportError { class, detail } => if !last {
            StepView::Retry { delay_ms: (RETRY_DELAY_MS * attempt) as u64 }
        } else {
            match class {
                TransportClass::Timeout => failed(label + " Request timed out after 3 attempts"@),
                TransportClass::Connect => failed(label + " Connection failed after 3 attempts"@),
                TransportClass::Other => failed(
                    label + " Network error after 3 attempts: "@ + detail@,
                ),
            }
        },
        AttemptEvent::ReadFailed { detail } => if !last {
            StepView::Retry { delay_ms: RETRY_DELAY_MS }
        } else {
            failed(label + " Failed to read response text: "@ + detail@)
        },
        AttemptEvent::DecodeFailed { detail } => if !last {
            StepView::Retry { delay_ms: RETRY_DELAY_MS }
        } else {
            failed(label + " Failed to parse JSON: "@ + detail@)
        },
        AttemptEvent::HttpStatus { code, status, body } => if !last && is_retryable_status(code) {
            StepView::Retry { delay_ms: RETRY_DELAY_MS }
        } else {
            failed(label + " HTTP "@ + status@ + ": "@ + body@)
        },
    }
}

fn joined(label: &String, middle: &str, detail: &str) -> (r: String)
    ensures
        r@ == label@ + middle@ + detail@,
{
    label.clone().concat(middle).concat(detail)
}

fn suffixed(label: &String, tail: &str) -> (r: String)
    ensures
        r@ == label@ + tail@,
{
    label.clone().concat(tail)
}

fn failure(message: String) -> (r: Step)
    ensures
        r@ == failed(message@),
{
    Step::Done(Outcome::Failure { message })
}

/// The retry policy of one request, driven one attempt at a time: the caller
/// performs attempt number `attempt`, reports it, and either waits and tries
/// again or hands on the single terminal outcome.
#[derive(Clone, Debug)]
pub struct RetryWorker {
    pub label: String,
    pub attempt: u32,
    pub finished: bool,
}

impl RetryWorker {
    pub open spec fn wf(&self) -> bool {
        1 <= self.attempt <= MAX_ATTEMPTS
    }

    /// A worker about to make its first attempt.
    pub fn new(label: String) -> (r: RetryWorker)
        ensures
            r.wf(),
            r.label == label,
            r.attempt == 1,
            !r.finished,
    {
        RetryWorker { label, attempt: 1, finished: false }
    }

    /// Takes the result of the current attempt and says what comes next.
    pub fn on_attempt(&mut self, ev: AttemptEvent) -> (s: Step)
        requires
            old(self).wf(),
            !old(self).finished,
        ensures
            s@ == decide(old(self).label@, old(self).attempt as nat, ev),
            final(self).wf(),
            final(self).label == old(self).label,
            final(self).finished == (s is Done),
            s is Retry ==> final(self).attempt == old(self).attempt + 1,
            s is Done ==> final(self).attempt == old(self).attempt,
    {
        let last = self.attempt >= MAX_ATTEMPTS;
        let step = match ev {
            AttemptEvent::Succeeded { text, elapsed_ms } => Step::Done(
                Outcome::Success { text, elapsed_ms },
            ),
            AttemptEvent::TransportError { class, detail } => {
                if !last {
                    Step::Retry { delay_ms: RETRY_DELAY_MS * self.attempt as u64 }
                } else {
                    match class {
                        TransportClass::Timeout => failure(
                            suffixed(&self.label, " Request timed out after 3 attempts"),
                        ),
                        TransportClass::Connect => failure(
                            suffixed(&self.label, " Connection failed after 3 attempts"),
                        ),
                        TransportClass::Other => failure(
                            joined(&self.label, " Network error after 3 attempts: ", detail.as_str()),
                        ),
                    }
                }
            },
            AttemptEvent::ReadFailed { detail } => {
                if !last {
                    Step::Retry { delay_ms: RETRY_DELAY_MS }
                } else {
                    failure(joined(&self.label, " Failed to read response text: ", detail.as_str()))
                }
            },
            AttemptEvent::DecodeFailed { detail } => {
                if !last {
                    Step::Retry { delay_ms: RETRY_DELAY_MS }
                } else {
                    failure(joined(&self.label, " Failed to parse JSON: ", detail.as_str()))
                }
            },
            AttemptEvent::HttpStatus { code, status, body } => {
                if !last && ((500 <= code && code <= 599) || code == 429) {
                    Step::Retry { delay_ms: RETRY_DELAY_MS }
                } else {
                    let head = joined(&self.label, " HTTP ", status.as_str());
                    failure(joined(&head, ": ", body.as_str()))
                }
            },
        };
        match step {
            Step::Retry { .. } => {
                self.attempt = self.attempt + 1;
            },
            Step::Done(_) => {
                self.finished = true;
            },
        }
        step
    }
}

/// A request whose first two attempts fail to connect and whose third
/// succeeds backs off 1000 ms and then 2000 ms, and ends in one success that
/// carries the text and time of the third attempt alone.
pub proof fn lemma_retry_reports_last_attempt(
    label: Seq<char>,
    first: AttemptEvent,
    second: AttemptEvent,
    third: AttemptEvent,
)
    requires
        first matches AttemptEvent::TransportError { class: TransportClass::Connect, .. },
        second matches AttemptEvent::TransportError { class: TransportClass::Connect, .. },
        third is Succeeded,
    ensures
        decide(label, 1, first) == (StepView::Retry { delay_ms: 1000 }),
        decide(label, 2, second) == (StepView::Retry { delay_ms: 2000 }),
        decide(label, 3, third) == StepView::Done(
            OutcomeView::Success { text: third->Succeeded_text@, elapsed_ms: third->Succeeded_elapsed_ms },
        ),
{
}

} // verus!
