use ollama_ui::controller::{
    Arrival, Completion, Dispatch, Orchestrator, SingleKind, Slot, StartError,
};
use ollama_ui::cooldown::CooldownGate;
use ollama_ui::recorder::{PerformanceRecorder, RecordKind};
use ollama_ui::report::{compare_times, response_stats, SlotState};
use ollama_ui::request::{BenchConfig, ModelType};
use ollama_ui::status::{decimal, listing_result, preload_result, probe_result};
use ollama_ui::transport::{AttemptEvent, Outcome, RetryWorker, Step, TransportClass};

fn ok(text: &str, ms: u64) -> Outcome {
    Outcome::Success { text: text.to_string(), elapsed_ms: ms }
}

fn fail(msg: &str) -> Outcome {
    Outcome::Failure { message: msg.to_string() }
}

fn arrival(slot: Slot, outcome: Outcome) -> Arrival {
    Arrival { slot, outcome }
}

fn success_text(o: &Outcome) -> String {
    match o {
        Outcome::Success { text, .. } => text.clone(),
        Outcome::Failure { message } => panic!("unexpected failure: {}", message),
    }
}

#[test]
fn cooldown_counts_down_and_expires() {
    let mut gate = CooldownGate::new();
    assert_eq!(gate.remaining(0), None);
    assert!(gate.is_clear(0));
    gate.arm(1000);
    assert_eq!(gate.remaining(1000), Some(5000));
    assert_eq!(gate.remaining(3000), Some(3000));
    assert_eq!(gate.remaining(5999), Some(1));
    assert_eq!(gate.remaining(6000), None);
    assert_eq!(gate.remaining(60000), None);
    assert!(!gate.is_clear(2000));
    assert!(gate.is_clear(6000));
}

#[test]
fn preload_arms_cooldown_and_blocks_benchmarks() {
    let mut o = Orchestrator::new(BenchConfig::new());
    let d = o.start_preload().unwrap();
    match d {
        Dispatch::Preload { url, first, second } => {
            assert_eq!(url, "http://localhost:11434/api/generate");
            assert_eq!(first.model, "qwen-contract:latest");
            assert_eq!(second.model, "qwen-contract-q5:latest");
            assert_eq!(first.prompt, "Hi");
            assert!(!first.stream);
        }
        _ => panic!("expected a preload"),
    }
    let summary = preload_result(&ok("x", 1500), &fail("boom"));
    let done = o.drain(vec![arrival(Slot::Single, summary)], 10_000, "12:00:00");
    match done {
        Some(Completion::Single { kind, .. }) => assert_eq!(kind, SingleKind::Preload),
        _ => panic!("expected the preload to complete"),
    }
    assert_eq!(o.cooldown.remaining(12_000), Some(3000));
    assert_eq!(o.start_single("hello", ModelType::Q4, 12_000).unwrap_err(), StartError::CoolingDown { remaining_ms: 3000 });
    assert_eq!(o.start_compare("hello", 14_000).unwrap_err(), StartError::CoolingDown { remaining_ms: 1000 });
    assert_eq!(o.start_stress("hello", 14_999).unwrap_err(), StartError::CoolingDown { remaining_ms: 1 });
    assert!(o.start_status_check().is_ok());
    assert_eq!(o.start_status_check().unwrap_err(), StartError::Busy);
    o.drain(vec![arrival(Slot::Single, listing_result("{\"models\":[]}"))], 14_000, "12:00:00");
    assert!(o.start_single("hello", ModelType::Q4, 15_000).is_ok());
}

#[test]
fn start_guards() {
    let mut o = Orchestrator::new(BenchConfig::new());
    assert_eq!(o.start_single("   ", ModelType::Q4, 0).unwrap_err(), StartError::EmptyPrompt);
    assert_eq!(o.start_single("", ModelType::Q4, 0).unwrap_err(), StartError::EmptyPrompt);
    assert_eq!(o.start_compare(" \n", 0).unwrap_err(), StartError::EmptyPrompt);
    let d = o.start_single("Summarise", ModelType::Q5, 0).unwrap();
    match d {
        Dispatch::Generate { slot, url, request, label, delay_ms } => {
            assert_eq!(slot, Slot::Single);
            assert_eq!(url, "http://localhost:11434/api/generate");
            assert_eq!(request.model, "qwen-contract-q5:latest");
            assert_eq!(request.prompt, "Summarise");
            assert_eq!(label, "Q5");
            assert_eq!(delay_ms, 0);
        }
        _ => panic!("expected a generation call"),
    }
    assert_eq!(o.start_compare("x", 0).unwrap_err(), StartError::Busy);
    assert_eq!(o.start_stress("x", 0).unwrap_err(), StartError::Busy);
    assert_eq!(o.start_preload().unwrap_err(), StartError::Busy);
    assert_eq!(o.start_connection_test().unwrap_err(), StartError::Busy);
}

#[test]
fn single_completion_reports_stats() {
    let mut o = Orchestrator::new(BenchConfig::new());
    o.start_single("hi", ModelType::Q4, 0).unwrap();
    let done = o.drain(vec![arrival(Slot::Single, ok("hello world", 2000))], 2000, "12:00:00").unwrap();
    match done {
        Completion::Single { kind, outcome, stats } => {
            assert_eq!(kind, SingleKind::Generate);
            assert_eq!(success_text(&outcome), "hello world");
            let st = stats.unwrap();
            assert_eq!(st.words, 2);
            assert_eq!(st.chars, 11);
            assert_eq!(st.tokens_estimate_tenths, 26);
            assert_eq!(st.tokens_per_sec_milli, 1300);
        }
        _ => panic!("expected a single report"),
    }
    assert_eq!(o.recorder.history.len(), 1);
    let r = &o.recorder.history[0];
    assert_eq!(r.kind, RecordKind::Single);
    assert_eq!(r.model, "qwen-contract:latest");
    assert_eq!(r.elapsed_ms, 2000);
    assert_eq!(r.tokens_per_sec_milli, Some(1300));
    assert_eq!(r.timestamp, "12:00:00");
    assert!(r.success);
}

#[test]
fn single_failure_records_zero_time() {
    let mut o = Orchestrator::new(BenchConfig::new());
    o.start_single("hi", ModelType::Q4, 0).unwrap();
    let done = o.drain(vec![arrival(Slot::Single, fail("Q4 HTTP 404 Not Found: nope"))], 10, "12:00:00").unwrap();
    match done {
        Completion::Single { stats, .. } => assert!(stats.is_none()),
        _ => panic!("expected a single report"),
    }
    let r = &o.recorder.history[0];
    assert_eq!(r.elapsed_ms, 0);
    assert!(!r.success);
    assert_eq!(r.tokens_per_sec_milli, None);
    assert_eq!(o.recorder.stats.failed_requests, 1);
    assert!(o.start_single("again", ModelType::Q4, 20).is_ok());
}

#[test]
fn compare_reports_faster_variant() {
    let mut o = Orchestrator::new(BenchConfig::new());
    let ds = o.start_compare("Explain", 0).unwrap();
    assert_eq!(ds.len(), 2);
    let first = o.drain(vec![arrival(Slot::Q5, ok("five words are right here", 1000))], 1000, "12:00:00");
    assert!(first.is_none());
    assert_eq!(o.recorder.stats.total_requests, 1);
    let done = o.drain(vec![arrival(Slot::Q4, ok("four", 800))], 1100, "12:00:00").unwrap();
    match done {
        Completion::Compare { q4, q5, comparison } => {
            assert_eq!(success_text(&q4), "four");
            assert_eq!(success_text(&q5), "five words are right here");
            let c = comparison.unwrap();
            assert_eq!(c.faster, ModelType::Q4);
            assert_eq!(c.difference_ms, 200);
            assert_eq!(c.percent_faster, 20);
        }
        _ => panic!("expected a compare report"),
    }
    assert_eq!(o.recorder.stats.total_requests, 2);
    assert_eq!(o.recorder.history[0].model, "qwen-contract-q5:latest");
    assert_eq!(o.recorder.history[1].model, "qwen-contract:latest");
}

#[test]
fn compare_with_a_failure_omits_comparison() {
    let mut o = Orchestrator::new(BenchConfig::new());
    o.start_compare("Explain", 0).unwrap();
    let done = o
        .drain(vec![arrival(Slot::Q4, fail("down")), arrival(Slot::Q5, ok("x", 10))], 20, "12:00:00")
        .unwrap();
    match done {
        Completion::Compare { comparison, .. } => assert!(comparison.is_none()),
        _ => panic!("expected a compare report"),
    }
    assert_eq!(o.recorder.stats.successful_requests, 1);
    assert_eq!(o.recorder.stats.failed_requests, 1);
}

#[test]
fn compare_times_values() {
    let c = compare_times(800, 1000);
    assert_eq!((c.faster, c.difference_ms, c.percent_faster), (ModelType::Q4, 200, 20));
    let c = compare_times(1000, 1000);
    assert_eq!((c.faster, c.difference_ms, c.percent_faster), (ModelType::Q5, 0, 0));
    let c = compare_times(3, 1);
    assert_eq!((c.faster, c.difference_ms, c.percent_faster), (ModelType::Q5, 2, 67));
    let c = compare_times(0, 0);
    assert_eq!(c.percent_faster, 0);
    let c = compare_times(199, 200);
    assert_eq!(c.percent_faster, 1);
}

#[test]
fn stress_summary_counts_and_averages() {
    let mut o = Orchestrator::new(BenchConfig::new());
    let ds = o.start_stress("Load", 100).unwrap();
    assert_eq!(ds.len(), 5);
    for (i, d) in ds.iter().enumerate() {
        match d {
            Dispatch::Generate { slot, request, label, delay_ms, .. } => {
                assert_eq!(*slot, Slot::Stress(i));
                assert_eq!(request.prompt, format!("Load (Stress Request {})", i + 1));
                assert_eq!(request.model, "qwen-contract:latest");
                assert_eq!(*label, format!("Stress-{}", i + 1));
                assert_eq!(*delay_ms, 50 * i as u64);
            }
            _ => panic!("expected generation calls"),
        }
    }
    let part = o.drain(
        vec![arrival(Slot::Stress(3), fail("a")), arrival(Slot::Stress(0), ok("one", 500))],
        400, "12:00:00");
    assert!(part.is_none());
    let done = o
        .drain(
            vec![
                arrival(Slot::Stress(4), ok("two", 900)),
                arrival(Slot::Stress(1), fail("b")),
                arrival(Slot::Stress(2), ok("three", 700)),
            ],
            2100, "12:00:00")
        .unwrap();
    match done {
        Completion::Stress { slots, summary } => {
            assert_eq!(slots.len(), 5);
            assert!(matches!(slots[1], SlotState::Completed(Outcome::Failure { .. })));
            assert_eq!(summary.successful, 3);
            assert_eq!(summary.failed, 2);
            assert_eq!(summary.average_ms, 700);
            assert_eq!(summary.total_ms, 2000);
        }
        _ => panic!("expected a stress report"),
    }
    assert_eq!(o.recorder.stats.total_requests, 5);
    assert_eq!(o.recorder.history[0].kind, RecordKind::Stress);
}

#[test]
fn stress_with_blank_prompt_uses_default() {
    let mut o = Orchestrator::new(BenchConfig::new());
    let ds = o.start_stress("  ", 0).unwrap();
    match &ds[4] {
        Dispatch::Generate { request, .. } => {
            assert_eq!(request.prompt, "Test stress (Stress Request 5)")
        }
        _ => panic!("expected generation calls"),
    }
}

#[test]
fn stress_all_failed_average_zero() {
    let mut o = Orchestrator::new(BenchConfig::new());
    o.start_stress("x", 0).unwrap();
    let arrivals = (0..5).map(|i| arrival(Slot::Stress(i), fail("no"))).collect();
    match o.drain(arrivals, 10, "12:00:00").unwrap() {
        Completion::Stress { summary, .. } => {
            assert_eq!((summary.successful, summary.failed, summary.average_ms), (0, 5, 0));
        }
        _ => panic!("expected a stress report"),
    }
}

#[test]
fn completed_slot_is_not_overwritten() {
    let mut o = Orchestrator::new(BenchConfig::new());
    o.start_compare("x", 0).unwrap();
    o.drain(vec![arrival(Slot::Q4, ok("first", 100)), arrival(Slot::Q4, ok("second", 5))], 100, "12:00:00");
    assert_eq!(o.recorder.stats.total_requests, 1);
    let done = o.drain(vec![arrival(Slot::Single, ok("stray", 1)), arrival(Slot::Q5, ok("y", 300))], 300, "12:00:00");
    match done.unwrap() {
        Completion::Compare { q4, .. } => assert_eq!(success_text(&q4), "first"),
        _ => panic!("expected a compare report"),
    }
    assert_eq!(o.recorder.stats.total_requests, 2);
}

#[test]
fn drain_when_idle_changes_nothing() {
    let mut o = Orchestrator::new(BenchConfig::new());
    let r = o.drain(vec![arrival(Slot::Single, ok("x", 5)), arrival(Slot::Q4, fail("y"))], 50, "12:00:00");
    assert!(r.is_none());
    assert_eq!(o.recorder.history.len(), 0);
    assert_eq!(o.recorder.stats.total_requests, 0);
    assert!(o.drain(Vec::new(), 60, "12:00:00").is_none());
    assert_eq!(o.recorder.summary().total_requests, 0);
}

#[test]
fn history_keeps_last_twenty() {
    let mut rec = PerformanceRecorder::new();
    for i in 0..25u64 {
        rec.record(RecordKind::Single, "m", i + 1, true, Some("a b"), "00:00:00".to_string());
        assert!(rec.history.len() <= 20);
    }
    assert_eq!(rec.history.len(), 20);
    assert_eq!(rec.history[0].elapsed_ms, 6);
    assert_eq!(rec.history[19].elapsed_ms, 25);
    assert_eq!(rec.stats.total_requests, 25);
    assert_eq!(rec.stats.fastest_ms, Some(1));
    assert_eq!(rec.stats.slowest_ms, Some(25));
}

#[test]
fn totals_add_up_and_summary() {
    let mut rec = PerformanceRecorder::new();
    let s = rec.summary();
    assert_eq!((s.total_requests, s.success_permille, s.average_ms, s.fastest_ms, s.slowest_ms), (0, 0, 0, 0, 0));
    rec.record(RecordKind::Compare, "m", 300, true, Some("x"), "t".to_string());
    rec.record(RecordKind::Compare, "m", 0, false, None, "t".to_string());
    rec.record(RecordKind::Stress, "m", 600, true, None, "t".to_string());
    let st = rec.stats;
    assert_eq!(st.total_requests, st.successful_requests + st.failed_requests);
    let s = rec.summary();
    assert_eq!(s.total_requests, 3);
    assert_eq!(s.successful_requests, 2);
    assert_eq!(s.failed_requests, 1);
    assert_eq!(s.success_permille, 666);
    assert_eq!(s.average_ms, 450);
    assert_eq!(s.fastest_ms, 300);
    assert_eq!(s.slowest_ms, 600);
}

#[test]
fn token_rate_presence() {
    let mut rec = PerformanceRecorder::new();
    rec.record(RecordKind::Single, "m", 1000, true, Some("a b c"), "t".to_string());
    rec.record(RecordKind::Single, "m", 0, true, Some("a b c"), "t".to_string());
    rec.record(RecordKind::Single, "m", 1000, false, Some("a b c"), "t".to_string());
    rec.record(RecordKind::Single, "m", 1000, true, None, "t".to_string());
    assert_eq!(rec.history[0].tokens_per_sec_milli, Some(3900));
    assert_eq!(rec.history[1].tokens_per_sec_milli, None);
    assert_eq!(rec.history[2].tokens_per_sec_milli, None);
    assert_eq!(rec.history[3].tokens_per_sec_milli, None);
}

#[test]
fn record_kind_labels() {
    assert_eq!(RecordKind::Single.label(), "Single Request");
    assert_eq!(RecordKind::Compare.label(), "Parallel Compare");
    assert_eq!(RecordKind::Stress.label(), "Stress Test");
    assert_eq!(ModelType::Q4.label(), "Q4");
    assert_eq!(ModelType::Q5.label(), "Q5");
}

#[test]
fn retry_connection_twice_then_success() {
    let mut w = RetryWorker::new("Q4".to_string());
    let conn = || AttemptEvent::TransportError { class: TransportClass::Connect, detail: "refused".to_string() };
    assert!(matches!(w.on_attempt(conn()), Step::Retry { delay_ms: 1000 }));
    assert!(matches!(w.on_attempt(conn()), Step::Retry { delay_ms: 2000 }));
    match w.on_attempt(AttemptEvent::Succeeded { text: "done".to_string(), elapsed_ms: 321 }) {
        Step::Done(Outcome::Success { text, elapsed_ms }) => {
            assert_eq!(text, "done");
            assert_eq!(elapsed_ms, 321);
        }
        _ => panic!("expected one success"),
    }
    assert!(w.finished);
}

#[test]
fn retry_gives_up_after_three_attempts() {
    let mut w = RetryWorker::new("Stress-2".to_string());
    let server = || AttemptEvent::HttpStatus { code: 503, status: "503 Service Unavailable".to_string(), body: "busy".to_string() };
    assert!(matches!(w.on_attempt(server()), Step::Retry { delay_ms: 1000 }));
    assert!(matches!(w.on_attempt(AttemptEvent::DecodeFailed { detail: "eof".to_string() }), Step::Retry { delay_ms: 1000 }));
    match w.on_attempt(AttemptEvent::TransportError { class: TransportClass::Timeout, detail: String::new() }) {
        Step::Done(Outcome::Failure { message }) => {
            assert_eq!(message, "Stress-2 Request timed out after 3 attempts")
        }
        _ => panic!("expected a failure"),
    }
}

#[test]
fn retry_messages_by_class() {
    let last = |ev: AttemptEvent| {
        let mut w = RetryWorker::new("Q5".to_string());
        w.on_attempt(AttemptEvent::ReadFailed { detail: String::new() });
        w.on_attempt(AttemptEvent::ReadFailed { detail: String::new() });
        match w.on_attempt(ev) {
            Step::Done(Outcome::Failure { message }) => message,
            _ => panic!("expected a failure"),
        }
    };
    assert_eq!(last(AttemptEvent::TransportError { class: TransportClass::Connect, detail: String::new() }), "Q5 Connection failed after 3 attempts");
    assert_eq!(last(AttemptEvent::TransportError { class: TransportClass::Other, detail: "reset".to_string() }), "Q5 Network error after 3 attempts: reset");
    assert_eq!(last(AttemptEvent::DecodeFailed { detail: "bad".to_string() }), "Q5 Failed to parse JSON: bad");
    assert_eq!(last(AttemptEvent::ReadFailed { detail: "cut".to_string() }), "Q5 Failed to read response text: cut");
    assert_eq!(last(AttemptEvent::HttpStatus { code: 429, status: "429 Too Many Requests".to_string(), body: "slow".to_string() }), "Q5 HTTP 429 Too Many Requests: slow");
}

#[test]
fn client_error_is_not_retried() {
    let mut w = RetryWorker::new("Q4".to_string());
    match w.on_attempt(AttemptEvent::HttpStatus { code: 404, status: "404 Not Found".to_string(), body: "no model".to_string() }) {
        Step::Done(Outcome::Failure { message }) => assert_eq!(message, "Q4 HTTP 404 Not Found: no model"),
        _ => panic!("expected a failure"),
    }
    assert_eq!(w.attempt, 1);
    assert!(w.finished);
}

#[test]
fn response_stats_values() {
    let st = response_stats(&ok("  one two\tthree\n", 0)).unwrap();
    assert_eq!(st.words, 3);
    assert_eq!(st.tokens_per_sec_milli, 0);
    assert_eq!(st.tokens_estimate_tenths, 39);
    assert!(response_stats(&fail("x")).is_none());
}

#[test]
fn status_texts() {
    assert_eq!(decimal(0), "0");
    assert_eq!(decimal(1500), "1500");
    assert_eq!(decimal(u64::MAX), u64::MAX.to_string());
    assert_eq!(success_text(&probe_result("{\"models\":[]}")), "Connection successful! Ollama is running and accessible.");
    assert_eq!(success_text(&probe_result("hello")), "Connected but unexpected response format.");
    assert_eq!(
        success_text(&listing_result("  {\"models\":[]}\n")),
        "No models currently loaded in RAM.\n\nUse 'Pre-load Models' to cache them for faster responses!"
    );
    assert_eq!(
        success_text(&listing_result("{\"models\":[1]}")),
        "Models in RAM:\n{\"models\":[1]}\n\nLoaded models will respond much faster!"
    );
    assert_eq!(success_text(&listing_result("x")), "Model status:\nx");
    let p = success_text(&preload_result(&ok("a", 1500), &fail("down")));
    assert!(p.starts_with("Models pre-loaded into RAM!\nQ4 loaded: 1500ms\nQ5 failed: down\n\n"));
}

#[test]
fn earlier_records_keep_their_stamps() {
    let mut o = Orchestrator::new(BenchConfig::new());
    o.start_compare("x", 0).unwrap();
    o.drain(vec![arrival(Slot::Q4, ok("a", 100))], 100, "09:00:00");
    o.drain(vec![arrival(Slot::Q5, ok("b", 200))], 200, "09:00:05");
    assert_eq!(o.recorder.history[0].timestamp, "09:00:00");
    assert_eq!(o.recorder.history[1].timestamp, "09:00:05");
    assert_eq!(o.recorder.history[0].elapsed_ms, 100);
}
