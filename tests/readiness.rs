use ghoststream_supervisor::readiness::{
    progress_message, ready_message, ReadinessWaiter, WaitStep,
};

#[test]
fn ready_on_first_probe_without_sleep() {
    let mut w = ReadinessWaiter::standard();
    assert_eq!(w.on_probe(Some("ok".to_string())), WaitStep::Ready("ok".to_string()));
    assert_eq!(w.polls(), 0);
}

#[test]
fn never_answering_times_out_after_budget() {
    let mut w = ReadinessWaiter::standard();
    assert_eq!(w.max_polls(), 100);
    let mut sleeps: u32 = 0;
    let mut reports: Vec<u64> = Vec::new();
    loop {
        match w.on_probe(None) {
            WaitStep::Retry { sleep_ms, progress_ms } => {
                assert_eq!(sleep_ms, 200);
                sleeps += 1;
                if let Some(ms) = progress_ms {
                    reports.push(ms);
                }
                assert!(sleeps <= 100);
            }
            WaitStep::TimedOut { progress_ms } => {
                if let Some(ms) = progress_ms {
                    reports.push(ms);
                }
                break;
            }
            WaitStep::Ready(_) => panic!("no answer was given"),
        }
    }
    assert_eq!(sleeps, 100);
    assert_eq!(sleeps * 200, 20000);
    assert_eq!(reports.len(), 20);
    assert_eq!(reports[0], 1000);
    assert_eq!(reports[18], 19000);
    assert_eq!(reports[19], 20000);
}

#[test]
fn timed_out_waiter_stays_timed_out() {
    let mut w = ReadinessWaiter::new(400, 200);
    assert!(matches!(w.on_probe(None), WaitStep::Retry { .. }));
    assert!(matches!(w.on_probe(None), WaitStep::Retry { .. }));
    assert_eq!(w.on_probe(None), WaitStep::TimedOut { progress_ms: None });
    assert_eq!(w.on_probe(None), WaitStep::TimedOut { progress_ms: None });
    assert_eq!(w.polls(), 2);
}

#[test]
fn ready_after_some_polls() {
    let mut w = ReadinessWaiter::standard();
    for _ in 0..7 {
        assert!(matches!(w.on_probe(None), WaitStep::Retry { .. }));
    }
    assert_eq!(w.polls(), 7);
    assert_eq!(w.on_probe(Some("{}".to_string())), WaitStep::Ready("{}".to_string()));
}

#[test]
fn progress_only_once_per_second() {
    let mut w = ReadinessWaiter::new(2000, 250);
    assert_eq!(w.max_polls(), 8);
    let mut seen = Vec::new();
    loop {
        match w.on_probe(None) {
            WaitStep::Retry { progress_ms, .. } => seen.push(progress_ms),
            WaitStep::TimedOut { progress_ms } => {
                seen.push(progress_ms);
                break;
            }
            WaitStep::Ready(_) => panic!("no answer was given"),
        }
    }
    assert_eq!(
        seen,
        vec![None, None, None, None, Some(1000), None, None, None, Some(2000)]
    );
}

#[test]
fn interval_longer_than_wait_probes_once() {
    let mut w = ReadinessWaiter::new(100, 200);
    assert_eq!(w.max_polls(), 0);
    assert_eq!(w.on_probe(None), WaitStep::TimedOut { progress_ms: None });
}

#[test]
fn wait_messages() {
    assert_eq!(
        ReadinessWaiter::standard().timeout_message(),
        "Server failed to start within 20 seconds"
    );
    assert_eq!(progress_message(1000), "Waiting for server... 1.0s");
    assert_eq!(progress_message(13400), "Waiting for server... 13.4s");
    assert_eq!(ready_message(600), "Server ready after 0.6 seconds");
}
